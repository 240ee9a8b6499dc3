//! The balance-reporting entry point.
//!
//! A host runtime invokes the program with a program identifier, an ordered
//! sequence of account handles and an opaque instruction-data buffer. The
//! program reads the first account's balance, renders one diagnostic line
//! `Account balance: <decimal>`, and succeeds; with no account supplied it
//! fails with the single error kind, `MissingAccount`, and renders nothing.

use vstd::prelude::*;

use crate::decimal::dec_rep;
use crate::decimal::lemma_dec_rep_injective;
use crate::decimal::u64_to_dec;

verus! {

/// An account handle as this program sees it: the host-provided account
/// state narrowed to the one field the program reads, its native balance.
#[derive(Clone, Copy, Debug, PartialEq, Eq, Structural)]
pub struct Account {
    /// The account's native balance.
    pub balance: u64,
}

impl Account {
    /// The account's balance, read from the borrowed handle.
    pub fn lamports(&self) -> (r: u64)
        ensures
            r == self.balance,
    {
        self.balance
    }
}

/// The identifier of the invoked program, carried through the invocation
/// boundary. The program never reads it.
#[derive(Clone, Copy, Debug)]
pub struct ProgramId {
    /// The identifier's raw bytes.
    pub bytes: [u8; 32],
}

/// The one failure an invocation can produce: the account sequence was
/// empty at the point of extraction.
#[derive(Clone, Copy, Debug, PartialEq, Eq, Structural)]
pub enum ProcessError {
    /// No account handle was supplied.
    MissingAccount,
}

/// The diagnostic line reported for a balance: the literal prefix
/// `Account balance: ` followed by the balance in decimal.
pub open spec fn balance_log(balance: u64) -> Seq<char> {
    "Account balance: "@ + dec_rep(balance as nat)
}

/// Renders the diagnostic line for `balance`.
pub fn render_balance_log(balance: u64) -> (r: String)
    ensures
        r@ == balance_log(balance),
{
    let mut s = String::from_str("Account balance: ");
    let digits = u64_to_dec(balance);
    s.append(digits.as_str());
    s
}

/// Extracts the next (first) account handle from the sequence, the single
/// error path of the program.
pub fn next_account(accounts: &[Account]) -> (r: Result<&Account, ProcessError>)
    ensures
        accounts@.len() > 0 ==> (r matches Ok(a) && *a == accounts@[0]),
        accounts@.len() == 0 ==> (r matches Err(e) && e == ProcessError::MissingAccount),
{
    match accounts.first() {
        Some(account) => Ok(account),
        None => Err(ProcessError::MissingAccount),
    }
}

/// Processes one invocation: takes the first account handle, reads its
/// balance and returns the diagnostic line to emit. With no account it
/// returns `MissingAccount` and there is no line to emit.
///
/// The identifier and the instruction data are accepted, as the invocation
/// boundary fixes, and left unread.
pub fn process_instruction(
    _program_id: &ProgramId,
    accounts: &[Account],
    _instruction_data: &[u8],
) -> (r: Result<String, ProcessError>)
    ensures
        accounts@.len() > 0 ==> (r matches Ok(line) && line@ == balance_log(
            accounts@[0].balance,
        )),
        accounts@.len() == 0 ==> (r matches Err(e) && e == ProcessError::MissingAccount),
{
    let account = match next_account(accounts) {
        Ok(account) => account,
        Err(e) => {
            return Err(e);
        },
    };
    let balance = account.lamports();
    let line = render_balance_log(balance);
    Ok(line)
}

/// The reported line is determined by the first account handle alone: two
/// invocations whose sequences agree on the first account's balance report
/// the same line, whatever other accounts are present.
pub proof fn lemma_report_ignores_rest(a: Seq<Account>, b: Seq<Account>)
    requires
        a.len() > 0,
        b.len() > 0,
        a[0].balance == b[0].balance,
    ensures
        balance_log(a[0].balance) == balance_log(b[0].balance),
{
}

/// The reported line determines the balance: equal lines mean the first
/// accounts held equal balances, so the report is exact.
pub proof fn lemma_report_is_exact(b1: u64, b2: u64)
    requires
        balance_log(b1) == balance_log(b2),
    ensures
        b1 == b2,
{
    let p = "Account balance: "@;
    let d1 = dec_rep(b1 as nat);
    let d2 = dec_rep(b2 as nat);
    assert((p + d1).len() == p.len() + d1.len());
    assert((p + d2).len() == p.len() + d2.len());
    assert(d1.len() == d2.len());
    assert forall|i: int| 0 <= i < d1.len() implies d1[i] == d2[i] by {
        assert((p + d1)[p.len() + i] == d1[i]);
        assert((p + d2)[p.len() + i] == d2[i]);
    }
    assert(d1 =~= d2);
    lemma_dec_rep_injective(b1 as nat, b2 as nat);
}

} // verus!
