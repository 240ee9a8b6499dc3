use balance_reporter::process::Account;
use balance_reporter::process::ProcessError;
use balance_reporter::process::ProgramId;
use balance_reporter::process::next_account;
use balance_reporter::process::process_instruction;
use balance_reporter::process::render_balance_log;

fn some_program_id() -> ProgramId {
    ProgramId { bytes: [7u8; 32] }
}

#[test]
fn single_account_reports_its_balance() {
    let accounts = vec![Account { balance: 1500 }];
    let result = process_instruction(&some_program_id(), &accounts, &[]);
    assert_eq!(result, Ok(String::from("Account balance: 1500")));
}

#[test]
fn empty_sequence_is_missing_account() {
    let accounts: Vec<Account> = Vec::new();
    let result = process_instruction(&some_program_id(), &accounts, &[]);
    assert_eq!(result, Err(ProcessError::MissingAccount));
}

#[test]
fn only_the_first_account_is_reported() {
    let accounts = vec![Account { balance: 0 }, Account { balance: 999 }];
    let result = process_instruction(&some_program_id(), &accounts, &[]);
    assert_eq!(result, Ok(String::from("Account balance: 0")));
}

#[test]
fn instruction_data_is_ignored() {
    let accounts = vec![Account { balance: 42 }];
    let with_data = process_instruction(&some_program_id(), &accounts, &[1, 2, 3]);
    let without_data = process_instruction(&some_program_id(), &accounts, &[]);
    assert_eq!(with_data, without_data);
    assert_eq!(with_data, Ok(String::from("Account balance: 42")));
}

#[test]
fn next_account_takes_the_first() {
    let accounts = vec![Account { balance: 5 }, Account { balance: 6 }];
    assert_eq!(next_account(&accounts), Ok(&Account { balance: 5 }));
    let none: Vec<Account> = Vec::new();
    assert_eq!(next_account(&none), Err(ProcessError::MissingAccount));
}

#[test]
fn render_matches_reported_line() {
    assert_eq!(render_balance_log(0), "Account balance: 0");
    assert_eq!(render_balance_log(999), "Account balance: 999");
    assert_eq!(
        render_balance_log(u64::MAX),
        "Account balance: 18446744073709551615"
    );
}

#[test]
fn lamports_reads_the_balance_field() {
    let account = Account { balance: 123 };
    assert_eq!(account.lamports(), 123);
}
