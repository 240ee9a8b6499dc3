//! A small on-chain balance reporter: given the accounts handed over by a
//! host runtime, it reads the first account's balance and renders one
//! diagnostic line, `Account balance: <decimal>`, failing only when no
//! account was supplied.

pub mod decimal;
pub mod process;
