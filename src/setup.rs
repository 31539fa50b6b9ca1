//! A program whose flag account is created cleared, can be set, and can be read.
use vstd::prelude::*;

verus! {

/// The data held in the program's flag account.
#[derive(Clone, Copy, Debug, PartialEq, Eq)]
pub struct SolvedState {
    pub solved: bool,
}

/// The accounts of the `initialize` instruction: the flag account being created.
#[derive(Clone, Copy, Debug, PartialEq, Eq)]
pub struct Initialize {
    pub solved_account: SolvedState,
}

/// The accounts of the `solve` instruction: the flag account, writable.
#[derive(Clone, Copy, Debug, PartialEq, Eq)]
pub struct Solve {
    pub solved_account: SolvedState,
}

/// The accounts of the `is_solved` instruction: the flag account, read only.
#[derive(Clone, Copy, Debug, PartialEq, Eq)]
pub struct IsSolved {
    pub solved_account: SolvedState,
}

/// Clears the flag of a freshly created account. Never fails.
pub fn initialize(accounts: &mut Initialize) -> (r: Result<(), anchor_lang::error::Error>)
    ensures
        r is Ok,
        final(accounts).solved_account.solved == false,
{
    let solved_account = &mut accounts.solved_account;
    solved_account.solved = false;
    Ok(())
}

/// Sets the flag, whatever it held before. Never fails.
pub fn solve(accounts: &mut Solve) -> (r: Result<(), anchor_lang::error::Error>)
    ensures
        r is Ok,
        final(accounts).solved_account.solved == true,
{
    let solved_account = &mut accounts.solved_account;
    solved_account.solved = true;
    Ok(())
}

/// Reports the flag as it stands. Never fails.
pub fn is_solved(accounts: &IsSolved) -> (r: Result<bool, anchor_lang::error::Error>)
    ensures
        r == Ok::<bool, anchor_lang::error::Error>(accounts.solved_account.solved),
{
    let solved_account = &accounts.solved_account;
    Ok(solved_account.solved)
}

} // verus!
