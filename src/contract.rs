//! A program whose flag account can be set and read.
use vstd::prelude::*;

verus! {

/// The data held in the program's flag account.
#[derive(Clone, Copy, Debug, PartialEq, Eq)]
pub struct Storage {
    pub solved: bool,
}

/// The accounts of the `solve` instruction: the flag account, writable.
#[derive(Clone, Copy, Debug, PartialEq, Eq)]
pub struct Solve {
    pub storage: Storage,
}

/// The accounts of the `is_solved` instruction: the flag account, read only.
#[derive(Clone, Copy, Debug, PartialEq, Eq)]
pub struct IsSolved {
    pub storage: Storage,
}

/// Sets the flag, whatever it held before. Never fails.
pub fn solve(accounts: &mut Solve) -> (r: Result<(), anchor_lang::error::Error>)
    ensures
        r is Ok,
        final(accounts).storage.solved == true,
{
    let storage = &mut accounts.storage;
    storage.solved = true;
    Ok(())
}

/// Reports the flag as it stands. Never fails.
pub fn is_solved(accounts: &IsSolved) -> (r: Result<bool, anchor_lang::error::Error>)
    ensures
        r == Ok::<bool, anchor_lang::error::Error>(accounts.storage.solved),
{
    let storage = &accounts.storage;
    Ok(storage.solved)
}

} // verus!
