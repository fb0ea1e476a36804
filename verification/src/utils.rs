use vstd::prelude::*;

use crate::errors::ProgramError;

verus! {

/// A 32-byte account address, held as two 128-bit words.
#[derive(Clone, Copy, Debug, PartialEq, Eq, Structural)]
pub struct Pubkey {
    pub hi: u128,
    pub lo: u128,
}

/// What the program reads of any account: its address and its balance in lamports.
#[derive(Clone, Copy, Debug, PartialEq, Eq, Structural)]
pub struct AccountInfo {
    pub key: Pubkey,
    pub lamports: u64,
}

/// An account of the program: its address and balance, and the record that it stores.
#[derive(Clone, Copy, Debug)]
pub struct Account<T> {
    pub info: AccountInfo,
    pub data: T,
}

/// What the program reads of a token account: the number of tokens that it holds.
#[derive(Clone, Copy, Debug, PartialEq, Eq, Structural)]
pub struct TokenAccount {
    pub amount: u64,
}

/// The seeds by which one of the program's accounts signs a token instruction.
#[derive(Clone, Copy, Debug, PartialEq, Eq, Structural)]
pub enum SignerSeeds {
    /// `["fee", mint, authority, [bump]]`
    Fee { mint: Pubkey, authority: Pubkey, bump: u8 },
    /// `["house", mint, authority, [bump]]`
    House { mint: Pubkey, authority: Pubkey, bump: u8 },
    /// `["referral", owner, authority, [bump]]`
    Referral { owner: Pubkey, authority: Pubkey, bump: u8 },
    /// `["plinko", player, mint, authority, id (little endian), [bump]]`
    Plinko { player: Pubkey, mint: Pubkey, authority: Pubkey, id: u64, bump: u8 },
}

/// An invocation of another program that an instruction asks the runtime to make,
/// in the order in which the instruction makes them.
#[derive(Clone, Copy, Debug, PartialEq, Eq, Structural)]
pub enum Cpi {
    /// A transfer of lamports by the system program, signed by `from`.
    SystemTransfer { from: Pubkey, to: Pubkey, amount: u64 },
    /// A transfer of tokens by the token program `program`, signed by `authority`,
    /// through `seeds` when the authority is one of this program's accounts.
    TokenTransfer {
        from: Pubkey,
        to: Pubkey,
        amount: u64,
        program: Pubkey,
        authority: Pubkey,
        seeds: Option<SignerSeeds>,
    },
    /// The closing of a token account, whose lamports go to `destination`.
    CloseAccount {
        account: Pubkey,
        destination: Pubkey,
        program: Pubkey,
        authority: Pubkey,
        seeds: SignerSeeds,
    },
}

/// `a` with `amount` lamports taken from it.
pub open spec fn debited(a: AccountInfo, amount: u64) -> AccountInfo {
    AccountInfo { key: a.key, lamports: (a.lamports - amount) as u64 }
}

/// `a` with `amount` lamports added to it.
pub open spec fn credited(a: AccountInfo, amount: u64) -> AccountInfo {
    AccountInfo { key: a.key, lamports: (a.lamports + amount) as u64 }
}

/// The two accounts after a direct move of `amount` lamports from `from` to `to`, and
/// whether it succeeded. It fails when `from` holds too little or when `to` would
/// overflow, and then nothing moves.
pub open spec fn signed_transfer(from: AccountInfo, to: AccountInfo, amount: u64) -> (AccountInfo, AccountInfo, bool) {
    if from.lamports < amount || to.lamports + amount > u64::MAX {
        (from, to, false)
    } else {
        (debited(from, amount), credited(to, amount), true)
    }
}

/// Asks the system program to move `amount` lamports from `from_account`, which signs,
/// to `to_account`.
pub fn transfer_invoke(from_account: &AccountInfo, to_account: &AccountInfo, amount: u64) -> (c: Cpi)
    ensures
        c == (Cpi::SystemTransfer { from: from_account.key, to: to_account.key, amount }),
{
    Cpi::SystemTransfer { from: from_account.key, to: to_account.key, amount }
}

/// Moves `amount` lamports directly from `from_account`, which the program owns, to
/// `to_account`; fails with `InvalidArgument`, and moves nothing, when the debit or the
/// credit would leave the range of a `u64`.
pub fn transfer_invoke_signed(
    from_account: &mut AccountInfo,
    to_account: &mut AccountInfo,
    amount: u64,
) -> (r: Result<(), ProgramError>)
    ensures
        (*final(from_account), *final(to_account), r is Ok) == signed_transfer(
            *old(from_account),
            *old(to_account),
            amount,
        ),
        r is Err ==> r == Err::<(), ProgramError>(ProgramError::InvalidArgument) && *final(from_account)
            == *old(from_account) && *final(to_account) == *old(to_account),
{
    let debited_lamports = match from_account.lamports.checked_sub(amount) {
        Some(v) => v,
        None => {
            return Err(ProgramError::InvalidArgument);
        },
    };
    let credited_lamports = match to_account.lamports.checked_add(amount) {
        Some(v) => v,
        None => {
            return Err(ProgramError::InvalidArgument);
        },
    };
    from_account.lamports = debited_lamports;
    to_account.lamports = credited_lamports;
    Ok(())
}

/// Asks the token program `program` to move `amount` tokens from `from_account` to
/// `to_account`, signed by `authority`.
pub fn transfer_spl_invoke(
    from_account: &AccountInfo,
    to_account: &AccountInfo,
    amount: u64,
    program: &AccountInfo,
    authority: &AccountInfo,
) -> (c: Cpi)
    ensures
        c == (Cpi::TokenTransfer {
            from: from_account.key,
            to: to_account.key,
            amount,
            program: program.key,
            authority: authority.key,
            seeds: None,
        }),
{
    Cpi::TokenTransfer {
        from: from_account.key,
        to: to_account.key,
        amount,
        program: program.key,
        authority: authority.key,
        seeds: None,
    }
}

/// Asks the token program `program` to move `amount` tokens from `from_account` to
/// `to_account`, signed by the program's account `authority` through `seeds`.
pub fn transfer_spl_invoke_signed(
    from_account: &AccountInfo,
    to_account: &AccountInfo,
    amount: u64,
    program: &AccountInfo,
    authority: &AccountInfo,
    seeds: SignerSeeds,
) -> (c: Cpi)
    ensures
        c == (Cpi::TokenTransfer {
            from: from_account.key,
            to: to_account.key,
            amount,
            program: program.key,
            authority: authority.key,
            seeds: Some(seeds),
        }),
{
    Cpi::TokenTransfer {
        from: from_account.key,
        to: to_account.key,
        amount,
        program: program.key,
        authority: authority.key,
        seeds: Some(seeds),
    }
}

} // verus!

verus! {

/// `r` is a success that asks for exactly the invocations `s`, in that order.
pub open spec fn invokes<E>(r: Result<Vec<Cpi>, E>, s: Seq<Cpi>) -> bool {
    r matches Ok(v) && v@ == s
}

} // verus!

verus! {

/// A list of the single invocation `c`.
pub(crate) fn just(c: Cpi) -> (v: Vec<Cpi>)
    ensures
        v@ == seq![c],
{
    let mut v: Vec<Cpi> = Vec::new();
    v.push(c);
    assert(v@ =~= seq![c]);
    v
}

} // verus!
