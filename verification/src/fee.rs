use vstd::prelude::*;

use crate::errors::{Error, ProgramError, checked, require_constraint};
use crate::utils::{
    Account, AccountInfo, Cpi, Pubkey, SignerSeeds, TokenAccount, invokes, signed_transfer,
    just, transfer_invoke, transfer_invoke_signed, transfer_spl_invoke, transfer_spl_invoke_signed,
};

verus! {

/// The account that collects the holders' share of every game and counts the volumes.
#[derive(Clone, Copy, Debug, PartialEq, Eq, Structural)]
pub struct Fee {
    pub bump: u8,
    pub authority: Pubkey,
    pub volume: u64,
    pub referral_volume: u64,
    pub referral_today_volume: u64,
}

impl Fee {
    /// Bytes that the account occupies: discriminator, bump, authority and three volumes.
    pub const LEN: usize = 8 + 1 + 32 + 8 + 8 + 8;
}

/// The fee record that `init_fee` and `init_token_fee` write.
pub open spec fn new_fee(bump: u8, volume: u64, authority: Pubkey) -> Fee {
    Fee { bump, authority, volume, referral_volume: 0, referral_today_volume: 0 }
}

/// Accounts of `init_fee`.
#[derive(Clone, Copy, Debug)]
pub struct InitFee {
    pub fee: Account<Fee>,
    pub authority: AccountInfo,
}

/// Accounts of `init_token_fee`.
#[derive(Clone, Copy, Debug)]
pub struct InitTokenFee {
    pub fee: Account<Fee>,
    pub authority: AccountInfo,
}

/// Accounts of `deposit_fee`.
#[derive(Clone, Copy, Debug)]
pub struct DepositFee {
    pub fee: Account<Fee>,
    pub source: AccountInfo,
    pub authority: AccountInfo,
}

/// Accounts of `deposit_token_fee`.
#[derive(Clone, Copy, Debug)]
pub struct DepositTokenFee {
    pub fee_ata: Account<TokenAccount>,
    pub fee: Account<Fee>,
    pub source_ata: Account<TokenAccount>,
    pub source: AccountInfo,
    pub authority: AccountInfo,
    pub token_program: AccountInfo,
}

/// Accounts of `withdraw_fee`.
#[derive(Clone, Copy, Debug)]
pub struct WithdrawFee {
    pub fee: Account<Fee>,
    pub destination: AccountInfo,
    pub authority: AccountInfo,
}

/// Accounts of `withdraw_token_fee`.
#[derive(Clone, Copy, Debug)]
pub struct WithdrawTokenFee {
    pub fee_ata: Account<TokenAccount>,
    pub fee: Account<Fee>,
    pub destination_ata: Account<TokenAccount>,
    pub authority: AccountInfo,
    pub mint: AccountInfo,
    pub token_program: AccountInfo,
}

/// Creates the fee account of the native currency.
pub fn init_fee(ctx: &mut InitFee, bump: u8, volume: u64) -> (r: Result<(), Error>)
    ensures
        r is Err ==> *final(ctx) == *old(ctx),
        r is Ok,
        final(ctx).fee.data == new_fee(bump, volume, old(ctx).authority.key),
        final(ctx).fee.info == old(ctx).fee.info,
        final(ctx).authority == old(ctx).authority,
{
    ctx.fee.data.bump = bump;
    ctx.fee.data.volume = volume;
    ctx.fee.data.referral_volume = 0;
    ctx.fee.data.referral_today_volume = 0;
    ctx.fee.data.authority = ctx.authority.key;
    Ok(())
}

/// Creates the fee account of a token.
pub fn init_token_fee(ctx: &mut InitTokenFee, bump: u8, volume: u64) -> (r: Result<(), Error>)
    ensures
        r is Err ==> *final(ctx) == *old(ctx),
        r is Ok,
        final(ctx).fee.data == new_fee(bump, volume, old(ctx).authority.key),
        final(ctx).fee.info == old(ctx).fee.info,
        final(ctx).authority == old(ctx).authority,
{
    ctx.fee.data.bump = bump;
    ctx.fee.data.volume = volume;
    ctx.fee.data.referral_volume = 0;
    ctx.fee.data.referral_today_volume = 0;
    ctx.fee.data.authority = ctx.authority.key;
    Ok(())
}

/// Pays `amount` lamports from `source` into the fee account.
pub fn deposit_fee(ctx: &DepositFee, _bump: u8, amount: u64) -> (r: Result<Vec<Cpi>, Error>)
    ensures
        invokes(r, seq![Cpi::SystemTransfer { from: ctx.source.key, to: ctx.fee.info.key, amount }]),
{
    Ok(just(transfer_invoke(&ctx.source, &ctx.fee.info, amount)))
}

/// Pays `amount` tokens from the source's token account into the fee's token account.
pub fn deposit_token_fee(ctx: &DepositTokenFee, _bump: u8, amount: u64) -> (r: Result<Vec<Cpi>, Error>)
    ensures
        invokes(
            r,
            seq![Cpi::TokenTransfer {
                from: ctx.source_ata.info.key,
                to: ctx.fee_ata.info.key,
                amount,
                program: ctx.token_program.key,
                authority: ctx.source.key,
                seeds: None,
            }],
        ),
{
    Ok(just(transfer_spl_invoke(&ctx.source_ata.info, &ctx.fee_ata.info, amount, &ctx.token_program, &ctx.source)))
}

/// Moves `amount` lamports out of the fee account to `destination`.
pub fn withdraw_fee(ctx: &mut WithdrawFee, _bump: u8, amount: u64) -> (r: Result<(), Error>)
    ensures
        r is Err ==> *final(ctx) == *old(ctx),
        (final(ctx).fee.info, final(ctx).destination, r is Ok) == signed_transfer(
            old(ctx).fee.info,
            old(ctx).destination,
            amount,
        ),
        final(ctx).fee.data == old(ctx).fee.data,
        final(ctx).authority == old(ctx).authority,
        r is Err ==> r == Err::<(), Error>(Error::Program(ProgramError::InvalidArgument)),
{
    match transfer_invoke_signed(&mut ctx.fee.info, &mut ctx.destination, amount) {
        Ok(()) => Ok(()),
        Err(e) => Err(Error::Program(e)),
    }
}

/// Moves `amount` tokens out of the fee's token account, signed by the fee account.
pub fn withdraw_token_fee(ctx: &WithdrawTokenFee, _bump: u8, amount: u64) -> (r: Result<Vec<Cpi>, Error>)
    ensures
        invokes(
            r,
            seq![Cpi::TokenTransfer {
                from: ctx.fee_ata.info.key,
                to: ctx.destination_ata.info.key,
                amount,
                program: ctx.token_program.key,
                authority: ctx.fee.info.key,
                seeds: Some(SignerSeeds::Fee {
                    mint: ctx.mint.key,
                    authority: ctx.authority.key,
                    bump: ctx.fee.data.bump,
                }),
            }],
        ),
{
    let seeds = SignerSeeds::Fee { mint: ctx.mint.key, authority: ctx.authority.key, bump: ctx.fee.data.bump };
    Ok(just(transfer_spl_invoke_signed(
        &ctx.fee_ata.info,
        &ctx.destination_ata.info,
        amount,
        &ctx.token_program,
        &ctx.fee.info,
        seeds,
    )))
}

/// A fee account given to an instruction matches when it was created with `bump` for
/// `authority`.
pub open spec fn fee_matches(fee: Fee, bump: u8, authority: Pubkey) -> bool {
    fee.bump == bump && fee.authority == authority
}

/// Whether a fee account matches `bump` and `authority`.
pub fn fee_account_matches(fee: &Fee, bump: u8, authority: Pubkey) -> (b: bool)
    ensures
        b == fee_matches(*fee, bump, authority),
{
    fee.bump == bump && fee.authority == authority
}

impl DepositFee {
    /// Checks the accounts of `deposit_fee`.
    pub fn check_constraints(&self, bump: u8) -> (r: Result<(), Error>)
        ensures
            checked(r, fee_matches(self.fee.data, bump, self.authority.key)),
    {
        require_constraint(fee_account_matches(&self.fee.data, bump, self.authority.key))
    }
}

impl DepositTokenFee {
    /// Checks the accounts of `deposit_token_fee`.
    pub fn check_constraints(&self, bump: u8) -> (r: Result<(), Error>)
        ensures
            checked(r, fee_matches(self.fee.data, bump, self.authority.key)),
    {
        require_constraint(fee_account_matches(&self.fee.data, bump, self.authority.key))
    }
}

impl WithdrawFee {
    /// Checks the accounts of `withdraw_fee`.
    pub fn check_constraints(&self, bump: u8) -> (r: Result<(), Error>)
        ensures
            checked(r, fee_matches(self.fee.data, bump, self.authority.key)),
    {
        require_constraint(fee_account_matches(&self.fee.data, bump, self.authority.key))
    }
}

impl WithdrawTokenFee {
    /// Checks the accounts of `withdraw_token_fee`.
    pub fn check_constraints(&self, bump: u8) -> (r: Result<(), Error>)
        ensures
            checked(r, fee_matches(self.fee.data, bump, self.authority.key)),
    {
        require_constraint(fee_account_matches(&self.fee.data, bump, self.authority.key))
    }
}

} // verus!
