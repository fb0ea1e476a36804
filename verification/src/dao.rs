use vstd::prelude::*;

use crate::errors::{CustomErrors, Error, checked, invalid_argument, refused, require_constraint};
use crate::referral::{
    DAO_REFERRAL_PERCENTAGE, MAX_PERCENTAGE, Referral, new_referral, pay_out_referral, referral_account_matches,
    referral_matches,
};
use crate::utils::{
    Account, AccountInfo, Cpi, Pubkey, SignerSeeds, TokenAccount, invokes, just, signed_transfer,
    transfer_spl_invoke_signed,
};

verus! {

/// A DAO that players can join; it owns a referral account.
#[derive(Clone, Copy, Debug, PartialEq, Eq, Structural)]
pub struct Dao {
    pub bump: u8,
    pub authority: Pubkey,
    pub owner: Pubkey,
    pub timestamp: i64,
    pub verified: bool,
}

impl Dao {
    /// Bytes that the account occupies.
    pub const LEN: usize = 8 + 1 + 32 + 32 + 8 + 1;
}

/// Accounts of `create_dao`.
#[derive(Clone, Copy, Debug)]
pub struct CreateDao {
    pub dao: Account<Dao>,
    pub referral: Account<Referral>,
    pub owner: AccountInfo,
    pub authority: AccountInfo,
}

/// Accounts of `verify_dao` and `unverify_dao`.
#[derive(Clone, Copy, Debug)]
pub struct DaoVerification {
    pub dao: Account<Dao>,
    pub referral: Account<Referral>,
    pub owner: AccountInfo,
    pub authority: AccountInfo,
}

/// Accounts of `claim_dao_referral`; `referral_rent` is the balance that keeps the
/// referral account rent exempt.
#[derive(Clone, Copy, Debug)]
pub struct ClaimDaoReferral {
    pub referral: Account<Referral>,
    pub dao: Account<Dao>,
    pub owner: AccountInfo,
    pub authority: AccountInfo,
    pub referral_rent: u64,
}

/// Accounts of `claim_dao_token_referral`.
#[derive(Clone, Copy, Debug)]
pub struct ClaimDaoTokenReferral {
    pub referral_ata: Account<TokenAccount>,
    pub referral: Account<Referral>,
    pub dao: Account<Dao>,
    pub owner_ata: Account<TokenAccount>,
    pub owner: AccountInfo,
    pub authority: AccountInfo,
    pub token_program: AccountInfo,
}

/// Accounts of `change_percentage_of_dao_referral`.
#[derive(Clone, Copy, Debug)]
pub struct ChangePercentageOfDaoReferral {
    pub referral: Account<Referral>,
    pub dao: Account<Dao>,
    pub owner: AccountInfo,
    pub authority: AccountInfo,
}

/// The check before a DAO's referral account is paid out: the DAO and the referral must
/// be verified and there must be something to pay: the account's `balance` must exceed
/// what it keeps (`kept`, its rent-exempt balance for lamports, nothing for tokens).
pub open spec fn dao_claim_refusal(dao: Dao, referral: Referral, balance: u64, kept: u64) -> Option<CustomErrors> {
    if !dao.verified {
        Some(CustomErrors::DaoNotVerified)
    } else if !referral.verified {
        Some(CustomErrors::ReferralNotVerified)
    } else if balance <= kept {
        Some(CustomErrors::ReferralAmountIsZero)
    } else {
        None
    }
}

fn check_dao_claim(dao: &Dao, referral: &Referral, balance: u64, kept: u64) -> (r: Result<(), Error>)
    ensures
        match dao_claim_refusal(*dao, *referral, balance, kept) {
            Some(e) => r == refused::<()>(e),
            None => r is Ok,
        },
{
    if !dao.verified {
        return Err(Error::Custom(CustomErrors::DaoNotVerified));
    }
    if !referral.verified {
        return Err(Error::Custom(CustomErrors::ReferralNotVerified));
    }
    if !(balance > kept) {
        return Err(Error::Custom(CustomErrors::ReferralAmountIsZero));
    }
    Ok(())
}

/// Creates a DAO, unverified, stamped with `unix_timestamp`, and its referral account,
/// unverified, with a share of `DAO_REFERRAL_PERCENTAGE`.
pub fn create_dao(ctx: &mut CreateDao, bump: u8, referral_bump: u8, unix_timestamp: i64) -> (r: Result<(), Error>)
    ensures
        r is Err ==> *final(ctx) == *old(ctx),
        r is Ok,
        final(ctx).dao.data == (Dao {
            bump,
            authority: old(ctx).authority.key,
            owner: old(ctx).owner.key,
            timestamp: unix_timestamp,
            verified: false,
        }),
        final(ctx).referral.data == new_referral(
            referral_bump,
            false,
            DAO_REFERRAL_PERCENTAGE,
            old(ctx).dao.info.key,
            old(ctx).authority.key,
        ),
        final(ctx).dao.info == old(ctx).dao.info,
        final(ctx).referral.info == old(ctx).referral.info,
        final(ctx).owner == old(ctx).owner,
        final(ctx).authority == old(ctx).authority,
{
    ctx.dao.data.bump = bump;
    ctx.dao.data.timestamp = unix_timestamp;
    ctx.dao.data.owner = ctx.owner.key;
    ctx.dao.data.authority = ctx.authority.key;
    ctx.dao.data.verified = false;

    ctx.referral.data.bump = referral_bump;
    ctx.referral.data.verified = false;
    ctx.referral.data.percentage = DAO_REFERRAL_PERCENTAGE;
    ctx.referral.data.owner = ctx.dao.info.key;
    ctx.referral.data.authority = ctx.authority.key;
    Ok(())
}

/// Verifies a DAO, stamped anew with `unix_timestamp`, and its referral account.
pub fn verify_dao(ctx: &mut DaoVerification, _bump: u8, _referral_bump: u8, unix_timestamp: i64) -> (r: Result<(), Error>)
    ensures
        r is Err ==> *final(ctx) == *old(ctx),
        r is Ok,
        final(ctx).dao.data == (Dao { verified: true, timestamp: unix_timestamp, ..old(ctx).dao.data }),
        final(ctx).referral.data == (Referral { verified: true, ..old(ctx).referral.data }),
        final(ctx).dao.info == old(ctx).dao.info,
        final(ctx).referral.info == old(ctx).referral.info,
        final(ctx).owner == old(ctx).owner,
        final(ctx).authority == old(ctx).authority,
{
    ctx.dao.data.verified = true;
    ctx.dao.data.timestamp = unix_timestamp;
    ctx.referral.data.verified = true;
    Ok(())
}

/// Withdraws the verification of a DAO and of its referral account.
pub fn unverify_dao(ctx: &mut DaoVerification, _bump: u8, _referral_bump: u8) -> (r: Result<(), Error>)
    ensures
        r is Err ==> *final(ctx) == *old(ctx),
        r is Ok,
        final(ctx).dao.data == (Dao { verified: false, ..old(ctx).dao.data }),
        final(ctx).referral.data == (Referral { verified: false, ..old(ctx).referral.data }),
        final(ctx).dao.info == old(ctx).dao.info,
        final(ctx).referral.info == old(ctx).referral.info,
        final(ctx).owner == old(ctx).owner,
        final(ctx).authority == old(ctx).authority,
{
    ctx.dao.data.verified = false;
    ctx.referral.data.verified = false;
    Ok(())
}

/// Pays a verified DAO's owner everything that its referral account holds above the
/// rent-exempt balance; refused with `ReferralAmountIsZero` when it holds nothing above it.
pub fn claim_dao_referral(ctx: &mut ClaimDaoReferral, _bump: u8, _referral_bump: u8) -> (r: Result<(), Error>)
    ensures
        r is Err ==> *final(ctx) == *old(ctx),
        final(ctx).referral.data == old(ctx).referral.data,
        final(ctx).dao == old(ctx).dao,
        final(ctx).authority == old(ctx).authority,
        final(ctx).referral_rent == old(ctx).referral_rent,
        match dao_claim_refusal(old(ctx).dao.data, old(ctx).referral.data, old(ctx).referral.info.lamports, old(ctx).referral_rent) {
            Some(e) => {
                &&& r == refused::<()>(e)
                &&& final(ctx).referral.info == old(ctx).referral.info
                &&& final(ctx).owner == old(ctx).owner
            },
            None => {
                &&& (final(ctx).referral.info, final(ctx).owner, r is Ok) == signed_transfer(
                    old(ctx).referral.info,
                    old(ctx).owner,
                    (old(ctx).referral.info.lamports - old(ctx).referral_rent) as u64,
                )
                &&& r is Err ==> r == invalid_argument::<()>()
            },
        },
{
    let claim_lamports = ctx.referral.info.lamports;
    let rent_lamports = ctx.referral_rent;
    check_dao_claim(&ctx.dao.data, &ctx.referral.data, claim_lamports, rent_lamports)?;
    pay_out_referral(&mut ctx.referral.info, &mut ctx.owner, rent_lamports)
}

/// Pays a verified DAO's owner all the tokens of its referral's token account.
pub fn claim_dao_token_referral(ctx: &ClaimDaoTokenReferral, _bump: u8, _referral_bump: u8) -> (r: Result<Vec<Cpi>, Error>)
    ensures
        match dao_claim_refusal(ctx.dao.data, ctx.referral.data, ctx.referral_ata.data.amount, 0) {
            Some(e) => r == refused::<Vec<Cpi>>(e),
            None => invokes(
                r,
                seq![Cpi::TokenTransfer {
                    from: ctx.referral_ata.info.key,
                    to: ctx.owner_ata.info.key,
                    amount: ctx.referral_ata.data.amount,
                    program: ctx.token_program.key,
                    authority: ctx.referral.info.key,
                    seeds: Some(SignerSeeds::Referral {
                        owner: ctx.dao.info.key,
                        authority: ctx.authority.key,
                        bump: ctx.referral.data.bump,
                    }),
                }],
            ),
        },
{
    check_dao_claim(&ctx.dao.data, &ctx.referral.data, ctx.referral_ata.data.amount, 0)?;
    let seeds = SignerSeeds::Referral {
        owner: ctx.dao.info.key,
        authority: ctx.authority.key,
        bump: ctx.referral.data.bump,
    };
    Ok(just(transfer_spl_invoke_signed(
        &ctx.referral_ata.info,
        &ctx.owner_ata.info,
        ctx.referral_ata.data.amount,
        &ctx.token_program,
        &ctx.referral.info,
        seeds,
    )))
}

/// Gives a DAO's referral account a new share; more than `MAX_PERCENTAGE` is refused.
pub fn change_percentage_of_dao_referral(
    ctx: &mut ChangePercentageOfDaoReferral,
    _bump: u8,
    _referral_bump: u8,
    percentage: u8,
) -> (r: Result<(), Error>)
    ensures
        r is Err ==> *final(ctx) == *old(ctx),
        final(ctx).referral.info == old(ctx).referral.info,
        final(ctx).dao == old(ctx).dao,
        final(ctx).owner == old(ctx).owner,
        final(ctx).authority == old(ctx).authority,
        percentage <= MAX_PERCENTAGE ==> r is Ok && final(ctx).referral.data == (Referral {
            percentage,
            ..old(ctx).referral.data
        }),
        percentage > MAX_PERCENTAGE ==> r == refused::<()>(CustomErrors::InvalidPercentage)
            && final(ctx).referral.data == old(ctx).referral.data,
{
    if !(percentage <= MAX_PERCENTAGE) {
        return Err(Error::Custom(CustomErrors::InvalidPercentage));
    }
    ctx.referral.data.percentage = percentage;
    Ok(())
}

/// A DAO given to an instruction matches when it was created with `bump` for `owner` and
/// `authority`.
pub open spec fn dao_matches(dao: Dao, bump: u8, owner: Pubkey, authority: Pubkey) -> bool {
    dao.bump == bump && dao.owner == owner && dao.authority == authority
}

/// Whether a DAO matches `bump`, `owner` and `authority`.
pub fn dao_account_matches(dao: &Dao, bump: u8, owner: Pubkey, authority: Pubkey) -> (b: bool)
    ensures
        b == dao_matches(*dao, bump, owner, authority),
{
    dao.bump == bump && dao.owner == owner && dao.authority == authority
}

impl DaoVerification {
    /// Checks the accounts of `verify_dao` and `unverify_dao`: the DAO and its referral account.
    pub fn check_constraints(&self, bump: u8, referral_bump: u8) -> (r: Result<(), Error>)
        ensures
            checked(
                r,
                dao_matches(self.dao.data, bump, self.owner.key, self.authority.key) && referral_matches(
                    self.referral.data,
                    referral_bump,
                    self.dao.info.key,
                    self.authority.key,
                ),
            ),
    {
        require_constraint(
            dao_account_matches(&self.dao.data, bump, self.owner.key, self.authority.key)
                && referral_account_matches(&self.referral.data, referral_bump, self.dao.info.key, self.authority.key),
        )
    }
}

impl ClaimDaoReferral {
    /// Checks the accounts of `claim_dao_referral`: the DAO and its referral account.
    pub fn check_constraints(&self, bump: u8, referral_bump: u8) -> (r: Result<(), Error>)
        ensures
            checked(
                r,
                dao_matches(self.dao.data, bump, self.owner.key, self.authority.key) && referral_matches(
                    self.referral.data,
                    referral_bump,
                    self.dao.info.key,
                    self.authority.key,
                ),
            ),
    {
        require_constraint(
            dao_account_matches(&self.dao.data, bump, self.owner.key, self.authority.key)
                && referral_account_matches(&self.referral.data, referral_bump, self.dao.info.key, self.authority.key),
        )
    }
}

impl ClaimDaoTokenReferral {
    /// Checks the accounts of `claim_dao_token_referral`: the DAO and its referral account.
    pub fn check_constraints(&self, bump: u8, referral_bump: u8) -> (r: Result<(), Error>)
        ensures
            checked(
                r,
                dao_matches(self.dao.data, bump, self.owner.key, self.authority.key) && referral_matches(
                    self.referral.data,
                    referral_bump,
                    self.dao.info.key,
                    self.authority.key,
                ),
            ),
    {
        require_constraint(
            dao_account_matches(&self.dao.data, bump, self.owner.key, self.authority.key)
                && referral_account_matches(&self.referral.data, referral_bump, self.dao.info.key, self.authority.key),
        )
    }
}

impl ChangePercentageOfDaoReferral {
    /// Checks the accounts of `change_percentage_of_dao_referral`: the DAO and its referral account.
    pub fn check_constraints(&self, bump: u8, referral_bump: u8) -> (r: Result<(), Error>)
        ensures
            checked(
                r,
                dao_matches(self.dao.data, bump, self.owner.key, self.authority.key) && referral_matches(
                    self.referral.data,
                    referral_bump,
                    self.dao.info.key,
                    self.authority.key,
                ),
            ),
    {
        require_constraint(
            dao_account_matches(&self.dao.data, bump, self.owner.key, self.authority.key)
                && referral_account_matches(&self.referral.data, referral_bump, self.dao.info.key, self.authority.key),
        )
    }
}

} // verus!
