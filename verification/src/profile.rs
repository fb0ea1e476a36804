use vstd::prelude::*;

use crate::dao::{Dao, dao_account_matches, dao_matches};
use crate::errors::{CustomErrors, Error, checked, invalid_argument, refused, require_constraint};
use crate::referral::{
    MAX_PERCENTAGE, PROFILE_REFERRAL_PERCENTAGE, Referral, new_referral, pay_out_referral, referral_account_matches,
    referral_matches,
};
use crate::utils::{
    Account, AccountInfo, Cpi, Pubkey, SignerSeeds, TokenAccount, invokes, just, signed_transfer,
    transfer_spl_invoke_signed,
};

verus! {

/// A player's profile: who invited the player, the DAO that the player joined and the
/// number of the player's next game.
#[derive(Clone, Copy, Debug, PartialEq, Eq, Structural)]
pub struct Profile {
    pub bump: u8,
    pub authority: Pubkey,
    pub player: Pubkey,
    pub timestamp: i64,
    pub next_game_id: u64,
    pub dao: Option<Pubkey>,
    pub invitation: Option<Pubkey>,
}

impl Profile {
    /// Bytes that the account occupies.
    pub const LEN: usize = 8 + 1 + 32 + 32 + 8 + 8 + 1 + 32 + 1 + 32;
}

/// The number of a player's first game.
pub const FIRST_GAME_ID: u64 = 1;

/// The profile record that registration writes.
pub open spec fn new_profile(bump: u8, timestamp: i64, player: Pubkey, authority: Pubkey, invitation: Option<Pubkey>) -> Profile {
    Profile { bump, authority, player, timestamp, next_game_id: FIRST_GAME_ID, dao: None, invitation }
}

/// Accounts of `register`.
#[derive(Clone, Copy, Debug)]
pub struct Register {
    pub profile: Account<Profile>,
    pub referral: Account<Referral>,
    pub player: AccountInfo,
    pub authority: AccountInfo,
}

/// Accounts of `register_with_referral`; `invitation` is the referral account of the
/// one who invited the player.
#[derive(Clone, Copy, Debug)]
pub struct RegisterWithReferral {
    pub profile: Account<Profile>,
    pub referral: Account<Referral>,
    pub invitation: Account<Referral>,
    pub player: AccountInfo,
    pub invite_owner: AccountInfo,
    pub authority: AccountInfo,
}

/// Accounts of `set_profile_dao`.
#[derive(Clone, Copy, Debug)]
pub struct SetProfileDao {
    pub profile: Account<Profile>,
    pub dao: Account<Dao>,
    pub player: AccountInfo,
    pub dao_owner: AccountInfo,
    pub authority: AccountInfo,
}

/// Accounts of `remove_profile_dao`.
#[derive(Clone, Copy, Debug)]
pub struct RemoveProfileDao {
    pub profile: Account<Profile>,
    pub player: AccountInfo,
    pub authority: AccountInfo,
}

/// Accounts of `claim_profile_referral`; `referral_rent` is the balance that keeps the
/// referral account rent exempt.
#[derive(Clone, Copy, Debug)]
pub struct ClaimProfileReferral {
    pub referral: Account<Referral>,
    pub profile: Account<Profile>,
    pub player: AccountInfo,
    pub authority: AccountInfo,
    pub referral_rent: u64,
}

/// Accounts of `claim_profile_token_referral`.
#[derive(Clone, Copy, Debug)]
pub struct ClaimProfileTokenReferral {
    pub referral_ata: Account<TokenAccount>,
    pub referral: Account<Referral>,
    pub profile: Account<Profile>,
    pub player_ata: Account<TokenAccount>,
    pub player: AccountInfo,
    pub authority: AccountInfo,
    pub token_program: AccountInfo,
}

/// Accounts of `unverify_profile_referral`.
#[derive(Clone, Copy, Debug)]
pub struct UnverifyProfileReferral {
    pub referral: Account<Referral>,
    pub profile: Account<Profile>,
    pub player: AccountInfo,
    pub authority: AccountInfo,
}

/// Accounts of `change_percentage_of_profile_referral`.
#[derive(Clone, Copy, Debug)]
pub struct ChangePercentageOfProfileReferral {
    pub referral: Account<Referral>,
    pub profile: Account<Profile>,
    pub player: AccountInfo,
    pub authority: AccountInfo,
}

/// The check of a registration through an invitation: the inviting referral account must
/// be verified and must not belong to the profile being created.
pub open spec fn invitation_refusal(invitation: Referral, profile: Pubkey) -> Option<CustomErrors> {
    if !invitation.verified {
        Some(CustomErrors::ReferralNotVerified)
    } else if invitation.owner == profile {
        Some(CustomErrors::InviteOwnerAndRegistererAreSame)
    } else {
        None
    }
}

/// The check before a player joins a DAO: not the DAO already joined, and a verified one.
pub open spec fn join_dao_refusal(profile: Profile, dao: Pubkey, verified: bool) -> Option<CustomErrors> {
    if profile.dao == Some(dao) {
        Some(CustomErrors::DaoAreSame)
    } else if !verified {
        Some(CustomErrors::DaoNotVerified)
    } else {
        None
    }
}

/// The check before a player's referral account is paid out: the referral must be
/// verified and its `balance` must exceed what it keeps (`kept`, its rent-exempt balance
/// for lamports, nothing for tokens).
pub open spec fn profile_claim_refusal(referral: Referral, balance: u64, kept: u64) -> Option<CustomErrors> {
    if !referral.verified {
        Some(CustomErrors::ReferralNotVerified)
    } else if balance <= kept {
        Some(CustomErrors::ReferralAmountIsZero)
    } else {
        None
    }
}

fn check_profile_claim(referral: &Referral, balance: u64, kept: u64) -> (r: Result<(), Error>)
    ensures
        match profile_claim_refusal(*referral, balance, kept) {
            Some(e) => r == refused::<()>(e),
            None => r is Ok,
        },
{
    if !referral.verified {
        return Err(Error::Custom(CustomErrors::ReferralNotVerified));
    }
    if !(balance > kept) {
        return Err(Error::Custom(CustomErrors::ReferralAmountIsZero));
    }
    Ok(())
}

/// Registers a player who came without an invitation: a profile stamped with
/// `unix_timestamp`, whose first game is `FIRST_GAME_ID`, and a verified referral account
/// with a share of `PROFILE_REFERRAL_PERCENTAGE`.
pub fn register(ctx: &mut Register, bump: u8, referral_bump: u8, unix_timestamp: i64) -> (r: Result<(), Error>)
    ensures
        r is Err ==> *final(ctx) == *old(ctx),
        r is Ok,
        final(ctx).profile.data == new_profile(bump, unix_timestamp, old(ctx).player.key, old(ctx).authority.key, None),
        final(ctx).referral.data == new_referral(
            referral_bump,
            true,
            PROFILE_REFERRAL_PERCENTAGE,
            old(ctx).profile.info.key,
            old(ctx).authority.key,
        ),
        final(ctx).profile.info == old(ctx).profile.info,
        final(ctx).referral.info == old(ctx).referral.info,
        final(ctx).player == old(ctx).player,
        final(ctx).authority == old(ctx).authority,
{
    ctx.profile.data.bump = bump;
    ctx.profile.data.timestamp = unix_timestamp;
    ctx.profile.data.player = ctx.player.key;
    ctx.profile.data.authority = ctx.authority.key;
    ctx.profile.data.dao = None;
    ctx.profile.data.invitation = None;
    ctx.profile.data.next_game_id = FIRST_GAME_ID;

    ctx.referral.data.bump = referral_bump;
    ctx.referral.data.verified = true;
    ctx.referral.data.percentage = PROFILE_REFERRAL_PERCENTAGE;
    ctx.referral.data.owner = ctx.profile.info.key;
    ctx.referral.data.authority = ctx.authority.key;
    Ok(())
}

/// Registers a player invited through the referral account `invitation`, as `register`
/// does, with the invitation recorded in the profile.
pub fn register_with_referral(
    ctx: &mut RegisterWithReferral,
    bump: u8,
    referral_bump: u8,
    _invitation_bump: u8,
    unix_timestamp: i64,
) -> (r: Result<(), Error>)
    ensures
        r is Err ==> *final(ctx) == *old(ctx),
        final(ctx).invitation == old(ctx).invitation,
        final(ctx).invite_owner == old(ctx).invite_owner,
        final(ctx).profile.info == old(ctx).profile.info,
        final(ctx).referral.info == old(ctx).referral.info,
        final(ctx).player == old(ctx).player,
        final(ctx).authority == old(ctx).authority,
        match invitation_refusal(old(ctx).invitation.data, old(ctx).profile.info.key) {
            Some(e) => r == refused::<()>(e) && *final(ctx) == *old(ctx),
            None => {
                &&& r is Ok
                &&& final(ctx).profile.data == new_profile(
                    bump,
                    unix_timestamp,
                    old(ctx).player.key,
                    old(ctx).authority.key,
                    Some(old(ctx).invitation.info.key),
                )
                &&& final(ctx).referral.data == new_referral(
                    referral_bump,
                    true,
                    PROFILE_REFERRAL_PERCENTAGE,
                    old(ctx).profile.info.key,
                    old(ctx).authority.key,
                )
            },
        },
{
    if !ctx.invitation.data.verified {
        return Err(Error::Custom(CustomErrors::ReferralNotVerified));
    }
    if !(ctx.invitation.data.owner != ctx.profile.info.key) {
        return Err(Error::Custom(CustomErrors::InviteOwnerAndRegistererAreSame));
    }

    ctx.profile.data.bump = bump;
    ctx.profile.data.timestamp = unix_timestamp;
    ctx.profile.data.player = ctx.player.key;
    ctx.profile.data.authority = ctx.authority.key;
    ctx.profile.data.invitation = Some(ctx.invitation.info.key);
    ctx.profile.data.dao = None;
    ctx.profile.data.next_game_id = FIRST_GAME_ID;

    ctx.referral.data.bump = referral_bump;
    ctx.referral.data.verified = true;
    ctx.referral.data.percentage = PROFILE_REFERRAL_PERCENTAGE;
    ctx.referral.data.owner = ctx.profile.info.key;
    ctx.referral.data.authority = ctx.authority.key;
    Ok(())
}

/// Makes the player a member of a verified DAO other than the one already joined.
pub fn set_profile_dao(ctx: &mut SetProfileDao, _bump: u8, _dao_bump: u8) -> (r: Result<(), Error>)
    ensures
        r is Err ==> *final(ctx) == *old(ctx),
        final(ctx).dao == old(ctx).dao,
        final(ctx).player == old(ctx).player,
        final(ctx).dao_owner == old(ctx).dao_owner,
        final(ctx).authority == old(ctx).authority,
        final(ctx).profile.info == old(ctx).profile.info,
        match join_dao_refusal(old(ctx).profile.data, old(ctx).dao.info.key, old(ctx).dao.data.verified) {
            Some(e) => r == refused::<()>(e) && final(ctx).profile.data == old(ctx).profile.data,
            None => r is Ok && final(ctx).profile.data == (Profile {
                dao: Some(old(ctx).dao.info.key),
                ..old(ctx).profile.data
            }),
        },
{
    if !(ctx.profile.data.dao != Some(ctx.dao.info.key)) {
        return Err(Error::Custom(CustomErrors::DaoAreSame));
    }
    if !ctx.dao.data.verified {
        return Err(Error::Custom(CustomErrors::DaoNotVerified));
    }
    ctx.profile.data.dao = Some(ctx.dao.info.key);
    Ok(())
}

/// Takes the player out of the DAO that the player joined; refused when there is none.
pub fn remove_profile_dao(ctx: &mut RemoveProfileDao, _bump: u8) -> (r: Result<(), Error>)
    ensures
        r is Err ==> *final(ctx) == *old(ctx),
        final(ctx).profile.info == old(ctx).profile.info,
        final(ctx).player == old(ctx).player,
        final(ctx).authority == old(ctx).authority,
        old(ctx).profile.data.dao is None ==> r == refused::<()>(CustomErrors::DaoAlreadyRemoved)
            && final(ctx).profile.data == old(ctx).profile.data,
        old(ctx).profile.data.dao is Some ==> r is Ok && final(ctx).profile.data == (Profile {
            dao: None,
            ..old(ctx).profile.data
        }),
{
    if !(ctx.profile.data.dao != None::<Pubkey>) {
        return Err(Error::Custom(CustomErrors::DaoAlreadyRemoved));
    }
    ctx.profile.data.dao = None;
    Ok(())
}

/// Pays the player everything that the player's verified referral account holds above
/// the rent-exempt balance; refused with `ReferralAmountIsZero` when it holds nothing above
/// it.
pub fn claim_profile_referral(ctx: &mut ClaimProfileReferral, _bump: u8, _referral_bump: u8) -> (r: Result<(), Error>)
    ensures
        r is Err ==> *final(ctx) == *old(ctx),
        final(ctx).referral.data == old(ctx).referral.data,
        final(ctx).profile == old(ctx).profile,
        final(ctx).authority == old(ctx).authority,
        final(ctx).referral_rent == old(ctx).referral_rent,
        match profile_claim_refusal(old(ctx).referral.data, old(ctx).referral.info.lamports, old(ctx).referral_rent) {
            Some(e) => {
                &&& r == refused::<()>(e)
                &&& final(ctx).referral.info == old(ctx).referral.info
                &&& final(ctx).player == old(ctx).player
            },
            None => {
                &&& (final(ctx).referral.info, final(ctx).player, r is Ok) == signed_transfer(
                    old(ctx).referral.info,
                    old(ctx).player,
                    (old(ctx).referral.info.lamports - old(ctx).referral_rent) as u64,
                )
                &&& r is Err ==> r == invalid_argument::<()>()
            },
        },
{
    let claim_lamports = ctx.referral.info.lamports;
    let rent_lamports = ctx.referral_rent;
    check_profile_claim(&ctx.referral.data, claim_lamports, rent_lamports)?;
    pay_out_referral(&mut ctx.referral.info, &mut ctx.player, rent_lamports)
}

/// Pays the player all the tokens of the player's verified referral's token account.
pub fn claim_profile_token_referral(
    ctx: &ClaimProfileTokenReferral,
    _bump: u8,
    _referral_bump: u8,
) -> (r: Result<Vec<Cpi>, Error>)
    ensures
        match profile_claim_refusal(ctx.referral.data, ctx.referral_ata.data.amount, 0) {
            Some(e) => r == refused::<Vec<Cpi>>(e),
            None => invokes(
                r,
                seq![Cpi::TokenTransfer {
                    from: ctx.referral_ata.info.key,
                    to: ctx.player_ata.info.key,
                    amount: ctx.referral_ata.data.amount,
                    program: ctx.token_program.key,
                    authority: ctx.referral.info.key,
                    seeds: Some(SignerSeeds::Referral {
                        owner: ctx.profile.info.key,
                        authority: ctx.authority.key,
                        bump: ctx.referral.data.bump,
                    }),
                }],
            ),
        },
{
    check_profile_claim(&ctx.referral.data, ctx.referral_ata.data.amount, 0)?;
    let seeds = SignerSeeds::Referral {
        owner: ctx.profile.info.key,
        authority: ctx.authority.key,
        bump: ctx.referral.data.bump,
    };
    Ok(just(transfer_spl_invoke_signed(
        &ctx.referral_ata.info,
        &ctx.player_ata.info,
        ctx.referral_ata.data.amount,
        &ctx.token_program,
        &ctx.referral.info,
        seeds,
    )))
}

/// Withdraws the verification of a player's referral account.
pub fn unverify_profile_referral(ctx: &mut UnverifyProfileReferral, _bump: u8, _referral_bump: u8) -> (r: Result<(), Error>)
    ensures
        r is Err ==> *final(ctx) == *old(ctx),
        r is Ok,
        final(ctx).referral.data == (Referral { verified: false, ..old(ctx).referral.data }),
        final(ctx).referral.info == old(ctx).referral.info,
        final(ctx).profile == old(ctx).profile,
        final(ctx).player == old(ctx).player,
        final(ctx).authority == old(ctx).authority,
{
    ctx.referral.data.verified = false;
    Ok(())
}

/// Gives a player's referral account a new share; more than `MAX_PERCENTAGE` is refused.
pub fn change_percentage_of_profile_referral(
    ctx: &mut ChangePercentageOfProfileReferral,
    _bump: u8,
    _referral_bump: u8,
    percentage: u8,
) -> (r: Result<(), Error>)
    ensures
        r is Err ==> *final(ctx) == *old(ctx),
        final(ctx).referral.info == old(ctx).referral.info,
        final(ctx).profile == old(ctx).profile,
        final(ctx).player == old(ctx).player,
        final(ctx).authority == old(ctx).authority,
        percentage <= MAX_PERCENTAGE ==> r is Ok && final(ctx).referral.data == (Referral {
            percentage,
            ..old(ctx).referral.data
        }),
        percentage > MAX_PERCENTAGE ==> r == refused::<()>(CustomErrors::InvalidPercentage)
            && final(ctx).referral.data == old(ctx).referral.data,
{
    if !(percentage <= MAX_PERCENTAGE) {
        return Err(Error::Custom(CustomErrors::InvalidPercentage));
    }
    ctx.referral.data.percentage = percentage;
    Ok(())
}

/// A profile given to an instruction matches when it was created with `bump` for
/// `player` and `authority`.
pub open spec fn profile_matches(profile: Profile, bump: u8, player: Pubkey, authority: Pubkey) -> bool {
    profile.bump == bump && profile.player == player && profile.authority == authority
}

/// Whether a profile matches `bump`, `player` and `authority`.
pub fn profile_account_matches(profile: &Profile, bump: u8, player: Pubkey, authority: Pubkey) -> (b: bool)
    ensures
        b == profile_matches(*profile, bump, player, authority),
{
    profile.bump == bump && profile.player == player && profile.authority == authority
}

impl RegisterWithReferral {
    /// Checks the accounts of `register_with_referral`: the inviting referral account.
    pub fn check_constraints(&self, invitation_bump: u8) -> (r: Result<(), Error>)
        ensures
            checked(
                r,
                referral_matches(self.invitation.data, invitation_bump, self.invite_owner.key, self.authority.key),
            ),
    {
        require_constraint(
            referral_account_matches(&self.invitation.data, invitation_bump, self.invite_owner.key, self.authority.key),
        )
    }
}

impl SetProfileDao {
    /// Checks the accounts of `set_profile_dao`: the player's profile and the DAO.
    pub fn check_constraints(&self, bump: u8, dao_bump: u8) -> (r: Result<(), Error>)
        ensures
            checked(
                r,
                profile_matches(self.profile.data, bump, self.player.key, self.authority.key) && dao_matches(
                    self.dao.data,
                    dao_bump,
                    self.dao_owner.key,
                    self.authority.key,
                ),
            ),
    {
        require_constraint(
            profile_account_matches(&self.profile.data, bump, self.player.key, self.authority.key)
                && dao_account_matches(&self.dao.data, dao_bump, self.dao_owner.key, self.authority.key),
        )
    }
}

impl RemoveProfileDao {
    /// Checks the accounts of `remove_profile_dao`: the player's profile.
    pub fn check_constraints(&self, bump: u8) -> (r: Result<(), Error>)
        ensures
            checked(r, profile_matches(self.profile.data, bump, self.player.key, self.authority.key)),
    {
        require_constraint(profile_account_matches(&self.profile.data, bump, self.player.key, self.authority.key))
    }
}

impl ClaimProfileReferral {
    /// Checks the accounts of `claim_profile_referral`: the player's referral account and profile.
    pub fn check_constraints(&self, bump: u8, referral_bump: u8) -> (r: Result<(), Error>)
        ensures
            checked(
                r,
                referral_matches(self.referral.data, referral_bump, self.profile.info.key, self.authority.key)
                    && profile_matches(self.profile.data, bump, self.player.key, self.authority.key),
            ),
    {
        require_constraint(
            referral_account_matches(&self.referral.data, referral_bump, self.profile.info.key, self.authority.key)
                && profile_account_matches(&self.profile.data, bump, self.player.key, self.authority.key),
        )
    }
}

impl ClaimProfileTokenReferral {
    /// Checks the accounts of `claim_profile_token_referral`: the player's referral account and profile.
    pub fn check_constraints(&self, bump: u8, referral_bump: u8) -> (r: Result<(), Error>)
        ensures
            checked(
                r,
                referral_matches(self.referral.data, referral_bump, self.profile.info.key, self.authority.key)
                    && profile_matches(self.profile.data, bump, self.player.key, self.authority.key),
            ),
    {
        require_constraint(
            referral_account_matches(&self.referral.data, referral_bump, self.profile.info.key, self.authority.key)
                && profile_account_matches(&self.profile.data, bump, self.player.key, self.authority.key),
        )
    }
}

impl UnverifyProfileReferral {
    /// Checks the accounts of `unverify_profile_referral`: the player's referral account and profile.
    pub fn check_constraints(&self, bump: u8, referral_bump: u8) -> (r: Result<(), Error>)
        ensures
            checked(
                r,
                referral_matches(self.referral.data, referral_bump, self.profile.info.key, self.authority.key)
                    && profile_matches(self.profile.data, bump, self.player.key, self.authority.key),
            ),
    {
        require_constraint(
            referral_account_matches(&self.referral.data, referral_bump, self.profile.info.key, self.authority.key)
                && profile_account_matches(&self.profile.data, bump, self.player.key, self.authority.key),
        )
    }
}

impl ChangePercentageOfProfileReferral {
    /// Checks the accounts of `change_percentage_of_profile_referral`: the player's referral account and profile.
    pub fn check_constraints(&self, bump: u8, referral_bump: u8) -> (r: Result<(), Error>)
        ensures
            checked(
                r,
                referral_matches(self.referral.data, referral_bump, self.profile.info.key, self.authority.key)
                    && profile_matches(self.profile.data, bump, self.player.key, self.authority.key),
            ),
    {
        require_constraint(
            referral_account_matches(&self.referral.data, referral_bump, self.profile.info.key, self.authority.key)
                && profile_account_matches(&self.profile.data, bump, self.player.key, self.authority.key),
        )
    }
}

} // verus!
