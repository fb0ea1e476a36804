use vstd::prelude::*;

use crate::errors::{CustomErrors, Error, ProgramError, checked, refused, require_constraint};
use crate::fee::{Fee, fee_account_matches, fee_matches};
use crate::utils::{
    Account, AccountInfo, Cpi, Pubkey, SignerSeeds, TokenAccount, invokes, just, signed_transfer,
    transfer_invoke, transfer_invoke_signed, transfer_spl_invoke, transfer_spl_invoke_signed,
};

verus! {

/// The bank of a game: it takes the bets that are lost and pays the wins, within limits.
#[derive(Clone, Copy, Debug, PartialEq, Eq, Structural)]
pub struct House {
    pub bump: u8,
    pub authority: Pubkey,
    pub paused: bool,
    pub volume: u64,
    pub today_volume: u64,
    pub min_bet: u64,
    pub max_bet: u64,
    pub min_balls_count: u8,
    pub max_balls_count: u8,
}

impl House {
    /// Bytes that the account occupies.
    pub const LEN: usize = 8 + 1 + 32 + 1 + 8 + 8 + 8 + 8 + 1 + 1;
}

/// The smallest minimum bet, in lamports, of a house of the native currency.
pub const MIN_BET_LAMPORTS: u64 = 10_000_000;

/// The smallest minimum bet, in tokens, of a house of a token.
pub const MIN_BET_TOKENS: u64 = 1;

/// The smallest minimum number of balls of a house.
pub const MIN_BALLS_COUNT: u8 = 1;

/// The settings with which a house is created.
#[derive(Clone, Copy, Debug, PartialEq, Eq, Structural)]
pub struct InitHouseSettings {
    pub min_bet: u64,
    pub max_bet: u64,
    pub min_balls_count: u8,
    pub max_balls_count: u8,
    pub volume: Option<u64>,
}

/// A change of a house's settings; each field that is given replaces the house's.
#[derive(Clone, Copy, Debug, PartialEq, Eq, Structural)]
pub struct HouseSettings {
    pub paused: Option<bool>,
    pub min_bet: Option<u64>,
    pub max_bet: Option<u64>,
    pub min_balls_count: Option<u8>,
    pub max_balls_count: Option<u8>,
}

/// Accounts of `init_house`.
#[derive(Clone, Copy, Debug)]
pub struct InitHouse {
    pub house: Account<House>,
    pub authority: AccountInfo,
}

/// Accounts of `init_token_house`.
#[derive(Clone, Copy, Debug)]
pub struct InitTokenHouse {
    pub house: Account<House>,
    pub authority: AccountInfo,
}

/// Accounts of `deposit_house`.
#[derive(Clone, Copy, Debug)]
pub struct DepositHouse {
    pub house: Account<House>,
    pub source: AccountInfo,
    pub authority: AccountInfo,
}

/// Accounts of `deposit_token_house`.
#[derive(Clone, Copy, Debug)]
pub struct DepositTokenHouse {
    pub house_ata: Account<TokenAccount>,
    pub house: Account<House>,
    pub source_ata: Account<TokenAccount>,
    pub source: AccountInfo,
    pub authority: AccountInfo,
    pub token_program: AccountInfo,
}

/// Accounts of `withdraw_house`.
#[derive(Clone, Copy, Debug)]
pub struct WithdrawHouse {
    pub house: Account<House>,
    pub destination: AccountInfo,
    pub authority: AccountInfo,
}

/// Accounts of `withdraw_token_house`.
#[derive(Clone, Copy, Debug)]
pub struct WithdrawTokenHouse {
    pub house_ata: Account<TokenAccount>,
    pub house: Account<House>,
    pub destination_ata: Account<TokenAccount>,
    pub authority: AccountInfo,
    pub mint: AccountInfo,
    pub token_program: AccountInfo,
}

/// Accounts of `update_house`.
#[derive(Clone, Copy, Debug)]
pub struct UpdateHouse {
    pub house: Account<House>,
    pub authority: AccountInfo,
}

/// Accounts of `update_token_house`.
#[derive(Clone, Copy, Debug)]
pub struct UpdateTokenHouse {
    pub house: Account<House>,
    pub authority: AccountInfo,
}

/// Accounts of `reset_daily_stats`.
#[derive(Clone, Copy, Debug)]
pub struct ResetDailyStats {
    pub fee: Account<Fee>,
    pub house: Account<House>,
    pub authority: AccountInfo,
}

/// Accounts of `reset_token_daily_stats`.
#[derive(Clone, Copy, Debug)]
pub struct ResetTokenDailyStats {
    pub fee: Account<Fee>,
    pub house: Account<House>,
    pub authority: AccountInfo,
}

/// The check of a new house's settings: the minimum bet must reach `floor` (else
/// `too_small`), and the minimum number of balls must be at least one.
pub open spec fn init_house_refusal(settings: InitHouseSettings, floor: u64, too_small: CustomErrors) -> Option<CustomErrors> {
    if settings.min_bet < floor {
        Some(too_small)
    } else if settings.min_balls_count < MIN_BALLS_COUNT {
        Some(CustomErrors::TooSmallMinBallsCount)
    } else {
        None
    }
}

/// The house record that a successful `init_house` or `init_token_house` writes.
pub open spec fn new_house(bump: u8, settings: InitHouseSettings, authority: Pubkey) -> House {
    House {
        bump,
        authority,
        paused: false,
        volume: match settings.volume {
            Some(v) => v,
            None => 0,
        },
        today_volume: 0,
        min_bet: settings.min_bet,
        max_bet: settings.max_bet,
        min_balls_count: settings.min_balls_count,
        max_balls_count: settings.max_balls_count,
    }
}

/// The error that refuses an update of a house's settings, if any: a minimum bet below
/// `floor` is refused with `too_small`, and then a minimum number of balls of zero with
/// `TooSmallMinBallsCount`.
pub open spec fn update_house_refusal(s: HouseSettings, floor: u64, too_small: CustomErrors) -> Option<CustomErrors> {
    if s.min_bet matches Some(m) && m < floor {
        Some(too_small)
    } else if s.min_balls_count matches Some(c) && c < MIN_BALLS_COUNT {
        Some(CustomErrors::TooSmallMinBallsCount)
    } else {
        None
    }
}

/// The house that an accepted update leaves: each setting that is given replaces the
/// house's own, and the others stay.
pub open spec fn updated_house(h: House, s: HouseSettings) -> House {
    House {
        paused: match s.paused {
            Some(p) => p,
            None => h.paused,
        },
        min_bet: match s.min_bet {
            Some(m) => m,
            None => h.min_bet,
        },
        max_bet: match s.max_bet {
            Some(m) => m,
            None => h.max_bet,
        },
        min_balls_count: match s.min_balls_count {
            Some(c) => c,
            None => h.min_balls_count,
        },
        max_balls_count: match s.max_balls_count {
            Some(c) => c,
            None => h.max_balls_count,
        },
        ..h
    }
}

fn check_init_house(settings: &InitHouseSettings, floor: u64, too_small: CustomErrors) -> (r: Result<(), Error>)
    ensures
        match init_house_refusal(*settings, floor, too_small) {
            Some(e) => r == refused::<()>(e),
            None => r is Ok,
        },
{
    if !(settings.min_bet >= floor) {
        return Err(Error::Custom(too_small));
    }
    if !(settings.min_balls_count >= MIN_BALLS_COUNT) {
        return Err(Error::Custom(CustomErrors::TooSmallMinBallsCount));
    }
    Ok(())
}

fn write_new_house(house: &mut House, bump: u8, settings: &InitHouseSettings, authority: Pubkey)
    ensures
        *final(house) == new_house(bump, *settings, authority),
{
    match settings.volume {
        Some(volume) => house.volume = volume,
        None => house.volume = 0,
    }
    house.bump = bump;
    house.paused = false;
    house.today_volume = 0;
    house.min_bet = settings.min_bet;
    house.max_bet = settings.max_bet;
    house.min_balls_count = settings.min_balls_count;
    house.max_balls_count = settings.max_balls_count;
    house.authority = authority;
}

/// Creates the house of the native currency; its minimum bet must be at least
/// `MIN_BET_LAMPORTS` and its minimum number of balls at least one.
pub fn init_house(ctx: &mut InitHouse, bump: u8, settings: InitHouseSettings) -> (r: Result<(), Error>)
    ensures
        r is Err ==> *final(ctx) == *old(ctx),
        match init_house_refusal(settings, MIN_BET_LAMPORTS, CustomErrors::TooSmallMinBet) {
            Some(e) => r == refused::<()>(e) && *final(ctx) == *old(ctx),
            None => {
                &&& r is Ok
                &&& final(ctx).house.data == new_house(bump, settings, old(ctx).authority.key)
                &&& final(ctx).house.info == old(ctx).house.info
                &&& final(ctx).authority == old(ctx).authority
            },
        },
{
    check_init_house(&settings, MIN_BET_LAMPORTS, CustomErrors::TooSmallMinBet)?;
    let authority = ctx.authority.key;
    write_new_house(&mut ctx.house.data, bump, &settings, authority);
    Ok(())
}

/// Creates the house of a token; its minimum bet must be at least one token and its
/// minimum number of balls at least one.
pub fn init_token_house(ctx: &mut InitTokenHouse, bump: u8, settings: InitHouseSettings) -> (r: Result<(), Error>)
    ensures
        r is Err ==> *final(ctx) == *old(ctx),
        match init_house_refusal(settings, MIN_BET_TOKENS, CustomErrors::TooSmallMinBetToken) {
            Some(e) => r == refused::<()>(e) && *final(ctx) == *old(ctx),
            None => {
                &&& r is Ok
                &&& final(ctx).house.data == new_house(bump, settings, old(ctx).authority.key)
                &&& final(ctx).house.info == old(ctx).house.info
                &&& final(ctx).authority == old(ctx).authority
            },
        },
{
    check_init_house(&settings, MIN_BET_TOKENS, CustomErrors::TooSmallMinBetToken)?;
    let authority = ctx.authority.key;
    write_new_house(&mut ctx.house.data, bump, &settings, authority);
    Ok(())
}

/// Pays `amount` lamports from `source` into the house.
pub fn deposit_house(ctx: &DepositHouse, _bump: u8, amount: u64) -> (r: Result<Vec<Cpi>, Error>)
    ensures
        invokes(r, seq![Cpi::SystemTransfer { from: ctx.source.key, to: ctx.house.info.key, amount }]),
{
    Ok(just(transfer_invoke(&ctx.source, &ctx.house.info, amount)))
}

/// Pays `amount` tokens from the source's token account into the house's token account.
pub fn deposit_token_house(ctx: &DepositTokenHouse, _bump: u8, amount: u64) -> (r: Result<Vec<Cpi>, Error>)
    ensures
        invokes(
            r,
            seq![Cpi::TokenTransfer {
                from: ctx.source_ata.info.key,
                to: ctx.house_ata.info.key,
                amount,
                program: ctx.token_program.key,
                authority: ctx.source.key,
                seeds: None,
            }],
        ),
{
    Ok(just(transfer_spl_invoke(&ctx.source_ata.info, &ctx.house_ata.info, amount, &ctx.token_program, &ctx.source)))
}

/// Moves `amount` lamports out of the house to `destination`.
pub fn withdraw_house(ctx: &mut WithdrawHouse, _bump: u8, amount: u64) -> (r: Result<(), Error>)
    ensures
        r is Err ==> *final(ctx) == *old(ctx),
        (final(ctx).house.info, final(ctx).destination, r is Ok) == signed_transfer(
            old(ctx).house.info,
            old(ctx).destination,
            amount,
        ),
        final(ctx).house.data == old(ctx).house.data,
        final(ctx).authority == old(ctx).authority,
        r is Err ==> r == Err::<(), Error>(Error::Program(ProgramError::InvalidArgument)),
{
    match transfer_invoke_signed(&mut ctx.house.info, &mut ctx.destination, amount) {
        Ok(()) => Ok(()),
        Err(e) => Err(Error::Program(e)),
    }
}

/// Moves `amount` tokens out of the house's token account, signed by the house.
pub fn withdraw_token_house(ctx: &WithdrawTokenHouse, _bump: u8, amount: u64) -> (r: Result<Vec<Cpi>, Error>)
    ensures
        invokes(
            r,
            seq![Cpi::TokenTransfer {
                from: ctx.house_ata.info.key,
                to: ctx.destination_ata.info.key,
                amount,
                program: ctx.token_program.key,
                authority: ctx.house.info.key,
                seeds: Some(SignerSeeds::House {
                    mint: ctx.mint.key,
                    authority: ctx.authority.key,
                    bump: ctx.house.data.bump,
                }),
            }],
        ),
{
    let seeds = SignerSeeds::House { mint: ctx.mint.key, authority: ctx.authority.key, bump: ctx.house.data.bump };
    Ok(just(transfer_spl_invoke_signed(
        &ctx.house_ata.info,
        &ctx.destination_ata.info,
        amount,
        &ctx.token_program,
        &ctx.house.info,
        seeds,
    )))
}

fn check_house_settings(settings: &HouseSettings, floor: u64, too_small: CustomErrors) -> (r: Result<(), Error>)
    ensures
        match update_house_refusal(*settings, floor, too_small) {
            Some(e) => r == refused::<()>(e),
            None => r is Ok,
        },
{
    match settings.min_bet {
        Some(min_bet) => {
            if !(min_bet >= floor) {
                return Err(Error::Custom(too_small));
            }
        },
        None => {},
    }
    match settings.min_balls_count {
        Some(min_balls_count) => {
            if !(min_balls_count >= MIN_BALLS_COUNT) {
                return Err(Error::Custom(CustomErrors::TooSmallMinBallsCount));
            }
        },
        None => {},
    }
    Ok(())
}

fn write_house_settings(house: &mut House, settings: &HouseSettings)
    ensures
        *final(house) == updated_house(*old(house), *settings),
{
    match settings.paused {
        Some(paused) => house.paused = paused,
        None => {},
    }
    match settings.min_bet {
        Some(min_bet) => house.min_bet = min_bet,
        None => {},
    }
    match settings.max_bet {
        Some(max_bet) => house.max_bet = max_bet,
        None => {},
    }
    match settings.min_balls_count {
        Some(min_balls_count) => house.min_balls_count = min_balls_count,
        None => {},
    }
    match settings.max_balls_count {
        Some(max_balls_count) => house.max_balls_count = max_balls_count,
        None => {},
    }
}

/// Changes the settings of the house of the native currency (see `update_house_refusal`
/// and `updated_house`, with the floor `MIN_BET_LAMPORTS`).
pub fn update_house(ctx: &mut UpdateHouse, _bump: u8, settings: HouseSettings) -> (r: Result<(), Error>)
    ensures
        r is Err ==> *final(ctx) == *old(ctx),
        match update_house_refusal(settings, MIN_BET_LAMPORTS, CustomErrors::TooSmallMinBet) {
            Some(e) => r == refused::<()>(e) && *final(ctx) == *old(ctx),
            None => {
                &&& r is Ok
                &&& final(ctx).house.data == updated_house(old(ctx).house.data, settings)
                &&& final(ctx).house.info == old(ctx).house.info
                &&& final(ctx).authority == old(ctx).authority
            },
        },
{
    check_house_settings(&settings, MIN_BET_LAMPORTS, CustomErrors::TooSmallMinBet)?;
    write_house_settings(&mut ctx.house.data, &settings);
    Ok(())
}

/// Changes the settings of the house of a token (see `update_house_refusal`
/// and `updated_house`, with the floor `MIN_BET_TOKENS`).
pub fn update_token_house(ctx: &mut UpdateTokenHouse, _bump: u8, settings: HouseSettings) -> (r: Result<(), Error>)
    ensures
        r is Err ==> *final(ctx) == *old(ctx),
        match update_house_refusal(settings, MIN_BET_TOKENS, CustomErrors::TooSmallMinBetToken) {
            Some(e) => r == refused::<()>(e) && *final(ctx) == *old(ctx),
            None => {
                &&& r is Ok
                &&& final(ctx).house.data == updated_house(old(ctx).house.data, settings)
                &&& final(ctx).house.info == old(ctx).house.info
                &&& final(ctx).authority == old(ctx).authority
            },
        },
{
    check_house_settings(&settings, MIN_BET_TOKENS, CustomErrors::TooSmallMinBetToken)?;
    write_house_settings(&mut ctx.house.data, &settings);
    Ok(())
}

/// Starts a new day: the day's referral volume of the fee account and the day's volume
/// of the house go back to zero; nothing else changes.
pub fn reset_daily_stats(ctx: &mut ResetDailyStats, _fee_bump: u8, _house_bump: u8) -> (r: Result<(), Error>)
    ensures
        r is Err ==> *final(ctx) == *old(ctx),
        r is Ok,
        final(ctx).fee.data == (Fee { referral_today_volume: 0, ..old(ctx).fee.data }),
        final(ctx).house.data == (House { today_volume: 0, ..old(ctx).house.data }),
        final(ctx).fee.info == old(ctx).fee.info,
        final(ctx).house.info == old(ctx).house.info,
        final(ctx).authority == old(ctx).authority,
{
    ctx.fee.data.referral_today_volume = 0;
    ctx.house.data.today_volume = 0;
    Ok(())
}

/// Starts a new day for a token's fee account and house, as `reset_daily_stats` does.
pub fn reset_token_daily_stats(ctx: &mut ResetTokenDailyStats, _fee_bump: u8, _house_bump: u8) -> (r: Result<(), Error>)
    ensures
        r is Err ==> *final(ctx) == *old(ctx),
        r is Ok,
        final(ctx).fee.data == (Fee { referral_today_volume: 0, ..old(ctx).fee.data }),
        final(ctx).house.data == (House { today_volume: 0, ..old(ctx).house.data }),
        final(ctx).fee.info == old(ctx).fee.info,
        final(ctx).house.info == old(ctx).house.info,
        final(ctx).authority == old(ctx).authority,
{
    ctx.fee.data.referral_today_volume = 0;
    ctx.house.data.today_volume = 0;
    Ok(())
}

/// A house given to an instruction matches when it was created with `bump` for
/// `authority`.
pub open spec fn house_matches(house: House, bump: u8, authority: Pubkey) -> bool {
    house.bump == bump && house.authority == authority
}

/// Whether a house matches `bump` and `authority`.
pub fn house_account_matches(house: &House, bump: u8, authority: Pubkey) -> (b: bool)
    ensures
        b == house_matches(*house, bump, authority),
{
    house.bump == bump && house.authority == authority
}

impl DepositHouse {
    /// Checks the accounts of `deposit_house`.
    pub fn check_constraints(&self, bump: u8) -> (r: Result<(), Error>)
        ensures
            checked(r, house_matches(self.house.data, bump, self.authority.key)),
    {
        require_constraint(house_account_matches(&self.house.data, bump, self.authority.key))
    }
}

impl DepositTokenHouse {
    /// Checks the accounts of `deposit_token_house`.
    pub fn check_constraints(&self, bump: u8) -> (r: Result<(), Error>)
        ensures
            checked(r, house_matches(self.house.data, bump, self.authority.key)),
    {
        require_constraint(house_account_matches(&self.house.data, bump, self.authority.key))
    }
}

impl WithdrawHouse {
    /// Checks the accounts of `withdraw_house`.
    pub fn check_constraints(&self, bump: u8) -> (r: Result<(), Error>)
        ensures
            checked(r, house_matches(self.house.data, bump, self.authority.key)),
    {
        require_constraint(house_account_matches(&self.house.data, bump, self.authority.key))
    }
}

impl WithdrawTokenHouse {
    /// Checks the accounts of `withdraw_token_house`.
    pub fn check_constraints(&self, bump: u8) -> (r: Result<(), Error>)
        ensures
            checked(r, house_matches(self.house.data, bump, self.authority.key)),
    {
        require_constraint(house_account_matches(&self.house.data, bump, self.authority.key))
    }
}

impl UpdateHouse {
    /// Checks the accounts of `update_house`.
    pub fn check_constraints(&self, bump: u8) -> (r: Result<(), Error>)
        ensures
            checked(r, house_matches(self.house.data, bump, self.authority.key)),
    {
        require_constraint(house_account_matches(&self.house.data, bump, self.authority.key))
    }
}

impl UpdateTokenHouse {
    /// Checks the accounts of `update_token_house`.
    pub fn check_constraints(&self, bump: u8) -> (r: Result<(), Error>)
        ensures
            checked(r, house_matches(self.house.data, bump, self.authority.key)),
    {
        require_constraint(house_account_matches(&self.house.data, bump, self.authority.key))
    }
}

impl ResetDailyStats {
    /// Checks the accounts of `reset_daily_stats`.
    pub fn check_constraints(&self, fee_bump: u8, house_bump: u8) -> (r: Result<(), Error>)
        ensures
            checked(
                r,
                fee_matches(self.fee.data, fee_bump, self.authority.key) && house_matches(
                    self.house.data,
                    house_bump,
                    self.authority.key,
                ),
            ),
    {
        require_constraint(
            fee_account_matches(&self.fee.data, fee_bump, self.authority.key) && house_account_matches(
                &self.house.data,
                house_bump,
                self.authority.key,
            ),
        )
    }
}

impl ResetTokenDailyStats {
    /// Checks the accounts of `reset_token_daily_stats`.
    pub fn check_constraints(&self, fee_bump: u8, house_bump: u8) -> (r: Result<(), Error>)
        ensures
            checked(
                r,
                fee_matches(self.fee.data, fee_bump, self.authority.key) && house_matches(
                    self.house.data,
                    house_bump,
                    self.authority.key,
                ),
            ),
    {
        require_constraint(
            fee_account_matches(&self.fee.data, fee_bump, self.authority.key) && house_account_matches(
                &self.house.data,
                house_bump,
                self.authority.key,
            ),
        )
    }
}

} // verus!
