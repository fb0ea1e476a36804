use vstd::prelude::*;

use crate::errors::{CustomErrors, Error, checked, invalid_argument, refused, require_constraint};
use crate::fee::{Fee, fee_account_matches, fee_matches};
use crate::house::{House, house_account_matches, house_matches};
use crate::profile::{Profile, profile_account_matches, profile_matches};
use crate::referral::{MAX_PERCENTAGE, Referral, referral_account_matches, referral_matches};
use crate::utils::{
    Account, AccountInfo, Cpi, Pubkey, SignerSeeds, TokenAccount, invokes, signed_transfer,
    transfer_invoke, transfer_invoke_signed, transfer_spl_invoke, transfer_spl_invoke_signed,
};

verus! {

/// One game of plinko: the bet, the board chosen, and once revealed, the payout.
#[derive(Clone, Copy, Debug, PartialEq, Eq, Structural)]
pub struct Plinko {
    pub bump: u8,
    pub id: u64,
    pub authority: Pubkey,
    pub player: Pubkey,
    pub row: Option<u8>,
    pub risk: Option<u8>,
    pub degen_mode: bool,
    pub balls_count: u8,
    pub bet_amount: u64,
    pub payout: u64,
    pub timestamp: i64,
    pub revealed: bool,
    pub paid_out: bool,
    pub dao: Option<Pubkey>,
    pub referral: Option<Pubkey>,
}

impl Plinko {
    /// Bytes that the account occupies.
    pub const LEN: usize = 8 + 1 + 8 + 32 + 32 + 2 + 2 + 1 + 1 + 8 + 8 + 8 + 1 + 1 + 1 + 32 + 1 + 32;
}

/// The game that a player asks for: the board (rows and risk, or neither in degen mode),
/// the number of balls and the bet per ball.
#[derive(Clone, Copy, Debug, PartialEq, Eq, Structural)]
pub struct InitPlinkoSettings {
    pub row: Option<u8>,
    pub risk: Option<u8>,
    pub degen_mode: bool,
    pub balls_count: u8,
    pub bet_amount: u64,
}

/// The fees of a game, per mille of the bet: all of them, the holders' share, the team's.
pub const FEE_PER_MILLE: u64 = 35;
pub const HOLDERS_FEE_PER_MILLE: u64 = 30;
pub const TEAM_FEE_PER_MILLE: u64 = 5;

/// What a player pays the authority for each game.
pub const TRANSACTION_FEE: u64 = 10000;

/// The smallest and largest number of rows of a board, and the largest risk.
pub const MIN_ROWS: u8 = 8;
pub const MAX_ROWS: u8 = 16;
pub const MAX_RISK: u8 = 2;

/// The largest payout, in tenths of what the house holds beyond its rent-exempt balance.
pub const MAX_WIN_TENTHS: u64 = 3;

/// A game's total bet: the bet per ball times the number of balls.
pub open spec fn bet_lamports(bet_amount: u64, balls_count: u8) -> int {
    bet_amount * balls_count
}

/// The fee that a player pays on a total bet.
pub open spec fn fee_lamports(bet: int) -> int {
    (bet * FEE_PER_MILLE) / 1000
}

/// The largest payout that a house with `spare` lamports or tokens beyond its rent may pay.
pub open spec fn max_win(spare: int) -> int {
    (spare * MAX_WIN_TENTHS) / 10
}

/// The payout asked for, capped at `max`.
pub open spec fn capped_payout(payout: u64, max: int) -> int {
    if payout <= max {
        payout as int
    } else {
        max
    }
}

/// The checks of a new game that come before its total bet is reckoned: the shape of the
/// board (in degen mode neither rows nor risk, else both), the house open, the bet per ball
/// and the number of balls within the house's limits.
pub open spec fn bet_refusal(settings: InitPlinkoSettings, house: House) -> Option<CustomErrors> {
    if settings.degen_mode && !(settings.row is None && settings.risk is None) {
        Some(CustomErrors::InvalidInitPlinkoSettings)
    } else if !settings.degen_mode && !(settings.row is Some && settings.risk is Some) {
        Some(CustomErrors::InvalidInitPlinkoSettings)
    } else if house.paused {
        Some(CustomErrors::GameIsPaused)
    } else if !(house.min_bet <= settings.bet_amount <= house.max_bet) {
        Some(CustomErrors::InvalidBetAmount)
    } else if !(house.min_balls_count <= settings.balls_count <= house.max_balls_count) {
        Some(CustomErrors::InvalidBallsCount)
    } else {
        None
    }
}

fn check_bet(settings: &InitPlinkoSettings, house: &House) -> (o: Option<CustomErrors>)
    ensures
        o == bet_refusal(*settings, *house),
{
    if settings.degen_mode && !(settings.row.is_none() && settings.risk.is_none()) {
        Some(CustomErrors::InvalidInitPlinkoSettings)
    } else if !settings.degen_mode && !(settings.row.is_some() && settings.risk.is_some()) {
        Some(CustomErrors::InvalidInitPlinkoSettings)
    } else if house.paused {
        Some(CustomErrors::GameIsPaused)
    } else if !(house.min_bet <= settings.bet_amount && settings.bet_amount <= house.max_bet) {
        Some(CustomErrors::InvalidBetAmount)
    } else if !(house.min_balls_count <= settings.balls_count && settings.balls_count <= house.max_balls_count) {
        Some(CustomErrors::InvalidBallsCount)
    } else {
        None
    }
}

/// The check of a new game against the house: a board in degen mode has neither rows nor
/// risk, any other both; the house must be open; the bet per ball and the number of balls
/// must lie within the house's limits; the house must hold more than the total bet
/// (`spare`); the rows must lie between `MIN_ROWS` and `MAX_ROWS`, the risk at most
/// `MAX_RISK`.
pub open spec fn init_plinko_refusal(settings: InitPlinkoSettings, house: House, spare: int) -> Option<CustomErrors> {
    if bet_refusal(settings, house) is Some {
        bet_refusal(settings, house)
    } else if !(spare > bet_lamports(settings.bet_amount, settings.balls_count)) {
        Some(CustomErrors::InsufficientFundsInHouse)
    } else if settings.row matches Some(r) && !(MIN_ROWS <= r <= MAX_ROWS) {
        Some(CustomErrors::InvalidRows)
    } else if settings.risk matches Some(k) && !(k <= MAX_RISK) {
        Some(CustomErrors::InvalidRisk)
    } else {
        None
    }
}

/// The game record that a successful `init_plinko` or `init_token_plinko` writes.
pub open spec fn new_plinko(
    bump: u8,
    id: u64,
    settings: InitPlinkoSettings,
    authority: Pubkey,
    player: Pubkey,
    timestamp: i64,
) -> Plinko {
    Plinko {
        bump,
        id,
        authority,
        player,
        row: settings.row,
        risk: settings.risk,
        degen_mode: settings.degen_mode,
        balls_count: settings.balls_count,
        bet_amount: settings.bet_amount,
        payout: 0,
        timestamp,
        revealed: false,
        paid_out: false,
        dao: None,
        referral: None,
    }
}

/// The arithmetic of a start that does not overflow: once the bet per ball and the number
/// of balls are accepted, the total bet and its fee; once every check passes, the next
/// game's number and the sum that the player pays in.
pub open spec fn init_plinko_in_range(settings: InitPlinkoSettings, house: House, spare: int, profile: Profile) -> bool {
    let bet = bet_lamports(settings.bet_amount, settings.balls_count);
    &&& bet_refusal(settings, house) is None ==> bet * FEE_PER_MILLE <= u64::MAX
    &&& init_plinko_refusal(settings, house, spare) is None ==> {
        &&& profile.next_game_id < u64::MAX
        &&& bet + fee_lamports(bet) <= u64::MAX
    }
}

/// Checks a new game and, when it is accepted, writes the game's record and counts the
/// player's game; returns the total bet and its fee.
fn start_game(
    plinko: &mut Plinko,
    profile: &mut Profile,
    house: &House,
    spare: u64,
    bump: u8,
    settings: &InitPlinkoSettings,
    authority: Pubkey,
    player: Pubkey,
    unix_timestamp: i64,
) -> (r: Result<(u64, u64), Error>)
    requires
        init_plinko_in_range(*settings, *house, spare as int, *old(profile)),
    ensures
        match init_plinko_refusal(*settings, *house, spare as int) {
            Some(e) => {
                &&& r == refused::<(u64, u64)>(e)
                &&& *final(plinko) == *old(plinko)
                &&& *final(profile) == *old(profile)
            },
            None => {
                &&& r == Ok::<(u64, u64), Error>((
                    bet_lamports(settings.bet_amount, settings.balls_count) as u64,
                    fee_lamports(bet_lamports(settings.bet_amount, settings.balls_count)) as u64,
                ))
                &&& *final(plinko) == new_plinko(bump, old(profile).next_game_id, *settings, authority, player, unix_timestamp)
                &&& *final(profile) == (Profile { next_game_id: (old(profile).next_game_id + 1) as u64, ..*old(profile) })
            },
        },
{
    match check_bet(settings, house) {
        Some(e) => {
            return Err(Error::Custom(e));
        },
        None => {},
    }
    assert(bet_lamports(settings.bet_amount, settings.balls_count) * FEE_PER_MILLE <= u64::MAX);
    assert(bet_lamports(settings.bet_amount, settings.balls_count) <= u64::MAX);
    let bet = settings.bet_amount * (settings.balls_count as u64);
    let fee = (bet * FEE_PER_MILLE) / 1000;

    if !(spare > bet) {
        return Err(Error::Custom(CustomErrors::InsufficientFundsInHouse));
    }

    match settings.row {
        Some(row) => {
            if !(row >= MIN_ROWS && row <= MAX_ROWS) {
                return Err(Error::Custom(CustomErrors::InvalidRows));
            }
        },
        None => {},
    }
    match settings.risk {
        Some(risk) => {
            if !(risk == 0 || risk == 1 || risk == 2) {
                return Err(Error::Custom(CustomErrors::InvalidRisk));
            }
        },
        None => {},
    }

    plinko.row = settings.row;
    plinko.risk = settings.risk;

    plinko.bump = bump;
    plinko.id = profile.next_game_id;
    plinko.degen_mode = settings.degen_mode;
    plinko.balls_count = settings.balls_count;
    plinko.bet_amount = settings.bet_amount;
    plinko.payout = 0;
    plinko.timestamp = unix_timestamp;
    plinko.revealed = false;
    plinko.paid_out = false;
    plinko.dao = None;
    plinko.referral = None;
    plinko.authority = authority;
    plinko.player = player;

    profile.next_game_id = profile.next_game_id + 1;
    Ok((bet, fee))
}

/// Accounts of `init_plinko`; `house_rent` is the balance that keeps the house rent exempt.
#[derive(Clone, Copy, Debug)]
pub struct InitPlinko {
    pub plinko: Account<Plinko>,
    pub house: Account<House>,
    pub profile: Account<Profile>,
    pub player: AccountInfo,
    pub authority: AccountInfo,
    pub house_rent: u64,
}

/// Accounts of `init_token_plinko`.
#[derive(Clone, Copy, Debug)]
pub struct InitTokenPlinko {
    pub plinko_ata: Account<TokenAccount>,
    pub plinko: Account<Plinko>,
    pub house_ata: Account<TokenAccount>,
    pub house: Account<House>,
    pub profile: Account<Profile>,
    pub player_ata: Account<TokenAccount>,
    pub player: AccountInfo,
    pub authority: AccountInfo,
    pub token_program: AccountInfo,
}

/// Starts a game in the native currency: checks it against the house (see
/// `init_plinko_refusal`, with what the house holds beyond its rent), records it under
/// the player's next game number, and asks the system program to move the total bet and
/// its fee from the player into the game's account, then `TRANSACTION_FEE` to the
/// authority.
pub fn init_plinko(
    ctx: &mut InitPlinko,
    bump: u8,
    _house_bump: u8,
    _profile_bump: u8,
    settings: InitPlinkoSettings,
    unix_timestamp: i64,
) -> (r: Result<Vec<Cpi>, Error>)
    requires
        old(ctx).house.info.lamports >= old(ctx).house_rent,
        init_plinko_in_range(
            settings,
            old(ctx).house.data,
            old(ctx).house.info.lamports - old(ctx).house_rent,
            old(ctx).profile.data,
        ),
    ensures
        r is Err ==> *final(ctx) == *old(ctx),
        final(ctx).house == old(ctx).house,
        final(ctx).house_rent == old(ctx).house_rent,
        final(ctx).player == old(ctx).player,
        final(ctx).authority == old(ctx).authority,
        final(ctx).plinko.info == old(ctx).plinko.info,
        final(ctx).profile.info == old(ctx).profile.info,
        match init_plinko_refusal(settings, old(ctx).house.data, old(ctx).house.info.lamports - old(ctx).house_rent) {
            Some(e) => {
                &&& r == refused::<Vec<Cpi>>(e)
                &&& *final(ctx) == *old(ctx)
            },
            None => {
                let bet = bet_lamports(settings.bet_amount, settings.balls_count);
                &&& final(ctx).plinko.data == new_plinko(
                    bump,
                    old(ctx).profile.data.next_game_id,
                    settings,
                    old(ctx).authority.key,
                    old(ctx).player.key,
                    unix_timestamp,
                )
                &&& final(ctx).profile.data == (Profile {
                    next_game_id: (old(ctx).profile.data.next_game_id + 1) as u64,
                    ..old(ctx).profile.data
                })
                &&& invokes(
                    r,
                    seq![
                        Cpi::SystemTransfer {
                            from: old(ctx).player.key,
                            to: old(ctx).plinko.info.key,
                            amount: (bet + fee_lamports(bet)) as u64,
                        },
                        Cpi::SystemTransfer {
                            from: old(ctx).player.key,
                            to: old(ctx).authority.key,
                            amount: TRANSACTION_FEE,
                        },
                    ],
                )
            },
        },
{
    let spare = ctx.house.info.lamports - ctx.house_rent;
    let authority = ctx.authority.key;
    let player = ctx.player.key;
    let (bet, fee) = start_game(
        &mut ctx.plinko.data,
        &mut ctx.profile.data,
        &ctx.house.data,
        spare,
        bump,
        &settings,
        authority,
        player,
        unix_timestamp,
    )?;
    let mut v: Vec<Cpi> = Vec::new();
    v.push(transfer_invoke(&ctx.player, &ctx.plinko.info, bet + fee));
    v.push(transfer_invoke(&ctx.player, &ctx.authority, TRANSACTION_FEE));
    assert(v@ =~= seq![v@[0], v@[1]]);
    Ok(v)
}

/// Starts a game in a token, as `init_plinko` does, against what the house's token
/// account holds: asks the token program to move the total bet and its fee from the
/// player's token account into the game's, then the system program to move
/// `TRANSACTION_FEE` lamports from the player to the authority.
pub fn init_token_plinko(
    ctx: &mut InitTokenPlinko,
    bump: u8,
    _house_bump: u8,
    _profile_bump: u8,
    settings: InitPlinkoSettings,
    unix_timestamp: i64,
) -> (r: Result<Vec<Cpi>, Error>)
    requires
        init_plinko_in_range(
            settings,
            old(ctx).house.data,
            old(ctx).house_ata.data.amount as int,
            old(ctx).profile.data,
        ),
    ensures
        r is Err ==> *final(ctx) == *old(ctx),
        final(ctx).house == old(ctx).house,
        final(ctx).house_ata == old(ctx).house_ata,
        final(ctx).plinko_ata == old(ctx).plinko_ata,
        final(ctx).player_ata == old(ctx).player_ata,
        final(ctx).player == old(ctx).player,
        final(ctx).authority == old(ctx).authority,
        final(ctx).token_program == old(ctx).token_program,
        final(ctx).plinko.info == old(ctx).plinko.info,
        final(ctx).profile.info == old(ctx).profile.info,
        match init_plinko_refusal(settings, old(ctx).house.data, old(ctx).house_ata.data.amount as int) {
            Some(e) => {
                &&& r == refused::<Vec<Cpi>>(e)
                &&& *final(ctx) == *old(ctx)
            },
            None => {
                let bet = bet_lamports(settings.bet_amount, settings.balls_count);
                &&& final(ctx).plinko.data == new_plinko(
                    bump,
                    old(ctx).profile.data.next_game_id,
                    settings,
                    old(ctx).authority.key,
                    old(ctx).player.key,
                    unix_timestamp,
                )
                &&& final(ctx).profile.data == (Profile {
                    next_game_id: (old(ctx).profile.data.next_game_id + 1) as u64,
                    ..old(ctx).profile.data
                })
                &&& invokes(
                    r,
                    seq![
                        Cpi::TokenTransfer {
                            from: old(ctx).player_ata.info.key,
                            to: old(ctx).plinko_ata.info.key,
                            amount: (bet + fee_lamports(bet)) as u64,
                            program: old(ctx).token_program.key,
                            authority: old(ctx).player.key,
                            seeds: None,
                        },
                        Cpi::SystemTransfer {
                            from: old(ctx).player.key,
                            to: old(ctx).authority.key,
                            amount: TRANSACTION_FEE,
                        },
                    ],
                )
            },
        },
{
    let spare = ctx.house_ata.data.amount;
    let authority = ctx.authority.key;
    let player = ctx.player.key;
    let (bet, fee) = start_game(
        &mut ctx.plinko.data,
        &mut ctx.profile.data,
        &ctx.house.data,
        spare,
        bump,
        &settings,
        authority,
        player,
        unix_timestamp,
    )?;
    let mut v: Vec<Cpi> = Vec::new();
    v.push(transfer_spl_invoke(&ctx.player_ata.info, &ctx.plinko_ata.info, bet + fee, &ctx.token_program, &ctx.player));
    v.push(transfer_invoke(&ctx.player, &ctx.authority, TRANSACTION_FEE));
    assert(v@ =~= seq![v@[0], v@[1]]);
    Ok(v)
}

} // verus!

verus! {

/// The check before a game is revealed: not revealed yet, and a player who came with an
/// invitation exactly when the game shares its fee with a referral (`with_referral`).
pub open spec fn reveal_refusal(plinko: Plinko, profile: Profile, with_referral: bool) -> Option<CustomErrors> {
    if plinko.revealed {
        Some(CustomErrors::GameIsRevealed)
    } else if !with_referral && profile.invitation is Some {
        Some(CustomErrors::ProfileHasInvite)
    } else if with_referral && profile.invitation is None {
        Some(CustomErrors::ProfileHasNotInvite)
    } else {
        None
    }
}

/// A game's total bet.
pub open spec fn game_bet(p: Plinko) -> int {
    bet_lamports(p.bet_amount, p.balls_count)
}

/// The part of a game's fee that goes to the referral account: its percentage, when it
/// is verified, else nothing.
pub open spec fn referral_share(fee: int, referral: Referral) -> int {
    if referral.verified {
        (fee * referral.percentage) / 100
    } else {
        0
    }
}

/// The part of a game's fee that stays with the program: the rest of the percentages
/// when the referral is verified, else all of it.
pub open spec fn program_share(fee: int, referral: Referral) -> int {
    if referral.verified {
        (fee * (100 - referral.percentage)) / 100
    } else {
        fee
    }
}

/// The holders' part of the program's share of a fee.
pub open spec fn holders_share(share: int) -> int {
    (share * HOLDERS_FEE_PER_MILLE) / (FEE_PER_MILLE as int)
}

/// The team's part of the program's share of a fee.
pub open spec fn team_share(share: int) -> int {
    (share * TEAM_FEE_PER_MILLE) / (FEE_PER_MILLE as int)
}

/// The game's record once revealed: the payout, the player's DAO, and the referral
/// account that shared the fee, if any.
pub open spec fn revealed_plinko(p: Plinko, won: int, dao: Option<Pubkey>, referral: Option<Pubkey>) -> Plinko {
    Plinko { payout: won as u64, dao, revealed: true, referral, ..p }
}

/// The house once a game of total bet `bet` is counted in its volumes.
pub open spec fn house_counting(h: House, bet: int) -> House {
    House { volume: (h.volume + bet) as u64, today_volume: (h.today_volume + bet) as u64, ..h }
}

/// The fee account once the holders' part and the referral's part of a game are counted.
pub open spec fn fee_counting(f: Fee, holders: int, shared: int) -> Fee {
    Fee {
        volume: (f.volume + holders) as u64,
        referral_volume: (f.referral_volume + shared) as u64,
        referral_today_volume: (f.referral_today_volume + shared) as u64,
        ..f
    }
}

/// The game's and the house's balances after a game is settled: the house takes what
/// the player lost, or pays what the player won beyond the bet.
pub open spec fn settle_payout(plinko: AccountInfo, house: AccountInfo, bet: int, won: int) -> (AccountInfo, AccountInfo, bool) {
    if bet > won {
        signed_transfer(plinko, house, (bet - won) as u64)
    } else if bet < won {
        let t = signed_transfer(house, plinko, (won - bet) as u64);
        (t.1, t.0, t.2)
    } else {
        (plinko, house, true)
    }
}

/// The balances of the game, the house, the fee account, the referral account and the
/// authority after a game in the native currency is settled, and whether every move
/// succeeded: the payout, then the holders' part to the fee account, then the referral's
/// part when there is one, then the team's part to the authority. When any move fails,
/// the settlement fails as a whole and every balance stays as it was.
pub open spec fn settlement(
    plinko: AccountInfo,
    house: AccountInfo,
    fee: AccountInfo,
    referral: AccountInfo,
    authority: AccountInfo,
    bet: int,
    won: int,
    holders: int,
    shared: int,
    team: int,
) -> (AccountInfo, AccountInfo, AccountInfo, AccountInfo, AccountInfo, bool) {
    let s1 = settle_payout(plinko, house, bet, won);
    let s2 = signed_transfer(s1.0, fee, holders as u64);
    let s3 = if shared > 0 {
        signed_transfer(s2.0, referral, shared as u64)
    } else {
        (s2.0, referral, true)
    };
    let s4 = signed_transfer(s3.0, authority, team as u64);
    if s1.2 && s2.2 && s3.2 && s4.2 {
        (s4.0, s1.1, s2.1, s3.1, s4.1, true)
    } else {
        (plinko, house, fee, referral, authority, false)
    }
}

/// The part of a game's fee that stays with the program; `referral` is the referral
/// account that the game shares its fee with, if any.
pub open spec fn game_share(bet: int, referral: Option<Referral>) -> int {
    match referral {
        Some(rf) => program_share(fee_lamports(bet), rf),
        None => fee_lamports(bet),
    }
}

/// The part of a game's fee that goes to its referral account.
pub open spec fn game_shared(bet: int, referral: Option<Referral>) -> int {
    match referral {
        Some(rf) => referral_share(fee_lamports(bet), rf),
        None => 0,
    }
}

/// The holders' part of a game: `HOLDERS_FEE_PER_MILLE` of the bet, or when the game
/// shares its fee, that part of the program's share.
pub open spec fn game_holders(bet: int, referral: Option<Referral>) -> int {
    match referral {
        Some(_) => holders_share(game_share(bet, referral)),
        None => (bet * HOLDERS_FEE_PER_MILLE) / 1000,
    }
}

/// The team's part of a game, reckoned as the holders' part is.
pub open spec fn game_team(bet: int, referral: Option<Referral>) -> int {
    match referral {
        Some(_) => team_share(game_share(bet, referral)),
        None => (bet * TEAM_FEE_PER_MILLE) / 1000,
    }
}

/// The referral account that a revealed game records: the player's invitation when the
/// game shares its fee with a verified referral account, else what it recorded before.
pub open spec fn game_referral(p: Plinko, profile: Profile, referral: Option<Referral>) -> Option<Pubkey> {
    match referral {
        Some(rf) => if rf.verified { profile.invitation } else { p.referral },
        None => p.referral,
    }
}

/// The arithmetic of a reveal that does not overflow, for a house that holds `spare`
/// beyond its rent: the total bet, its fee and its parts, the cap of the payout, and the
/// volumes.
pub open spec fn reveal_in_range(p: Plinko, house: House, fee: Fee, referral: Option<Referral>, spare: int) -> bool {
    let bet = game_bet(p);
    &&& match referral {
        Some(rf) => {
            &&& bet * FEE_PER_MILLE <= u64::MAX
            &&& rf.verified ==> {
                &&& rf.percentage <= MAX_PERCENTAGE
                &&& fee_lamports(bet) * (100 - rf.percentage) <= u64::MAX
                &&& fee_lamports(bet) * rf.percentage <= u64::MAX
            }
            &&& game_share(bet, referral) * HOLDERS_FEE_PER_MILLE <= u64::MAX
        },
        None => bet * HOLDERS_FEE_PER_MILLE <= u64::MAX,
    }
    &&& spare * MAX_WIN_TENTHS <= u64::MAX
    &&& house.volume + bet <= u64::MAX
    &&& house.today_volume + bet <= u64::MAX
    &&& fee.volume + game_holders(bet, referral) <= u64::MAX
    &&& fee.referral_today_volume + game_shared(bet, referral) <= u64::MAX
    &&& fee.referral_volume + game_shared(bet, referral) <= u64::MAX
}

fn move_lamports(from: &mut AccountInfo, to: &mut AccountInfo, amount: u64) -> (r: Result<(), Error>)
    ensures
        (*final(from), *final(to), r is Ok) == signed_transfer(*old(from), *old(to), amount),
        r is Err ==> r == invalid_argument::<()>(),
{
    match transfer_invoke_signed(from, to, amount) {
        Ok(()) => Ok(()),
        Err(e) => Err(Error::Program(e)),
    }
}

fn pay_game(plinko: &mut AccountInfo, house: &mut AccountInfo, bet: u64, won: u64) -> (r: Result<(), Error>)
    ensures
        (*final(plinko), *final(house), r is Ok) == settle_payout(*old(plinko), *old(house), bet as int, won as int),
        r is Err ==> r == invalid_argument::<()>(),
{
    if bet > won {
        move_lamports(plinko, house, bet - won)
    } else if bet < won {
        move_lamports(house, plinko, won - bet)
    } else {
        Ok(())
    }
}

/// The amounts of a reveal: total bet, payout, holders' part, referral's part, team's part.
pub struct RevealAmounts {
    pub bet: u64,
    pub won: u64,
    pub holders: u64,
    pub shared: u64,
    pub team: u64,
}

/// The payout of a reveal: the one asked for, capped at `max_win` of the house's spare.
pub open spec fn game_won(payout: u64, spare: int) -> int {
    capped_payout(payout, max_win(spare))
}

/// Works out the amounts of a reveal and writes them into the game's, the house's and the
/// fee account's records.
fn record_reveal(
    plinko: &mut Plinko,
    house: &mut House,
    fee: &mut Fee,
    profile: &Profile,
    referral: Option<Referral>,
    spare: u64,
    payout: u64,
) -> (a: RevealAmounts)
    requires
        game_bet(*old(plinko)) <= u64::MAX,
        reveal_in_range(*old(plinko), *old(house), *old(fee), referral, spare as int),
    ensures
        a.bet == game_bet(*old(plinko)),
        a.won == game_won(payout, spare as int),
        a.holders == game_holders(a.bet as int, referral),
        a.shared == game_shared(a.bet as int, referral),
        a.team == game_team(a.bet as int, referral),
        *final(plinko) == revealed_plinko(
            *old(plinko),
            a.won as int,
            profile.dao,
            game_referral(*old(plinko), *profile, referral),
        ),
        *final(house) == house_counting(*old(house), a.bet as int),
        *final(fee) == fee_counting(*old(fee), a.holders as int, a.shared as int),
{
    let bet = plinko.bet_amount * (plinko.balls_count as u64);
    let mut shared: u64 = 0;
    let holders: u64;
    let team: u64;
    match referral {
        Some(rf) => {
            let fee_lamports = (bet * FEE_PER_MILLE) / 1000;
            let mut share: u64 = fee_lamports;
            if rf.verified {
                plinko.referral = profile.invitation;
                share = (fee_lamports * (100 - (rf.percentage as u64))) / 100;
                shared = (fee_lamports * (rf.percentage as u64)) / 100;
            }
            holders = (share * HOLDERS_FEE_PER_MILLE) / FEE_PER_MILLE;
            team = (share * TEAM_FEE_PER_MILLE) / FEE_PER_MILLE;
        },
        None => {
            holders = (bet * HOLDERS_FEE_PER_MILLE) / 1000;
            team = (bet * TEAM_FEE_PER_MILLE) / 1000;
        },
    }
    let max_win = (spare * MAX_WIN_TENTHS) / 10;
    let won = if payout <= max_win { payout } else { max_win };

    plinko.payout = won;
    plinko.dao = profile.dao;
    plinko.revealed = true;

    house.volume = house.volume + bet;
    house.today_volume = house.today_volume + bet;
    fee.volume = fee.volume + holders;
    if referral.is_some() {
        fee.referral_today_volume = fee.referral_today_volume + shared;
        fee.referral_volume = fee.referral_volume + shared;
    }
    RevealAmounts { bet, won, holders, shared, team }
}

} // verus!

verus! {

/// Accounts of `reveal_plinko`; `house_rent` is the balance that keeps the house rent exempt.
#[derive(Clone, Copy, Debug)]
pub struct RevealPlinko {
    pub plinko: Account<Plinko>,
    pub fee: Account<Fee>,
    pub house: Account<House>,
    pub profile: Account<Profile>,
    pub player: AccountInfo,
    pub authority: AccountInfo,
    pub house_rent: u64,
}

/// Accounts of `reveal_plinko_with_referral`.
#[derive(Clone, Copy, Debug)]
pub struct RevealPlinkoWithReferral {
    pub plinko: Account<Plinko>,
    pub fee: Account<Fee>,
    pub house: Account<House>,
    pub referral: Account<Referral>,
    pub referral_owner: AccountInfo,
    pub profile: Account<Profile>,
    pub player: AccountInfo,
    pub authority: AccountInfo,
    pub house_rent: u64,
}

/// Accounts of `reveal_token_plinko`.
#[derive(Clone, Copy, Debug)]
pub struct RevealTokenPlinko {
    pub plinko_ata: Account<TokenAccount>,
    pub plinko: Account<Plinko>,
    pub fee_ata: Account<TokenAccount>,
    pub fee: Account<Fee>,
    pub house_ata: Account<TokenAccount>,
    pub house: Account<House>,
    pub profile: Account<Profile>,
    pub player: AccountInfo,
    pub authority_ata: Account<TokenAccount>,
    pub authority: AccountInfo,
    pub mint: AccountInfo,
    pub token_program: AccountInfo,
}

/// Accounts of `reveal_token_plinko_with_referral`.
#[derive(Clone, Copy, Debug)]
pub struct RevealTokenPlinkoWithReferral {
    pub plinko_ata: Account<TokenAccount>,
    pub plinko: Account<Plinko>,
    pub fee_ata: Account<TokenAccount>,
    pub fee: Account<Fee>,
    pub house_ata: Account<TokenAccount>,
    pub house: Account<House>,
    pub referral_ata: Account<TokenAccount>,
    pub referral: Account<Referral>,
    pub referral_owner: AccountInfo,
    pub profile: Account<Profile>,
    pub player: AccountInfo,
    pub authority_ata: Account<TokenAccount>,
    pub authority: AccountInfo,
    pub mint: AccountInfo,
    pub token_program: AccountInfo,
}

/// Accounts of `claim_plinko`; `plinko_rent` is the balance that keeps the game's account
/// rent exempt.
#[derive(Clone, Copy, Debug)]
pub struct ClaimPlinko {
    pub plinko: Account<Plinko>,
    pub player: AccountInfo,
    pub authority: AccountInfo,
    pub plinko_rent: u64,
}

/// Accounts of `claim_token_plinko`.
#[derive(Clone, Copy, Debug)]
pub struct ClaimTokenPlinko {
    pub plinko_ata: Account<TokenAccount>,
    pub plinko: Account<Plinko>,
    pub player_ata: Account<TokenAccount>,
    pub player: AccountInfo,
    pub authority: AccountInfo,
    pub mint: AccountInfo,
    pub token_program: AccountInfo,
}

/// The seeds by which a game in a token signs.
pub open spec fn game_seeds(player: Pubkey, mint: Pubkey, authority: Pubkey, id: u64, bump: u8) -> SignerSeeds {
    SignerSeeds::Plinko { player, mint, authority, id, bump }
}

/// A move of tokens between this program's token accounts, signed by one of its accounts.
pub open spec fn token_move(from: Pubkey, to: Pubkey, amount: int, program: Pubkey, authority: Pubkey, seeds: SignerSeeds) -> Cpi {
    Cpi::TokenTransfer { from, to, amount: amount as u64, program, authority, seeds: Some(seeds) }
}

/// The token moves that settle the payout of a game in a token: the house's token account
/// takes what the player lost, or pays what the player won beyond the bet, or nothing
/// moves when they are equal.
pub open spec fn token_payout_moves(
    plinko_ata: Pubkey,
    house_ata: Pubkey,
    program: Pubkey,
    plinko: Pubkey,
    house: Pubkey,
    plinko_seeds: SignerSeeds,
    house_seeds: SignerSeeds,
    bet: int,
    won: int,
) -> Seq<Cpi> {
    if bet > won {
        seq![token_move(plinko_ata, house_ata, bet - won, program, plinko, plinko_seeds)]
    } else if bet < won {
        seq![token_move(house_ata, plinko_ata, won - bet, program, house, house_seeds)]
    } else {
        seq![]
    }
}

fn token_payout(
    plinko_ata: &AccountInfo,
    house_ata: &AccountInfo,
    program: &AccountInfo,
    plinko: &AccountInfo,
    house: &AccountInfo,
    plinko_seeds: SignerSeeds,
    house_seeds: SignerSeeds,
    bet: u64,
    won: u64,
) -> (v: Vec<Cpi>)
    ensures
        v@ == token_payout_moves(
            plinko_ata.key,
            house_ata.key,
            program.key,
            plinko.key,
            house.key,
            plinko_seeds,
            house_seeds,
            bet as int,
            won as int,
        ),
{
    let mut v: Vec<Cpi> = Vec::new();
    if bet > won {
        v.push(transfer_spl_invoke_signed(plinko_ata, house_ata, bet - won, program, plinko, plinko_seeds));
        assert(v@ =~= seq![v@[0]]);
    } else if bet < won {
        v.push(transfer_spl_invoke_signed(house_ata, plinko_ata, won - bet, program, house, house_seeds));
        assert(v@ =~= seq![v@[0]]);
    } else {
        assert(v@ =~= seq![]);
    }
    v
}

/// Reveals a game in the native currency of a player who came without an invitation.
/// The payout is the one asked for, capped at `MAX_WIN_TENTHS` tenths of what the house
/// holds beyond its rent; the game's record takes the payout and the player's DAO; the
/// house counts the bet in its volumes and the fee account the holders' part
/// (`HOLDERS_FEE_PER_MILLE` of the bet). Then the balances move (see `settlement`): the
/// payout between the game and the house, the holders' part to the fee account, the
/// team's part (`TEAM_FEE_PER_MILLE` of the bet) to the authority.
pub fn reveal_plinko(
    ctx: &mut RevealPlinko,
    _bump: u8,
    _fee_bump: u8,
    _house_bump: u8,
    _profile_bump: u8,
    _id: u64,
    payout: u64,
) -> (r: Result<(), Error>)
    requires
        reveal_refusal(old(ctx).plinko.data, old(ctx).profile.data, false) is None ==> {
            &&& old(ctx).house.info.lamports >= old(ctx).house_rent
            &&& game_bet(old(ctx).plinko.data) <= u64::MAX
            &&& reveal_in_range(
                old(ctx).plinko.data,
                old(ctx).house.data,
                old(ctx).fee.data,
                None,
                old(ctx).house.info.lamports - old(ctx).house_rent,
            )
        },
    ensures
        r is Err ==> *final(ctx) == *old(ctx),
        final(ctx).profile == old(ctx).profile,
        final(ctx).player == old(ctx).player,
        final(ctx).house_rent == old(ctx).house_rent,
        match reveal_refusal(old(ctx).plinko.data, old(ctx).profile.data, false) {
            Some(e) => r == refused::<()>(e) && *final(ctx) == *old(ctx),
            None => {
                let bet = game_bet(old(ctx).plinko.data);
                let won = game_won(payout, old(ctx).house.info.lamports - old(ctx).house_rent);
                let holders = (bet * HOLDERS_FEE_PER_MILLE) / 1000;
                let team = (bet * TEAM_FEE_PER_MILLE) / 1000;
                let s = settlement(
                    old(ctx).plinko.info,
                    old(ctx).house.info,
                    old(ctx).fee.info,
                    old(ctx).authority,
                    old(ctx).authority,
                    bet,
                    won,
                    holders,
                    0,
                    team,
                );
                &&& (r is Ok) == s.5
                &&& r is Ok ==> {
                    &&& final(ctx).plinko.data == revealed_plinko(
                        old(ctx).plinko.data,
                        won,
                        old(ctx).profile.data.dao,
                        old(ctx).plinko.data.referral,
                    )
                    &&& final(ctx).house.data == house_counting(old(ctx).house.data, bet)
                    &&& final(ctx).fee.data == fee_counting(old(ctx).fee.data, holders, 0)
                    &&& final(ctx).plinko.info == s.0
                    &&& final(ctx).house.info == s.1
                    &&& final(ctx).fee.info == s.2
                    &&& final(ctx).authority == s.4
                }
                &&& r is Err ==> r == invalid_argument::<()>()
            },
        },
{
    if ctx.plinko.data.revealed {
        return Err(Error::Custom(CustomErrors::GameIsRevealed));
    }
    if !ctx.profile.data.invitation.is_none() {
        return Err(Error::Custom(CustomErrors::ProfileHasInvite));
    }
    let spare = ctx.house.info.lamports - ctx.house_rent;
    let mut next = *ctx;
    let a = record_reveal(
        &mut next.plinko.data,
        &mut next.house.data,
        &mut next.fee.data,
        &ctx.profile.data,
        None,
        spare,
        payout,
    );
    pay_game(&mut next.plinko.info, &mut next.house.info, a.bet, a.won)?;
    move_lamports(&mut next.plinko.info, &mut next.fee.info, a.holders)?;
    move_lamports(&mut next.plinko.info, &mut next.authority, a.team)?;
    *ctx = next;
    Ok(())
}

/// Reveals a game in the native currency of a player who came with an invitation, as
/// `reveal_plinko` does, but the fee (`FEE_PER_MILLE` of the bet) is shared: a verified
/// referral account takes its percentage of it (see `referral_share`) and is recorded in
/// the game; of the rest, the holders take `HOLDERS_FEE_PER_MILLE` and the team
/// `TEAM_FEE_PER_MILLE` parts in `FEE_PER_MILLE`. The fee account counts the referral's
/// part in its referral volumes, and the referral's part moves to the referral account
/// before the team's part moves.
pub fn reveal_plinko_with_referral(
    ctx: &mut RevealPlinkoWithReferral,
    _bump: u8,
    _fee_bump: u8,
    _house_bump: u8,
    _profile_bump: u8,
    _referral_bump: u8,
    _id: u64,
    payout: u64,
) -> (r: Result<(), Error>)
    requires
        reveal_refusal(old(ctx).plinko.data, old(ctx).profile.data, true) is None ==> {
            &&& old(ctx).house.info.lamports >= old(ctx).house_rent
            &&& game_bet(old(ctx).plinko.data) <= u64::MAX
            &&& reveal_in_range(
                old(ctx).plinko.data,
                old(ctx).house.data,
                old(ctx).fee.data,
                Some(old(ctx).referral.data),
                old(ctx).house.info.lamports - old(ctx).house_rent,
            )
        },
    ensures
        r is Err ==> *final(ctx) == *old(ctx),
        final(ctx).profile == old(ctx).profile,
        final(ctx).referral.data == old(ctx).referral.data,
        final(ctx).referral_owner == old(ctx).referral_owner,
        final(ctx).player == old(ctx).player,
        final(ctx).house_rent == old(ctx).house_rent,
        match reveal_refusal(old(ctx).plinko.data, old(ctx).profile.data, true) {
            Some(e) => r == refused::<()>(e) && *final(ctx) == *old(ctx),
            None => {
                let referral = Some(old(ctx).referral.data);
                let bet = game_bet(old(ctx).plinko.data);
                let won = game_won(payout, old(ctx).house.info.lamports - old(ctx).house_rent);
                let s = settlement(
                    old(ctx).plinko.info,
                    old(ctx).house.info,
                    old(ctx).fee.info,
                    old(ctx).referral.info,
                    old(ctx).authority,
                    bet,
                    won,
                    game_holders(bet, referral),
                    game_shared(bet, referral),
                    game_team(bet, referral),
                );
                &&& (r is Ok) == s.5
                &&& r is Ok ==> {
                    &&& final(ctx).plinko.data == revealed_plinko(
                        old(ctx).plinko.data,
                        won,
                        old(ctx).profile.data.dao,
                        game_referral(old(ctx).plinko.data, old(ctx).profile.data, referral),
                    )
                    &&& final(ctx).house.data == house_counting(old(ctx).house.data, bet)
                    &&& final(ctx).fee.data == fee_counting(
                        old(ctx).fee.data,
                        game_holders(bet, referral),
                        game_shared(bet, referral),
                    )
                    &&& final(ctx).plinko.info == s.0
                    &&& final(ctx).house.info == s.1
                    &&& final(ctx).fee.info == s.2
                    &&& final(ctx).referral.info == s.3
                    &&& final(ctx).authority == s.4
                }
                &&& r is Err ==> r == invalid_argument::<()>()
            },
        },
{
    if ctx.plinko.data.revealed {
        return Err(Error::Custom(CustomErrors::GameIsRevealed));
    }
    if !ctx.profile.data.invitation.is_some() {
        return Err(Error::Custom(CustomErrors::ProfileHasNotInvite));
    }
    let spare = ctx.house.info.lamports - ctx.house_rent;
    let mut next = *ctx;
    let a = record_reveal(
        &mut next.plinko.data,
        &mut next.house.data,
        &mut next.fee.data,
        &ctx.profile.data,
        Some(ctx.referral.data),
        spare,
        payout,
    );
    pay_game(&mut next.plinko.info, &mut next.house.info, a.bet, a.won)?;
    move_lamports(&mut next.plinko.info, &mut next.fee.info, a.holders)?;
    if a.shared > 0 {
        move_lamports(&mut next.plinko.info, &mut next.referral.info, a.shared)?;
    }
    move_lamports(&mut next.plinko.info, &mut next.authority, a.team)?;
    *ctx = next;
    Ok(())
}

/// Reveals a game in a token of a player who came without an invitation, as
/// `reveal_plinko` does, against what the house's token account holds; the records change
/// as there, and the moves are asked of the token program (see `token_payout_moves`),
/// signed by the game or the house: the payout, the holders' part to the fee's token
/// account, the team's part to the authority's.
pub fn reveal_token_plinko(
    ctx: &mut RevealTokenPlinko,
    _bump: u8,
    _fee_bump: u8,
    _house_bump: u8,
    _profile_bump: u8,
    id: u64,
    payout: u64,
) -> (r: Result<Vec<Cpi>, Error>)
    requires
        reveal_refusal(old(ctx).plinko.data, old(ctx).profile.data, false) is None ==> {
            &&& game_bet(old(ctx).plinko.data) <= u64::MAX
            &&& reveal_in_range(
                old(ctx).plinko.data,
                old(ctx).house.data,
                old(ctx).fee.data,
                None,
                old(ctx).house_ata.data.amount as int,
            )
        },
    ensures
        r is Err ==> *final(ctx) == *old(ctx),
        final(ctx).profile == old(ctx).profile,
        final(ctx).plinko.info == old(ctx).plinko.info,
        final(ctx).house.info == old(ctx).house.info,
        final(ctx).fee.info == old(ctx).fee.info,
        final(ctx).plinko_ata == old(ctx).plinko_ata,
        final(ctx).house_ata == old(ctx).house_ata,
        final(ctx).fee_ata == old(ctx).fee_ata,
        final(ctx).authority_ata == old(ctx).authority_ata,
        final(ctx).player == old(ctx).player,
        final(ctx).authority == old(ctx).authority,
        final(ctx).mint == old(ctx).mint,
        final(ctx).token_program == old(ctx).token_program,
        match reveal_refusal(old(ctx).plinko.data, old(ctx).profile.data, false) {
            Some(e) => r == refused::<Vec<Cpi>>(e) && *final(ctx) == *old(ctx),
            None => {
                let bet = game_bet(old(ctx).plinko.data);
                let won = game_won(payout, old(ctx).house_ata.data.amount as int);
                let seeds = game_seeds(
                    old(ctx).player.key,
                    old(ctx).mint.key,
                    old(ctx).authority.key,
                    id,
                    old(ctx).plinko.data.bump,
                );
                let program = old(ctx).token_program.key;
                let game = old(ctx).plinko.info.key;
                let game_ata = old(ctx).plinko_ata.info.key;
                &&& final(ctx).plinko.data == revealed_plinko(
                    old(ctx).plinko.data,
                    won,
                    old(ctx).profile.data.dao,
                    old(ctx).plinko.data.referral,
                )
                &&& final(ctx).house.data == house_counting(old(ctx).house.data, bet)
                &&& final(ctx).fee.data == fee_counting(old(ctx).fee.data, game_holders(bet, None), 0)
                &&& invokes(
                    r,
                    token_payout_moves(
                        game_ata,
                        old(ctx).house_ata.info.key,
                        program,
                        game,
                        old(ctx).house.info.key,
                        seeds,
                        SignerSeeds::House {
                            mint: old(ctx).mint.key,
                            authority: old(ctx).authority.key,
                            bump: old(ctx).house.data.bump,
                        },
                        bet,
                        won,
                    ) + seq![
                        token_move(game_ata, old(ctx).fee_ata.info.key, game_holders(bet, None), program, game, seeds),
                        token_move(game_ata, old(ctx).authority_ata.info.key, game_team(bet, None), program, game, seeds),
                    ],
                )
            },
        },
{
    if ctx.plinko.data.revealed {
        return Err(Error::Custom(CustomErrors::GameIsRevealed));
    }
    if !ctx.profile.data.invitation.is_none() {
        return Err(Error::Custom(CustomErrors::ProfileHasInvite));
    }
    let spare = ctx.house_ata.data.amount;
    let a = record_reveal(
        &mut ctx.plinko.data,
        &mut ctx.house.data,
        &mut ctx.fee.data,
        &ctx.profile.data,
        None,
        spare,
        payout,
    );
    let seeds = SignerSeeds::Plinko {
        player: ctx.player.key,
        mint: ctx.mint.key,
        authority: ctx.authority.key,
        id,
        bump: ctx.plinko.data.bump,
    };
    let house_seeds = SignerSeeds::House { mint: ctx.mint.key, authority: ctx.authority.key, bump: ctx.house.data.bump };
    let mut v = token_payout(
        &ctx.plinko_ata.info,
        &ctx.house_ata.info,
        &ctx.token_program,
        &ctx.plinko.info,
        &ctx.house.info,
        seeds,
        house_seeds,
        a.bet,
        a.won,
    );
    let ghost payout_moves = v@;
    v.push(transfer_spl_invoke_signed(&ctx.plinko_ata.info, &ctx.fee_ata.info, a.holders, &ctx.token_program, &ctx.plinko.info, seeds));
    v.push(transfer_spl_invoke_signed(&ctx.plinko_ata.info, &ctx.authority_ata.info, a.team, &ctx.token_program, &ctx.plinko.info, seeds));
    assert(v@ =~= payout_moves + seq![v@[payout_moves.len() as int], v@[payout_moves.len() + 1int]]);
    Ok(v)
}

/// Reveals a game in a token of a player who came with an invitation, as
/// `reveal_plinko_with_referral` does for the records, with the moves asked of the token
/// program as in `reveal_token_plinko`; the referral's part, when there is one, moves to
/// the referral's token account before the team's part moves.
pub fn reveal_token_plinko_with_referral(
    ctx: &mut RevealTokenPlinkoWithReferral,
    _bump: u8,
    _fee_bump: u8,
    _house_bump: u8,
    _profile_bump: u8,
    _referral_bump: u8,
    id: u64,
    payout: u64,
) -> (r: Result<Vec<Cpi>, Error>)
    requires
        reveal_refusal(old(ctx).plinko.data, old(ctx).profile.data, true) is None ==> {
            &&& game_bet(old(ctx).plinko.data) <= u64::MAX
            &&& reveal_in_range(
                old(ctx).plinko.data,
                old(ctx).house.data,
                old(ctx).fee.data,
                Some(old(ctx).referral.data),
                old(ctx).house_ata.data.amount as int,
            )
        },
    ensures
        r is Err ==> *final(ctx) == *old(ctx),
        final(ctx).profile == old(ctx).profile,
        final(ctx).referral == old(ctx).referral,
        final(ctx).referral_owner == old(ctx).referral_owner,
        final(ctx).plinko.info == old(ctx).plinko.info,
        final(ctx).house.info == old(ctx).house.info,
        final(ctx).fee.info == old(ctx).fee.info,
        final(ctx).plinko_ata == old(ctx).plinko_ata,
        final(ctx).house_ata == old(ctx).house_ata,
        final(ctx).fee_ata == old(ctx).fee_ata,
        final(ctx).referral_ata == old(ctx).referral_ata,
        final(ctx).authority_ata == old(ctx).authority_ata,
        final(ctx).player == old(ctx).player,
        final(ctx).authority == old(ctx).authority,
        final(ctx).mint == old(ctx).mint,
        final(ctx).token_program == old(ctx).token_program,
        match reveal_refusal(old(ctx).plinko.data, old(ctx).profile.data, true) {
            Some(e) => r == refused::<Vec<Cpi>>(e) && *final(ctx) == *old(ctx),
            None => {
                let referral = Some(old(ctx).referral.data);
                let bet = game_bet(old(ctx).plinko.data);
                let won = game_won(payout, old(ctx).house_ata.data.amount as int);
                let seeds = game_seeds(
                    old(ctx).player.key,
                    old(ctx).mint.key,
                    old(ctx).authority.key,
                    id,
                    old(ctx).plinko.data.bump,
                );
                let program = old(ctx).token_program.key;
                let game = old(ctx).plinko.info.key;
                let game_ata = old(ctx).plinko_ata.info.key;
                let shared = game_shared(bet, referral);
                &&& final(ctx).plinko.data == revealed_plinko(
                    old(ctx).plinko.data,
                    won,
                    old(ctx).profile.data.dao,
                    game_referral(old(ctx).plinko.data, old(ctx).profile.data, referral),
                )
                &&& final(ctx).house.data == house_counting(old(ctx).house.data, bet)
                &&& final(ctx).fee.data == fee_counting(old(ctx).fee.data, game_holders(bet, referral), shared)
                &&& invokes(
                    r,
                    token_payout_moves(
                        game_ata,
                        old(ctx).house_ata.info.key,
                        program,
                        game,
                        old(ctx).house.info.key,
                        seeds,
                        SignerSeeds::House {
                            mint: old(ctx).mint.key,
                            authority: old(ctx).authority.key,
                            bump: old(ctx).house.data.bump,
                        },
                        bet,
                        won,
                    ) + seq![token_move(game_ata, old(ctx).fee_ata.info.key, game_holders(bet, referral), program, game, seeds)]
                        + (if shared > 0 {
                        seq![token_move(game_ata, old(ctx).referral_ata.info.key, shared, program, game, seeds)]
                    } else {
                        seq![]
                    }) + seq![token_move(game_ata, old(ctx).authority_ata.info.key, game_team(bet, referral), program, game, seeds)],
                )
            },
        },
{
    if ctx.plinko.data.revealed {
        return Err(Error::Custom(CustomErrors::GameIsRevealed));
    }
    if !ctx.profile.data.invitation.is_some() {
        return Err(Error::Custom(CustomErrors::ProfileHasNotInvite));
    }
    let spare = ctx.house_ata.data.amount;
    let a = record_reveal(
        &mut ctx.plinko.data,
        &mut ctx.house.data,
        &mut ctx.fee.data,
        &ctx.profile.data,
        Some(ctx.referral.data),
        spare,
        payout,
    );
    let seeds = SignerSeeds::Plinko {
        player: ctx.player.key,
        mint: ctx.mint.key,
        authority: ctx.authority.key,
        id,
        bump: ctx.plinko.data.bump,
    };
    let house_seeds = SignerSeeds::House { mint: ctx.mint.key, authority: ctx.authority.key, bump: ctx.house.data.bump };
    let mut v = token_payout(
        &ctx.plinko_ata.info,
        &ctx.house_ata.info,
        &ctx.token_program,
        &ctx.plinko.info,
        &ctx.house.info,
        seeds,
        house_seeds,
        a.bet,
        a.won,
    );
    let ghost payout_moves = v@;
    v.push(transfer_spl_invoke_signed(&ctx.plinko_ata.info, &ctx.fee_ata.info, a.holders, &ctx.token_program, &ctx.plinko.info, seeds));
    let ghost with_holders = v@;
    assert(with_holders =~= payout_moves + seq![v@[payout_moves.len() as int]]);
    if a.shared > 0 {
        v.push(transfer_spl_invoke_signed(&ctx.plinko_ata.info, &ctx.referral_ata.info, a.shared, &ctx.token_program, &ctx.plinko.info, seeds));
    }
    let ghost with_shared = v@;
    assert(a.shared > 0 ==> with_shared =~= with_holders + seq![v@[with_holders.len() as int]]);
    assert(a.shared == 0 ==> with_shared =~= with_holders + seq![]);
    v.push(transfer_spl_invoke_signed(&ctx.plinko_ata.info, &ctx.authority_ata.info, a.team, &ctx.token_program, &ctx.plinko.info, seeds));
    assert(v@ =~= with_shared + seq![v@[with_shared.len() as int]]);
    Ok(v)
}

/// The check before a game's balance is paid out: revealed, and not paid out yet.
pub open spec fn claim_refusal(p: Plinko) -> Option<CustomErrors> {
    if !p.revealed {
        Some(CustomErrors::GameIsNotRevealed)
    } else if p.paid_out {
        Some(CustomErrors::GameIsClaimed)
    } else {
        None
    }
}

/// Pays the player of a revealed game everything that the game's account holds above its
/// rent-exempt balance, and marks the game paid out.
pub fn claim_plinko(ctx: &mut ClaimPlinko, _bump: u8, _id: u64) -> (r: Result<(), Error>)
    requires
        claim_refusal(old(ctx).plinko.data) is None ==> old(ctx).plinko.info.lamports >= old(ctx).plinko_rent,
    ensures
        r is Err ==> *final(ctx) == *old(ctx),
        final(ctx).plinko_rent == old(ctx).plinko_rent,
        final(ctx).authority == old(ctx).authority,
        match claim_refusal(old(ctx).plinko.data) {
            Some(e) => r == refused::<()>(e) && *final(ctx) == *old(ctx),
            None => {
                &&& (final(ctx).plinko.info, final(ctx).player, r is Ok) == signed_transfer(
                    old(ctx).plinko.info,
                    old(ctx).player,
                    (old(ctx).plinko.info.lamports - old(ctx).plinko_rent) as u64,
                )
                &&& r is Ok ==> final(ctx).plinko.data == (Plinko { paid_out: true, ..old(ctx).plinko.data })
                &&& r is Err ==> r == invalid_argument::<()>() && *final(ctx) == *old(ctx)
            },
        },
{
    if !ctx.plinko.data.revealed {
        return Err(Error::Custom(CustomErrors::GameIsNotRevealed));
    }
    if !(!ctx.plinko.data.paid_out) {
        return Err(Error::Custom(CustomErrors::GameIsClaimed));
    }
    let rent_lamports = ctx.plinko_rent;
    let plinko_lamports = ctx.plinko.info.lamports;
    move_lamports(&mut ctx.plinko.info, &mut ctx.player, plinko_lamports - rent_lamports)?;
    ctx.plinko.data.paid_out = true;
    Ok(())
}

/// Pays the player of a revealed game all the tokens of the game's token account, marks
/// the game paid out, and closes the game's token account in the player's favour; both
/// are asked of the token program, signed by the game.
pub fn claim_token_plinko(ctx: &mut ClaimTokenPlinko, _bump: u8, id: u64) -> (r: Result<Vec<Cpi>, Error>)
    ensures
        r is Err ==> *final(ctx) == *old(ctx),
        final(ctx).plinko.info == old(ctx).plinko.info,
        final(ctx).plinko_ata == old(ctx).plinko_ata,
        final(ctx).player_ata == old(ctx).player_ata,
        final(ctx).player == old(ctx).player,
        final(ctx).authority == old(ctx).authority,
        final(ctx).mint == old(ctx).mint,
        final(ctx).token_program == old(ctx).token_program,
        match claim_refusal(old(ctx).plinko.data) {
            Some(e) => r == refused::<Vec<Cpi>>(e) && *final(ctx) == *old(ctx),
            None => {
                let seeds = game_seeds(
                    old(ctx).player.key,
                    old(ctx).mint.key,
                    old(ctx).authority.key,
                    id,
                    old(ctx).plinko.data.bump,
                );
                &&& final(ctx).plinko.data == (Plinko { paid_out: true, ..old(ctx).plinko.data })
                &&& invokes(
                    r,
                    seq![
                        token_move(
                            old(ctx).plinko_ata.info.key,
                            old(ctx).player_ata.info.key,
                            old(ctx).plinko_ata.data.amount as int,
                            old(ctx).token_program.key,
                            old(ctx).plinko.info.key,
                            seeds,
                        ),
                        Cpi::CloseAccount {
                            account: old(ctx).plinko_ata.info.key,
                            destination: old(ctx).player.key,
                            program: old(ctx).token_program.key,
                            authority: old(ctx).plinko.info.key,
                            seeds,
                        },
                    ],
                )
            },
        },
{
    if !ctx.plinko.data.revealed {
        return Err(Error::Custom(CustomErrors::GameIsNotRevealed));
    }
    if !(!ctx.plinko.data.paid_out) {
        return Err(Error::Custom(CustomErrors::GameIsClaimed));
    }
    let seeds = SignerSeeds::Plinko {
        player: ctx.player.key,
        mint: ctx.mint.key,
        authority: ctx.authority.key,
        id,
        bump: ctx.plinko.data.bump,
    };
    let mut v: Vec<Cpi> = Vec::new();
    v.push(transfer_spl_invoke_signed(
        &ctx.plinko_ata.info,
        &ctx.player_ata.info,
        ctx.plinko_ata.data.amount,
        &ctx.token_program,
        &ctx.plinko.info,
        seeds,
    ));
    ctx.plinko.data.paid_out = true;
    v.push(Cpi::CloseAccount {
        account: ctx.plinko_ata.info.key,
        destination: ctx.player.key,
        program: ctx.token_program.key,
        authority: ctx.plinko.info.key,
        seeds,
    });
    assert(v@ =~= seq![v@[0], v@[1]]);
    Ok(v)
}

} // verus!

verus! {

fn start_refusal(settings: &InitPlinkoSettings, house: &House, spare: u64) -> (o: Option<CustomErrors>)
    requires
        bet_refusal(*settings, *house) is None ==> bet_lamports(settings.bet_amount, settings.balls_count) <= u64::MAX,
    ensures
        o == init_plinko_refusal(*settings, *house, spare as int),
{
    match check_bet(settings, house) {
        Some(e) => {
            return Some(e);
        },
        None => {},
    }
    let bet = settings.bet_amount * (settings.balls_count as u64);
    if !(spare > bet) {
        Some(CustomErrors::InsufficientFundsInHouse)
    } else {
        match settings.row {
            Some(r) if !(MIN_ROWS <= r && r <= MAX_ROWS) => Some(CustomErrors::InvalidRows),
            _ => match settings.risk {
                Some(k) if !(k <= MAX_RISK) => Some(CustomErrors::InvalidRisk),
                _ => None,
            },
        }
    }
}

fn start_fits(settings: &InitPlinkoSettings, house: &House, spare: u64, profile: &Profile) -> (b: bool)
    ensures
        b == init_plinko_in_range(*settings, *house, spare as int, *profile),
{
    if check_bet(settings, house).is_some() {
        return true;
    }
    let bet = match settings.bet_amount.checked_mul(settings.balls_count as u64) {
        Some(b) => b,
        None => return false,
    };
    let scaled = match bet.checked_mul(FEE_PER_MILLE) {
        Some(f) => f,
        None => return false,
    };
    match start_refusal(settings, house, spare) {
        Some(_) => true,
        None => profile.next_game_id < u64::MAX && bet.checked_add(scaled / 1000).is_some(),
    }
}

/// Whether `init_plinko` stays within the range of its integers on these accounts and
/// settings: when it does not, the instruction cannot be carried out.
pub fn init_plinko_in_bounds(ctx: &InitPlinko, settings: &InitPlinkoSettings) -> (b: bool)
    ensures
        b == (ctx.house.info.lamports >= ctx.house_rent && init_plinko_in_range(
            *settings,
            ctx.house.data,
            ctx.house.info.lamports - ctx.house_rent,
            ctx.profile.data,
        )),
{
    if ctx.house.info.lamports < ctx.house_rent {
        return false;
    }
    start_fits(settings, &ctx.house.data, ctx.house.info.lamports - ctx.house_rent, &ctx.profile.data)
}

/// Whether `init_token_plinko` stays within the range of its integers on these accounts
/// and settings.
pub fn init_token_plinko_in_bounds(ctx: &InitTokenPlinko, settings: &InitPlinkoSettings) -> (b: bool)
    ensures
        b == (init_plinko_in_range(
            *settings,
            ctx.house.data,
            ctx.house_ata.data.amount as int,
            ctx.profile.data,
        )),
{
    start_fits(settings, &ctx.house.data, ctx.house_ata.data.amount, &ctx.profile.data)
}

fn reveal_fits(p: &Plinko, house: &House, fee: &Fee, referral: Option<Referral>, spare: u64) -> (b: bool)
    ensures
        b == (game_bet(*p) <= u64::MAX && reveal_in_range(*p, *house, *fee, referral, spare as int)),
{
    let bet = match p.bet_amount.checked_mul(p.balls_count as u64) {
        Some(b) => b,
        None => return false,
    };
    let mut shared: u64 = 0;
    let holders: u64 = match referral {
        Some(rf) => {
            let scaled = match bet.checked_mul(FEE_PER_MILLE) {
                Some(f) => f,
                None => return false,
            };
            let fee_lamports = scaled / 1000;
            let mut share: u64 = fee_lamports;
            if rf.verified {
                if rf.percentage > MAX_PERCENTAGE {
                    return false;
                }
                share = match fee_lamports.checked_mul(100 - (rf.percentage as u64)) {
                    Some(x) => x / 100,
                    None => return false,
                };
                shared = match fee_lamports.checked_mul(rf.percentage as u64) {
                    Some(x) => x / 100,
                    None => return false,
                };
            }
            match share.checked_mul(HOLDERS_FEE_PER_MILLE) {
                Some(x) => x / FEE_PER_MILLE,
                None => return false,
            }
        },
        None => match bet.checked_mul(HOLDERS_FEE_PER_MILLE) {
            Some(x) => x / 1000,
            None => return false,
        },
    };
    spare.checked_mul(MAX_WIN_TENTHS).is_some()
        && house.volume.checked_add(bet).is_some()
        && house.today_volume.checked_add(bet).is_some()
        && fee.volume.checked_add(holders).is_some()
        && fee.referral_today_volume.checked_add(shared).is_some()
        && fee.referral_volume.checked_add(shared).is_some()
}

/// Whether `reveal_plinko` stays within the range of its integers on these accounts.
pub fn reveal_plinko_in_bounds(ctx: &RevealPlinko) -> (b: bool)
    ensures
        b == (reveal_refusal(ctx.plinko.data, ctx.profile.data, false) is None ==> {
            &&& ctx.house.info.lamports >= ctx.house_rent
            &&& game_bet(ctx.plinko.data) <= u64::MAX
            &&& reveal_in_range(
                ctx.plinko.data,
                ctx.house.data,
                ctx.fee.data,
                None,
                ctx.house.info.lamports - ctx.house_rent,
            )
        }),
{
    if ctx.plinko.data.revealed || ctx.profile.data.invitation.is_some() {
        return true;
    }
    ctx.house.info.lamports >= ctx.house_rent && reveal_fits(
        &ctx.plinko.data,
        &ctx.house.data,
        &ctx.fee.data,
        None,
        ctx.house.info.lamports - ctx.house_rent,
    )
}

/// Whether `reveal_plinko_with_referral` stays within the range of its integers on these
/// accounts.
pub fn reveal_plinko_with_referral_in_bounds(ctx: &RevealPlinkoWithReferral) -> (b: bool)
    ensures
        b == (reveal_refusal(ctx.plinko.data, ctx.profile.data, true) is None ==> {
            &&& ctx.house.info.lamports >= ctx.house_rent
            &&& game_bet(ctx.plinko.data) <= u64::MAX
            &&& reveal_in_range(
                ctx.plinko.data,
                ctx.house.data,
                ctx.fee.data,
                Some(ctx.referral.data),
                ctx.house.info.lamports - ctx.house_rent,
            )
        }),
{
    if ctx.plinko.data.revealed || ctx.profile.data.invitation.is_none() {
        return true;
    }
    ctx.house.info.lamports >= ctx.house_rent && reveal_fits(
        &ctx.plinko.data,
        &ctx.house.data,
        &ctx.fee.data,
        Some(ctx.referral.data),
        ctx.house.info.lamports - ctx.house_rent,
    )
}

/// Whether `reveal_token_plinko` stays within the range of its integers on these accounts.
pub fn reveal_token_plinko_in_bounds(ctx: &RevealTokenPlinko) -> (b: bool)
    ensures
        b == (reveal_refusal(ctx.plinko.data, ctx.profile.data, false) is None ==> {
            &&& game_bet(ctx.plinko.data) <= u64::MAX
            &&& reveal_in_range(ctx.plinko.data, ctx.house.data, ctx.fee.data, None, ctx.house_ata.data.amount as int)
        }),
{
    if ctx.plinko.data.revealed || ctx.profile.data.invitation.is_some() {
        return true;
    }
    reveal_fits(&ctx.plinko.data, &ctx.house.data, &ctx.fee.data, None, ctx.house_ata.data.amount)
}

/// Whether `reveal_token_plinko_with_referral` stays within the range of its integers on
/// these accounts.
pub fn reveal_token_plinko_with_referral_in_bounds(ctx: &RevealTokenPlinkoWithReferral) -> (b: bool)
    ensures
        b == (reveal_refusal(ctx.plinko.data, ctx.profile.data, true) is None ==> {
            &&& game_bet(ctx.plinko.data) <= u64::MAX
            &&& reveal_in_range(
                ctx.plinko.data,
                ctx.house.data,
                ctx.fee.data,
                Some(ctx.referral.data),
                ctx.house_ata.data.amount as int,
            )
        }),
{
    if ctx.plinko.data.revealed || ctx.profile.data.invitation.is_none() {
        return true;
    }
    reveal_fits(&ctx.plinko.data, &ctx.house.data, &ctx.fee.data, Some(ctx.referral.data), ctx.house_ata.data.amount)
}

/// Whether `claim_plinko` can take the rent-exempt balance out of what the game holds.
pub fn claim_plinko_in_bounds(ctx: &ClaimPlinko) -> (b: bool)
    ensures
        b == (claim_refusal(ctx.plinko.data) is None ==> ctx.plinko.info.lamports >= ctx.plinko_rent),
{
    !(ctx.plinko.data.revealed && !ctx.plinko.data.paid_out) || ctx.plinko.info.lamports >= ctx.plinko_rent
}

/// A game given to an instruction matches when it was created with `bump` under the
/// number `id` for `player` and `authority`.
pub open spec fn plinko_matches(plinko: Plinko, bump: u8, id: u64, player: Pubkey, authority: Pubkey) -> bool {
    plinko.bump == bump && plinko.id == id && plinko.player == player && plinko.authority == authority
}

/// Whether a game matches `bump`, `id`, `player` and `authority`.
pub fn plinko_account_matches(plinko: &Plinko, bump: u8, id: u64, player: Pubkey, authority: Pubkey) -> (b: bool)
    ensures
        b == plinko_matches(*plinko, bump, id, player, authority),
{
    plinko.bump == bump && plinko.id == id && plinko.player == player && plinko.authority == authority
}

impl InitPlinko {
    /// Checks the accounts of `init_plinko`: the house and the player's profile.
    pub fn check_constraints(&self, house_bump: u8, profile_bump: u8) -> (r: Result<(), Error>)
        ensures
            checked(
                r,
                house_matches(self.house.data, house_bump, self.authority.key) && profile_matches(
                    self.profile.data,
                    profile_bump,
                    self.player.key,
                    self.authority.key,
                ),
            ),
    {
        require_constraint(
            house_account_matches(&self.house.data, house_bump, self.authority.key)
                && profile_account_matches(&self.profile.data, profile_bump, self.player.key, self.authority.key),
        )
    }
}

impl InitTokenPlinko {
    /// Checks the accounts of `init_token_plinko`: the house and the player's profile.
    pub fn check_constraints(&self, house_bump: u8, profile_bump: u8) -> (r: Result<(), Error>)
        ensures
            checked(
                r,
                house_matches(self.house.data, house_bump, self.authority.key) && profile_matches(
                    self.profile.data,
                    profile_bump,
                    self.player.key,
                    self.authority.key,
                ),
            ),
    {
        require_constraint(
            house_account_matches(&self.house.data, house_bump, self.authority.key)
                && profile_account_matches(&self.profile.data, profile_bump, self.player.key, self.authority.key),
        )
    }
}

impl RevealPlinko {
    /// Checks the accounts of `reveal_plinko`: the game, the fee account, the house and the
    /// player's profile.
    pub fn check_constraints(&self, bump: u8, fee_bump: u8, house_bump: u8, profile_bump: u8, id: u64) -> (r: Result<
        (),
        Error,
    >)
        ensures
            checked(
                r,
                plinko_matches(self.plinko.data, bump, id, self.player.key, self.authority.key) && fee_matches(
                    self.fee.data,
                    fee_bump,
                    self.authority.key,
                ) && house_matches(self.house.data, house_bump, self.authority.key) && profile_matches(
                    self.profile.data,
                    profile_bump,
                    self.player.key,
                    self.authority.key,
                ),
            ),
    {
        require_constraint(
            plinko_account_matches(&self.plinko.data, bump, id, self.player.key, self.authority.key)
                && fee_account_matches(&self.fee.data, fee_bump, self.authority.key) && house_account_matches(
                &self.house.data,
                house_bump,
                self.authority.key,
            ) && profile_account_matches(&self.profile.data, profile_bump, self.player.key, self.authority.key),
        )
    }
}

impl RevealTokenPlinko {
    /// Checks the accounts of `reveal_token_plinko`: the game, the fee account, the house and the
    /// player's profile.
    pub fn check_constraints(&self, bump: u8, fee_bump: u8, house_bump: u8, profile_bump: u8, id: u64) -> (r: Result<
        (),
        Error,
    >)
        ensures
            checked(
                r,
                plinko_matches(self.plinko.data, bump, id, self.player.key, self.authority.key) && fee_matches(
                    self.fee.data,
                    fee_bump,
                    self.authority.key,
                ) && house_matches(self.house.data, house_bump, self.authority.key) && profile_matches(
                    self.profile.data,
                    profile_bump,
                    self.player.key,
                    self.authority.key,
                ),
            ),
    {
        require_constraint(
            plinko_account_matches(&self.plinko.data, bump, id, self.player.key, self.authority.key)
                && fee_account_matches(&self.fee.data, fee_bump, self.authority.key) && house_account_matches(
                &self.house.data,
                house_bump,
                self.authority.key,
            ) && profile_account_matches(&self.profile.data, profile_bump, self.player.key, self.authority.key),
        )
    }
}

impl RevealPlinkoWithReferral {
    /// Checks the accounts of `reveal_plinko_with_referral`: the game, the fee account, the house, the
    /// referral account, and the player's profile, which must record that referral
    /// account as the player's invitation.
    pub fn check_constraints(
        &self,
        bump: u8,
        fee_bump: u8,
        house_bump: u8,
        profile_bump: u8,
        referral_bump: u8,
        id: u64,
    ) -> (r: Result<(), Error>)
        ensures
            checked(
                r,
                plinko_matches(self.plinko.data, bump, id, self.player.key, self.authority.key) && fee_matches(
                    self.fee.data,
                    fee_bump,
                    self.authority.key,
                ) && house_matches(self.house.data, house_bump, self.authority.key) && referral_matches(
                    self.referral.data,
                    referral_bump,
                    self.referral_owner.key,
                    self.authority.key,
                ) && profile_matches(self.profile.data, profile_bump, self.player.key, self.authority.key)
                    && self.profile.data.invitation == Some(self.referral.info.key),
            ),
    {
        require_constraint(
            plinko_account_matches(&self.plinko.data, bump, id, self.player.key, self.authority.key)
                && fee_account_matches(&self.fee.data, fee_bump, self.authority.key) && house_account_matches(
                &self.house.data,
                house_bump,
                self.authority.key,
            ) && referral_account_matches(
                &self.referral.data,
                referral_bump,
                self.referral_owner.key,
                self.authority.key,
            ) && profile_account_matches(&self.profile.data, profile_bump, self.player.key, self.authority.key)
                && self.profile.data.invitation == Some(self.referral.info.key),
        )
    }
}

impl RevealTokenPlinkoWithReferral {
    /// Checks the accounts of `reveal_token_plinko_with_referral`: the game, the fee account, the house, the
    /// referral account, and the player's profile, which must record that referral
    /// account as the player's invitation.
    pub fn check_constraints(
        &self,
        bump: u8,
        fee_bump: u8,
        house_bump: u8,
        profile_bump: u8,
        referral_bump: u8,
        id: u64,
    ) -> (r: Result<(), Error>)
        ensures
            checked(
                r,
                plinko_matches(self.plinko.data, bump, id, self.player.key, self.authority.key) && fee_matches(
                    self.fee.data,
                    fee_bump,
                    self.authority.key,
                ) && house_matches(self.house.data, house_bump, self.authority.key) && referral_matches(
                    self.referral.data,
                    referral_bump,
                    self.referral_owner.key,
                    self.authority.key,
                ) && profile_matches(self.profile.data, profile_bump, self.player.key, self.authority.key)
                    && self.profile.data.invitation == Some(self.referral.info.key),
            ),
    {
        require_constraint(
            plinko_account_matches(&self.plinko.data, bump, id, self.player.key, self.authority.key)
                && fee_account_matches(&self.fee.data, fee_bump, self.authority.key) && house_account_matches(
                &self.house.data,
                house_bump,
                self.authority.key,
            ) && referral_account_matches(
                &self.referral.data,
                referral_bump,
                self.referral_owner.key,
                self.authority.key,
            ) && profile_account_matches(&self.profile.data, profile_bump, self.player.key, self.authority.key)
                && self.profile.data.invitation == Some(self.referral.info.key),
        )
    }
}

impl ClaimPlinko {
    /// Checks the accounts of `claim_plinko`: the game.
    pub fn check_constraints(&self, bump: u8, id: u64) -> (r: Result<(), Error>)
        ensures
            checked(r, plinko_matches(self.plinko.data, bump, id, self.player.key, self.authority.key)),
    {
        require_constraint(plinko_account_matches(&self.plinko.data, bump, id, self.player.key, self.authority.key))
    }
}

impl ClaimTokenPlinko {
    /// Checks the accounts of `claim_token_plinko`: the game.
    pub fn check_constraints(&self, bump: u8, id: u64) -> (r: Result<(), Error>)
        ensures
            checked(r, plinko_matches(self.plinko.data, bump, id, self.player.key, self.authority.key)),
    {
        require_constraint(plinko_account_matches(&self.plinko.data, bump, id, self.player.key, self.authority.key))
    }
}

} // verus!
