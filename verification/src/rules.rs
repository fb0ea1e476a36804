//! What each instruction decides, stated over its inputs with the program's numbers
//! written out: the payout cap of a reveal and how a reveal moves lamports, which games a
//! start accepts and what it records, how a house's settings change, and when a player
//! joins or leaves a DAO. The instructions' contracts speak through the spec functions
//! named here; these laws pin those functions down.

use vstd::prelude::*;

use crate::dao::{Dao, dao_claim_refusal, dao_matches};
use crate::errors::CustomErrors;
use crate::fee::{Fee, fee_matches, new_fee};
use crate::house::{
    House, HouseSettings, InitHouseSettings, MIN_BET_LAMPORTS, MIN_BET_TOKENS, house_matches, init_house_refusal,
    new_house, update_house_refusal, updated_house,
};
use crate::plinko::{
    InitPlinkoSettings, Plinko, TRANSACTION_FEE, bet_lamports, claim_refusal, fee_counting, fee_lamports, game_holders,
    game_referral, game_shared, game_team, game_won, house_counting, init_plinko_refusal, new_plinko, plinko_matches,
    reveal_refusal, revealed_plinko, settlement, token_move, token_payout_moves,
};
use crate::profile::{
    FIRST_GAME_ID, Profile, invitation_refusal, join_dao_refusal, new_profile, profile_claim_refusal, profile_matches,
};
use crate::referral::{
    DAO_REFERRAL_PERCENTAGE, MAX_PERCENTAGE, PROFILE_REFERRAL_PERCENTAGE, Referral, new_referral, referral_matches,
};
use crate::utils::{AccountInfo, Pubkey, SignerSeeds, signed_transfer};

verus! {

/// The payout of a reveal is exactly the payout asked for, or three tenths of what the
/// house holds beyond its rent (`spare`, rounded down) when that is smaller.
pub proof fn lemma_payout_is_ask_capped_at_three_tenths(payout: u64, spare: int)
    requires
        0 <= spare,
    ensures
        game_won(payout, spare) == if payout <= (spare * 3) / 10 {
            payout as int
        } else {
            (spare * 3) / 10
        },
        game_won(payout, spare) == payout <==> payout <= (spare * 3) / 10,
{
}

/// The parts of a game's fee. Without a referral account the holders take 30 and the team
/// 5 thousandths of the total bet, and nothing is shared. With one, the fee is 35
/// thousandths of the bet; a verified referral account takes its percentage of it, an
/// unverified one nothing, and of the rest the holders take 30 and the team 5 parts in 35.
pub proof fn lemma_fee_parts(bet: int, referral: Referral)
    ensures
        fee_lamports(bet) == (bet * 35) / 1000,
        game_holders(bet, None) == (bet * 30) / 1000,
        game_team(bet, None) == (bet * 5) / 1000,
        game_shared(bet, None) == 0,
        ({
            let fee = (bet * 35) / 1000;
            let rest = if referral.verified {
                (fee * (100 - referral.percentage)) / 100
            } else {
                fee
            };
            &&& game_shared(bet, Some(referral)) == if referral.verified {
                (fee * referral.percentage) / 100
            } else {
                0
            }
            &&& game_holders(bet, Some(referral)) == (rest * 30) / 35
            &&& game_team(bet, Some(referral)) == (rest * 5) / 35
        }),
{
}

/// How a settled reveal moves lamports: the house pays the game what the player won beyond
/// the bet, or takes what the player lost; then the game pays the holders' part to the fee
/// account, the referral's part to the referral account and the team's part to the
/// authority. Nothing else changes, and no address changes.
pub proof fn lemma_settlement_moves(
    plinko: AccountInfo,
    house: AccountInfo,
    fee: AccountInfo,
    referral: AccountInfo,
    authority: AccountInfo,
    bet: int,
    won: int,
    holders: int,
    shared: int,
    team: int,
)
    requires
        0 <= bet <= u64::MAX,
        0 <= won <= u64::MAX,
        0 <= holders <= u64::MAX,
        0 <= shared <= u64::MAX,
        0 <= team <= u64::MAX,
        settlement(plinko, house, fee, referral, authority, bet, won, holders, shared, team).5,
    ensures
        ({
            let s = settlement(plinko, house, fee, referral, authority, bet, won, holders, shared, team);
            &&& s.0.lamports == plinko.lamports + won - bet - holders - shared - team
            &&& s.1.lamports == house.lamports + bet - won
            &&& s.2.lamports == fee.lamports + holders
            &&& s.3.lamports == referral.lamports + shared
            &&& s.4.lamports == authority.lamports + team
            &&& s.0.key == plinko.key && s.1.key == house.key && s.2.key == fee.key
            &&& s.3.key == referral.key && s.4.key == authority.key
        }),
{
}

/// The record of a revealed game: it takes the payout, the player's DAO and the referral
/// account, and is marked revealed; everything else is as the game was started.
pub proof fn lemma_revealed_record(p: Plinko, won: u64, dao: Option<Pubkey>, referral: Option<Pubkey>)
    ensures
        ({
            let q = revealed_plinko(p, won as int, dao, referral);
            &&& q.payout == won && q.revealed && q.dao == dao && q.referral == referral
            &&& q.paid_out == p.paid_out && q.id == p.id && q.bump == p.bump
            &&& q.player == p.player && q.authority == p.authority && q.timestamp == p.timestamp
            &&& q.bet_amount == p.bet_amount && q.balls_count == p.balls_count
            &&& q.row == p.row && q.risk == p.risk && q.degen_mode == p.degen_mode
        }),
{
}

/// Exactly which games a start accepts: a board in degen mode with neither rows nor risk,
/// or any other with both, the rows between 8 and 16 and the risk at most 2; an open house;
/// a bet per ball and a number of balls within the house's limits; and a house that holds
/// more than the total bet beyond its rent (`spare`).
pub proof fn lemma_start_accepts_exactly(settings: InitPlinkoSettings, house: House, spare: int)
    ensures
        init_plinko_refusal(settings, house, spare) is None <==> {
            &&& settings.degen_mode ==> settings.row is None && settings.risk is None
            &&& !settings.degen_mode ==> settings.row is Some && settings.risk is Some
            &&& !house.paused
            &&& house.min_bet <= settings.bet_amount <= house.max_bet
            &&& house.min_balls_count <= settings.balls_count <= house.max_balls_count
            &&& spare > settings.bet_amount * settings.balls_count
            &&& settings.row matches Some(r) ==> 8 <= r <= 16
            &&& settings.risk matches Some(k) ==> k <= 2
        },
{
}

/// Which error refuses a start: the checks come in order (shape of the board, house open,
/// bet, balls, funds of the house, rows, risk), and the first that fails names the error.
pub proof fn lemma_start_refusal_order(settings: InitPlinkoSettings, house: House, spare: int)
    ensures
        ({
            let shape = if settings.degen_mode {
                settings.row is None && settings.risk is None
            } else {
                settings.row is Some && settings.risk is Some
            };
            let bet_ok = house.min_bet <= settings.bet_amount <= house.max_bet;
            let balls_ok = house.min_balls_count <= settings.balls_count <= house.max_balls_count;
            let funds_ok = spare > settings.bet_amount * settings.balls_count;
            let rows_ok = settings.row matches Some(r) ==> 8 <= r <= 16;
            let e = init_plinko_refusal(settings, house, spare);
            &&& !shape ==> e == Some(CustomErrors::InvalidInitPlinkoSettings)
            &&& shape && house.paused ==> e == Some(CustomErrors::GameIsPaused)
            &&& shape && !house.paused && !bet_ok ==> e == Some(CustomErrors::InvalidBetAmount)
            &&& shape && !house.paused && bet_ok && !balls_ok ==> e == Some(CustomErrors::InvalidBallsCount)
            &&& shape && !house.paused && bet_ok && balls_ok && !funds_ok ==> e == Some(
                CustomErrors::InsufficientFundsInHouse,
            )
            &&& shape && !house.paused && bet_ok && balls_ok && funds_ok && !rows_ok ==> e == Some(
                CustomErrors::InvalidRows,
            )
            &&& shape && !house.paused && bet_ok && balls_ok && funds_ok && rows_ok && (settings.risk matches Some(
                k,
            ) && k > 2) ==> e == Some(CustomErrors::InvalidRisk)
        }),
{
}

/// What a start records and asks the player to pay: the game takes the profile's next
/// number and the settings as given, with no payout, neither revealed nor paid out, and no
/// DAO or referral yet; the total bet is the bet per ball times the number of balls, its fee
/// 35 thousandths of it, and the transaction fee 10_000 lamports.
pub proof fn lemma_started_record(
    bump: u8,
    id: u64,
    settings: InitPlinkoSettings,
    authority: Pubkey,
    player: Pubkey,
    timestamp: i64,
)
    ensures
        ({
            let p = new_plinko(bump, id, settings, authority, player, timestamp);
            &&& p.id == id && p.bump == bump && p.authority == authority && p.player == player
            &&& p.timestamp == timestamp
            &&& p.row == settings.row && p.risk == settings.risk && p.degen_mode == settings.degen_mode
            &&& p.balls_count == settings.balls_count && p.bet_amount == settings.bet_amount
            &&& p.payout == 0 && !p.revealed && !p.paid_out && p.dao is None && p.referral is None
        }),
        bet_lamports(settings.bet_amount, settings.balls_count) == settings.bet_amount * settings.balls_count,
        fee_lamports(bet_lamports(settings.bet_amount, settings.balls_count)) == (settings.bet_amount
            * settings.balls_count * 35) / 1000,
        TRANSACTION_FEE == 10_000,
{
}

/// Exactly which changes of a house's settings are accepted, and what an accepted change
/// writes: a given minimum bet must reach `floor` (refused first, with `too_small`) and a
/// given minimum number of balls must be at least one (refused next); then each setting
/// that is given takes the given value, each that is not keeps the house's, and nothing
/// else changes. The floors are 10_000_000 lamports, and one token.
pub proof fn lemma_house_update_exact(h: House, s: HouseSettings, floor: u64, too_small: CustomErrors)
    ensures
        MIN_BET_LAMPORTS == 10_000_000 && MIN_BET_TOKENS == 1,
        (s.min_bet matches Some(m) && m < floor) ==> update_house_refusal(s, floor, too_small) == Some(too_small),
        !(s.min_bet matches Some(m) && m < floor) && (s.min_balls_count matches Some(c) && c < 1)
            ==> update_house_refusal(s, floor, too_small) == Some(CustomErrors::TooSmallMinBallsCount),
        update_house_refusal(s, floor, too_small) is None <==> (s.min_bet matches Some(m) ==> m >= floor) && (
        s.min_balls_count matches Some(c) ==> c >= 1),
        ({
            let u = updated_house(h, s);
            &&& s.paused matches Some(p) ==> u.paused == p
            &&& s.paused is None ==> u.paused == h.paused
            &&& s.min_bet matches Some(m) ==> u.min_bet == m
            &&& s.min_bet is None ==> u.min_bet == h.min_bet
            &&& s.max_bet matches Some(m) ==> u.max_bet == m
            &&& s.max_bet is None ==> u.max_bet == h.max_bet
            &&& s.min_balls_count matches Some(c) ==> u.min_balls_count == c
            &&& s.min_balls_count is None ==> u.min_balls_count == h.min_balls_count
            &&& s.max_balls_count matches Some(c) ==> u.max_balls_count == c
            &&& s.max_balls_count is None ==> u.max_balls_count == h.max_balls_count
            &&& u.bump == h.bump && u.authority == h.authority
            &&& u.volume == h.volume && u.today_volume == h.today_volume
        }),
{
}

/// Exactly which new houses are accepted, and what a new house holds: a minimum bet that
/// reaches `floor` (refused first, with `too_small`) and a minimum number of balls of at
/// least one; the house starts open, with the given limits, the given volume (or none) and
/// no volume today.
pub proof fn lemma_new_house_exact(bump: u8, settings: InitHouseSettings, authority: Pubkey, floor: u64, too_small: CustomErrors)
    ensures
        settings.min_bet < floor ==> init_house_refusal(settings, floor, too_small) == Some(too_small),
        settings.min_bet >= floor && settings.min_balls_count < 1 ==> init_house_refusal(settings, floor, too_small)
            == Some(CustomErrors::TooSmallMinBallsCount),
        init_house_refusal(settings, floor, too_small) is None <==> settings.min_bet >= floor
            && settings.min_balls_count >= 1,
        ({
            let h = new_house(bump, settings, authority);
            &&& !h.paused && h.bump == bump && h.authority == authority
            &&& h.min_bet == settings.min_bet && h.max_bet == settings.max_bet
            &&& h.min_balls_count == settings.min_balls_count && h.max_balls_count == settings.max_balls_count
            &&& settings.volume matches Some(v) ==> h.volume == v
            &&& settings.volume is None ==> h.volume == 0
            &&& h.today_volume == 0
        }),
{
}

/// Exactly when a player joins a DAO: the DAO must be verified and other than the one the
/// player is in. A player in no DAO, or in another DAO, joins a verified DAO; only the same
/// DAO is refused as `DaoAreSame`, and an unverified other one as `DaoNotVerified`.
pub proof fn lemma_join_dao_exact(profile: Profile, dao: Pubkey, verified: bool)
    ensures
        join_dao_refusal(profile, dao, verified) is None <==> profile.dao != Some(dao) && verified,
        join_dao_refusal(profile, dao, verified) == Some(CustomErrors::DaoAreSame) <==> profile.dao == Some(dao),
        join_dao_refusal(profile, dao, verified) == Some(CustomErrors::DaoNotVerified) <==> profile.dao != Some(dao)
            && !verified,
{
}

/// Exactly when a game can be revealed: not revealed yet (else `GameIsRevealed`), by the
/// instruction that matches the player's invitation: `reveal_plinko` and
/// `reveal_token_plinko` for a player who came without one (else `ProfileHasInvite`), the
/// `_with_referral` ones for a player who came with one (else `ProfileHasNotInvite`).
pub proof fn lemma_reveal_refusal_exact(p: Plinko, profile: Profile, with_referral: bool)
    ensures
        reveal_refusal(p, profile, with_referral) is None <==> !p.revealed && (with_referral <==> profile.invitation is Some),
        p.revealed ==> reveal_refusal(p, profile, with_referral) == Some(CustomErrors::GameIsRevealed),
        !p.revealed && !with_referral && profile.invitation is Some ==> reveal_refusal(p, profile, with_referral)
            == Some(CustomErrors::ProfileHasInvite),
        !p.revealed && with_referral && profile.invitation is None ==> reveal_refusal(p, profile, with_referral)
            == Some(CustomErrors::ProfileHasNotInvite),
{
}

/// Exactly when a game is paid out: once revealed (else `GameIsNotRevealed`) and only once
/// (else `GameIsClaimed`).
pub proof fn lemma_claim_refusal_exact(p: Plinko)
    ensures
        claim_refusal(p) is None <==> p.revealed && !p.paid_out,
        !p.revealed ==> claim_refusal(p) == Some(CustomErrors::GameIsNotRevealed),
        p.revealed && p.paid_out ==> claim_refusal(p) == Some(CustomErrors::GameIsClaimed),
{
}

/// Exactly when a referral account is paid out: for a DAO's, the DAO verified (else
/// `DaoNotVerified`) and the referral verified (else `ReferralNotVerified`); for a player's,
/// the referral verified; and in both, a balance above what the account keeps (else
/// `ReferralAmountIsZero`).
pub proof fn lemma_referral_claim_exact(dao: Dao, referral: Referral, balance: u64, kept: u64)
    ensures
        dao_claim_refusal(dao, referral, balance, kept) is None <==> dao.verified && referral.verified && balance > kept,
        !dao.verified ==> dao_claim_refusal(dao, referral, balance, kept) == Some(CustomErrors::DaoNotVerified),
        dao.verified && !referral.verified ==> dao_claim_refusal(dao, referral, balance, kept) == Some(
            CustomErrors::ReferralNotVerified,
        ),
        dao.verified && referral.verified && balance <= kept ==> dao_claim_refusal(dao, referral, balance, kept)
            == Some(CustomErrors::ReferralAmountIsZero),
        profile_claim_refusal(referral, balance, kept) is None <==> referral.verified && balance > kept,
        !referral.verified ==> profile_claim_refusal(referral, balance, kept) == Some(CustomErrors::ReferralNotVerified),
        referral.verified && balance <= kept ==> profile_claim_refusal(referral, balance, kept) == Some(
            CustomErrors::ReferralAmountIsZero,
        ),
{
}

/// Exactly when a player may register through an invitation: the inviting referral
/// account is verified (else `ReferralNotVerified`) and is not the player's own (else
/// `InviteOwnerAndRegistererAreSame`).
pub proof fn lemma_invitation_exact(invitation: Referral, profile: Pubkey)
    ensures
        invitation_refusal(invitation, profile) is None <==> invitation.verified && invitation.owner != profile,
        !invitation.verified ==> invitation_refusal(invitation, profile) == Some(CustomErrors::ReferralNotVerified),
        invitation.verified && invitation.owner == profile ==> invitation_refusal(invitation, profile) == Some(
            CustomErrors::InviteOwnerAndRegistererAreSame,
        ),
{
}

/// A direct move of lamports succeeds exactly when the payer holds the amount and the
/// payee's balance stays within a `u64`; then the payer has `amount` fewer and the payee
/// `amount` more, and otherwise both are as they were.
pub proof fn lemma_transfer_exact(from: AccountInfo, to: AccountInfo, amount: u64)
    ensures
        signed_transfer(from, to, amount).2 <==> from.lamports >= amount && to.lamports + amount <= u64::MAX,
        signed_transfer(from, to, amount).2 ==> {
            &&& signed_transfer(from, to, amount).0 == (AccountInfo { lamports: (from.lamports - amount) as u64, ..from })
            &&& signed_transfer(from, to, amount).1 == (AccountInfo { lamports: (to.lamports + amount) as u64, ..to })
        },
        !signed_transfer(from, to, amount).2 ==> signed_transfer(from, to, amount).0 == from && signed_transfer(
            from,
            to,
            amount,
        ).1 == to,
{
}

/// What a reveal counts: the house adds the total bet to its volume and to the day's; the
/// fee account adds the holders' part to its volume and the referral's part to its
/// referral volumes; nothing else in them changes.
pub proof fn lemma_volumes_counted(h: House, f: Fee, bet: int, holders: int, shared: int)
    requires
        0 <= bet,
        0 <= holders,
        0 <= shared,
        h.volume + bet <= u64::MAX,
        h.today_volume + bet <= u64::MAX,
        f.volume + holders <= u64::MAX,
        f.referral_volume + shared <= u64::MAX,
        f.referral_today_volume + shared <= u64::MAX,
    ensures
        house_counting(h, bet) == (House { volume: (h.volume + bet) as u64, today_volume: (h.today_volume + bet) as u64, ..h }),
        house_counting(h, bet).volume == h.volume + bet,
        house_counting(h, bet).today_volume == h.today_volume + bet,
        fee_counting(f, holders, shared).volume == f.volume + holders,
        fee_counting(f, holders, shared).referral_volume == f.referral_volume + shared,
        fee_counting(f, holders, shared).referral_today_volume == f.referral_today_volume + shared,
        fee_counting(f, holders, shared).bump == f.bump && fee_counting(f, holders, shared).authority == f.authority,
{
}

/// The referral account that a revealed game records: the player's invitation when the
/// game shares its fee with a verified referral account, and otherwise what the game
/// recorded before.
pub proof fn lemma_game_referral_exact(p: Plinko, profile: Profile, referral: Referral)
    ensures
        referral.verified ==> game_referral(p, profile, Some(referral)) == profile.invitation,
        !referral.verified ==> game_referral(p, profile, Some(referral)) == p.referral,
        game_referral(p, profile, None) == p.referral,
{
}

/// The token moves that settle a game in a token: when the player lost, one move of the
/// difference from the game's token account to the house's, signed by the game; when the
/// player won more than the bet, one move of the difference from the house's to the
/// game's, signed by the house; when they are equal, none.
pub proof fn lemma_token_payout_moves_exact(
    plinko_ata: Pubkey,
    house_ata: Pubkey,
    program: Pubkey,
    plinko: Pubkey,
    house: Pubkey,
    plinko_seeds: SignerSeeds,
    house_seeds: SignerSeeds,
    bet: int,
    won: int,
)
    ensures
        ({
            let m = token_payout_moves(plinko_ata, house_ata, program, plinko, house, plinko_seeds, house_seeds, bet, won);
            &&& bet > won ==> m == seq![token_move(plinko_ata, house_ata, bet - won, program, plinko, plinko_seeds)]
            &&& bet < won ==> m == seq![token_move(house_ata, plinko_ata, won - bet, program, house, house_seeds)]
            &&& bet == won ==> m.len() == 0
        }),
{
}

/// The records that the creating instructions write, and the program's numbers: a fee
/// account starts with the given volume and no referral volume; a referral account with
/// the given share, 40 percent for a DAO's and 20 for a player's, at most 100; a profile in
/// no DAO, whose first game is number 1.
pub proof fn lemma_new_records(
    bump: u8,
    volume: u64,
    authority: Pubkey,
    verified: bool,
    percentage: u8,
    owner: Pubkey,
    timestamp: i64,
    player: Pubkey,
    invitation: Option<Pubkey>,
)
    ensures
        new_fee(bump, volume, authority) == (Fee { bump, authority, volume, referral_volume: 0, referral_today_volume: 0 }),
        new_referral(bump, verified, percentage, owner, authority) == (Referral {
            bump,
            authority,
            owner,
            verified,
            percentage,
        }),
        DAO_REFERRAL_PERCENTAGE == 40 && PROFILE_REFERRAL_PERCENTAGE == 20 && MAX_PERCENTAGE == 100,
        FIRST_GAME_ID == 1,
        new_profile(bump, timestamp, player, authority, invitation) == (Profile {
            bump,
            authority,
            player,
            timestamp,
            next_game_id: 1,
            dao: None,
            invitation,
        }),
{
}

/// The account checks of the instructions: a record matches exactly when it was created
/// with the given bump for the given owner, player or number, and the given authority.
pub proof fn lemma_account_checks_exact(
    dao: Dao,
    fee: Fee,
    house: House,
    profile: Profile,
    referral: Referral,
    plinko: Plinko,
    bump: u8,
    id: u64,
    owner: Pubkey,
    authority: Pubkey,
)
    ensures
        dao_matches(dao, bump, owner, authority) <==> dao.bump == bump && dao.owner == owner && dao.authority == authority,
        fee_matches(fee, bump, authority) <==> fee.bump == bump && fee.authority == authority,
        house_matches(house, bump, authority) <==> house.bump == bump && house.authority == authority,
        profile_matches(profile, bump, owner, authority) <==> profile.bump == bump && profile.player == owner
            && profile.authority == authority,
        referral_matches(referral, bump, owner, authority) <==> referral.bump == bump && referral.owner == owner
            && referral.authority == authority,
        plinko_matches(plinko, bump, id, owner, authority) <==> plinko.bump == bump && plinko.id == id
            && plinko.player == owner && plinko.authority == authority,
{
}

} // verus!
