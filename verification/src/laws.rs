use vstd::prelude::*;

use crate::errors::CustomErrors;
use crate::fee::Fee;
use crate::house::{House, HouseSettings, InitHouseSettings, MIN_BALLS_COUNT, init_house_refusal, new_house, update_house_refusal, updated_house};
use crate::plinko::{
    FEE_PER_MILLE, InitPlinkoSettings, MAX_RISK, MAX_ROWS, MIN_ROWS, Plinko, bet_lamports, claim_refusal, fee_lamports,
    game_holders, game_share, game_shared, game_team, game_won, init_plinko_refusal, max_win, new_plinko,
    fee_counting, house_counting, program_share, referral_share, reveal_refusal, revealed_plinko, settle_payout,
    settlement,
};
use crate::profile::{FIRST_GAME_ID, Profile, new_profile};
use crate::referral::{DAO_REFERRAL_PERCENTAGE, MAX_PERCENTAGE, PROFILE_REFERRAL_PERCENTAGE, Referral, new_referral};
use crate::utils::{AccountInfo, Pubkey, signed_transfer};

verus! {

/// A direct move of lamports never creates or destroys any: when it succeeds the two
/// balances keep their sum, and it succeeds exactly when the payer holds the amount and
/// the payee's balance stays within range.
pub proof fn lemma_signed_transfer_conserves(from: AccountInfo, to: AccountInfo, amount: u64)
    ensures
        signed_transfer(from, to, amount).2 <==> (from.lamports >= amount && to.lamports + amount <= u64::MAX),
        signed_transfer(from, to, amount).2 ==> signed_transfer(from, to, amount).0.lamports
            + signed_transfer(from, to, amount).1.lamports == from.lamports + to.lamports,
        signed_transfer(from, to, amount).0.key == from.key,
        signed_transfer(from, to, amount).1.key == to.key,
{
}

/// Settling a game moves lamports only among the game, the house, the fee account, the
/// referral account and the authority: when every move succeeds, their total is what it
/// was.
pub proof fn lemma_settlement_conserves(
    plinko: AccountInfo,
    house: AccountInfo,
    fee: AccountInfo,
    referral: AccountInfo,
    authority: AccountInfo,
    bet: int,
    won: int,
    holders: int,
    shared: int,
    team: int,
)
    requires
        0 <= bet <= u64::MAX,
        0 <= won <= u64::MAX,
        0 <= holders <= u64::MAX,
        0 <= shared <= u64::MAX,
        0 <= team <= u64::MAX,
    ensures
        ({
            let s = settlement(plinko, house, fee, referral, authority, bet, won, holders, shared, team);
            s.5 ==> s.0.lamports + s.1.lamports + s.2.lamports + s.3.lamports + s.4.lamports
                == plinko.lamports + house.lamports + fee.lamports + referral.lamports + authority.lamports
        }),
{
}

/// The parts of a game's fee never add up to more than the fee: the program's and the
/// referral's shares together, and the holders' and the team's parts of the program's
/// share together, whatever the referral's percentage up to `MAX_PERCENTAGE`.
pub proof fn lemma_fee_parts_within_fee(bet: int, referral: Option<Referral>)
    requires
        0 <= bet,
        referral matches Some(rf) ==> rf.percentage <= MAX_PERCENTAGE,
    ensures
        0 <= game_shared(bet, referral),
        0 <= game_holders(bet, referral),
        0 <= game_team(bet, referral),
        game_share(bet, referral) + game_shared(bet, referral) <= fee_lamports(bet),
        game_holders(bet, referral) + game_team(bet, referral) <= game_share(bet, referral),
        game_holders(bet, referral) + game_shared(bet, referral) + game_team(bet, referral) <= fee_lamports(bet),
{
    let fee = fee_lamports(bet);
    assert(0 <= fee) by (nonlinear_arith)
        requires
            fee == (bet * 35) / 1000,
            0 <= bet,
    ;
    match referral {
        Some(rf) => {
            let p = rf.percentage as int;
            if rf.verified {
                let a = fee * (100 - p);
                let b = fee * p;
                assert(a + b == fee * 100 && 0 <= a && 0 <= b) by (nonlinear_arith)
                    requires
                        a == fee * (100 - p),
                        b == fee * p,
                        0 <= p <= 100,
                        0 <= fee,
                ;
                assert(program_share(fee, rf) == a / 100);
                assert(referral_share(fee, rf) == b / 100);
                assert(a / 100 + b / 100 <= fee) by (nonlinear_arith)
                    requires
                        a + b == fee * 100,
                        0 <= a,
                        0 <= b,
                ;
            }
            let share = game_share(bet, referral);
            assert(0 <= share);
            assert((share * 30) / 35 + (share * 5) / 35 <= share && 0 <= (share * 30) / 35 && 0 <= (share * 5) / 35)
                by (nonlinear_arith)
                requires
                    0 <= share,
            ;
        },
        None => {
            assert((bet * 30) / 1000 + (bet * 5) / 1000 <= (bet * 35) / 1000 && 0 <= (bet * 30) / 1000 && 0 <= (bet * 5)
                / 1000) by (nonlinear_arith)
                requires
                    0 <= bet,
            ;
        },
    }
}

/// The payout of a game is never more than the player asked for, nor more than
/// `MAX_WIN_TENTHS` tenths of what the house holds beyond its rent, which is within what
/// the house holds.
pub proof fn lemma_payout_capped(payout: u64, spare: int)
    requires
        0 <= spare,
    ensures
        0 <= game_won(payout, spare) <= payout,
        game_won(payout, spare) <= max_win(spare),
        max_win(spare) <= spare,
{
}

/// A game that holds the bet and the fee that the player paid in at its start always
/// settles: whatever the payout asked for, the house can pay it, and the parts of the fee
/// can be paid out of the fee, provided that the balances involved fit in a `u64`
/// together.
pub proof fn lemma_reveal_settles(
    plinko: AccountInfo,
    house: AccountInfo,
    fee: AccountInfo,
    referral_info: AccountInfo,
    authority: AccountInfo,
    house_rent: u64,
    bet: int,
    payout: u64,
    referral: Option<Referral>,
)
    requires
        0 <= bet,
        plinko.lamports >= bet + fee_lamports(bet),
        house.lamports >= house_rent,
        plinko.lamports + house.lamports + fee.lamports + referral_info.lamports + authority.lamports <= u64::MAX,
        referral matches Some(rf) ==> rf.percentage <= MAX_PERCENTAGE,
    ensures
        settlement(
            plinko,
            house,
            fee,
            referral_info,
            authority,
            bet,
            game_won(payout, house.lamports - house_rent),
            game_holders(bet, referral),
            game_shared(bet, referral),
            game_team(bet, referral),
        ).5,
{
    let spare = house.lamports - house_rent;
    let won = game_won(payout, spare);
    lemma_payout_capped(payout, spare);
    lemma_fee_parts_within_fee(bet, referral);
    let holders = game_holders(bet, referral);
    let shared = game_shared(bet, referral);
    let team = game_team(bet, referral);
    let s1 = settle_payout(plinko, house, bet, won);
    assert(s1.2);
    assert(s1.0.lamports + s1.1.lamports == plinko.lamports + house.lamports);
    assert(s1.0.lamports >= fee_lamports(bet));
    let s2 = signed_transfer(s1.0, fee, holders as u64);
    assert(s2.2);
    let s3 = if shared > 0 {
        signed_transfer(s2.0, referral_info, shared as u64)
    } else {
        (s2.0, referral_info, true)
    };
    assert(s3.2);
    let s4 = signed_transfer(s3.0, authority, team as u64);
    assert(s4.2);
}

/// A game is revealed once: a revealed game's record refuses any further reveal.
pub proof fn lemma_reveal_once(p: Plinko, won: int, dao: Option<Pubkey>, referral: Option<Pubkey>, profile: Profile, with_referral: bool)
    ensures
        reveal_refusal(revealed_plinko(p, won, dao, referral), profile, with_referral) == Some(CustomErrors::GameIsRevealed),
{
}

/// A game's life: a game just started cannot be paid out; once revealed it can; once paid
/// out it cannot be paid out again.
pub proof fn lemma_claim_after_reveal_once(
    bump: u8,
    id: u64,
    settings: InitPlinkoSettings,
    authority: Pubkey,
    player: Pubkey,
    timestamp: i64,
    won: int,
    dao: Option<Pubkey>,
    referral: Option<Pubkey>,
)
    ensures
        claim_refusal(new_plinko(bump, id, settings, authority, player, timestamp)) == Some(CustomErrors::GameIsNotRevealed),
        claim_refusal(revealed_plinko(new_plinko(bump, id, settings, authority, player, timestamp), won, dao, referral)) is None,
        claim_refusal(Plinko {
            paid_out: true,
            ..revealed_plinko(new_plinko(bump, id, settings, authority, player, timestamp), won, dao, referral)
        }) == Some(CustomErrors::GameIsClaimed),
{
}

/// The games that a player starts from a new profile, in order: `profiles[0]` is the
/// profile that `register` or `register_with_referral` writes, `games[i]` is the record that
/// a successful `init_plinko` or `init_token_plinko` writes from `profiles[i]`, and
/// `profiles[i + 1]` the profile that it leaves.
pub open spec fn started_in_order(
    profile_bump: u8,
    timestamp: i64,
    invitation: Option<Pubkey>,
    authority: Pubkey,
    player: Pubkey,
    profiles: Seq<Profile>,
    games: Seq<Plinko>,
    bumps: Seq<u8>,
    settings: Seq<InitPlinkoSettings>,
    times: Seq<i64>,
) -> bool {
    &&& profiles.len() == games.len() + 1
    &&& bumps.len() == games.len()
    &&& settings.len() == games.len()
    &&& times.len() == games.len()
    &&& profiles[0] == new_profile(profile_bump, timestamp, player, authority, invitation)
    &&& forall|i: int|
        0 <= i < games.len() ==> #[trigger] games[i] == new_plinko(
            bumps[i],
            profiles[i].next_game_id,
            settings[i],
            authority,
            player,
            times[i],
        ) && profiles[i + 1] == (Profile { next_game_id: (profiles[i].next_game_id + 1) as u64, ..profiles[i] })
}

proof fn lemma_next_game_id_counts_starts(
    profile_bump: u8,
    timestamp: i64,
    invitation: Option<Pubkey>,
    authority: Pubkey,
    player: Pubkey,
    profiles: Seq<Profile>,
    games: Seq<Plinko>,
    bumps: Seq<u8>,
    settings: Seq<InitPlinkoSettings>,
    times: Seq<i64>,
    k: int,
)
    requires
        started_in_order(profile_bump, timestamp, invitation, authority, player, profiles, games, bumps, settings, times),
        games.len() < u64::MAX,
        0 <= k <= games.len(),
    ensures
        profiles[k].next_game_id == k + 1,
    decreases k,
{
    if k > 0 {
        lemma_next_game_id_counts_starts(
            profile_bump, timestamp, invitation, authority, player, profiles, games, bumps, settings, times, k - 1);
        assert(games[k - 1] == new_plinko(
            bumps[k - 1],
            profiles[k - 1].next_game_id,
            settings[k - 1],
            authority,
            player,
            times[k - 1],
        ));
    }
}

/// A player's games are numbered in the order in which they start: from a new profile,
/// whose first number is `FIRST_GAME_ID`, the `k`-th game started (counting from one) gets
/// the number `k`, so no two of them share a number, and the profile's next number is one
/// more than the number of games started.
pub proof fn lemma_game_ids_count_starts(
    profile_bump: u8,
    timestamp: i64,
    invitation: Option<Pubkey>,
    authority: Pubkey,
    player: Pubkey,
    profiles: Seq<Profile>,
    games: Seq<Plinko>,
    bumps: Seq<u8>,
    settings: Seq<InitPlinkoSettings>,
    times: Seq<i64>,
)
    requires
        started_in_order(profile_bump, timestamp, invitation, authority, player, profiles, games, bumps, settings, times),
        games.len() < u64::MAX,
    ensures
        FIRST_GAME_ID == 1,
        forall|k: int| 0 <= k < games.len() ==> #[trigger] games[k].id == k + 1,
        forall|j: int, k: int| 0 <= j < k < games.len() ==> #[trigger] games[j].id < #[trigger] games[k].id,
        profiles[games.len() as int].next_game_id == games.len() + 1,
{
    assert forall|k: int| 0 <= k < games.len() implies #[trigger] games[k].id == k + 1 by {
        lemma_next_game_id_counts_starts(
            profile_bump, timestamp, invitation, authority, player, profiles, games, bumps, settings, times, k);
        assert(games[k] == new_plinko(bumps[k], profiles[k].next_game_id, settings[k], authority, player, times[k]));
    }
    lemma_next_game_id_counts_starts(
        profile_bump, timestamp, invitation, authority, player, profiles, games, bumps, settings, times, games.len() as int);
}

/// A house is sound when its minimum bet reaches the floor of its currency and its
/// minimum number of balls is at least one.
pub open spec fn house_sound(h: House, floor: u64) -> bool {
    h.min_bet >= floor && h.min_balls_count >= MIN_BALLS_COUNT
}

/// Every house is created sound, and every accepted change of its settings leaves it
/// sound (a refused change leaves the house as it was).
pub proof fn lemma_house_stays_sound(
    bump: u8,
    init: InitHouseSettings,
    authority: Pubkey,
    h: House,
    s: HouseSettings,
    floor: u64,
    too_small: CustomErrors,
)
    ensures
        init_house_refusal(init, floor, too_small) is None ==> house_sound(new_house(bump, init, authority), floor),
        house_sound(h, floor) && update_house_refusal(s, floor, too_small) is None ==> house_sound(updated_house(h, s), floor),
{
}

/// Every game that starts is well formed: a board in degen mode has neither rows nor
/// risk and any other has both, within bounds; its bet and number of balls lie within
/// the house's limits, and the house holds more than its total bet; it is neither
/// revealed nor paid out, with no payout.
pub proof fn lemma_started_game_well_formed(
    bump: u8,
    id: u64,
    settings: InitPlinkoSettings,
    house: House,
    spare: int,
    authority: Pubkey,
    player: Pubkey,
    timestamp: i64,
)
    requires
        init_plinko_refusal(settings, house, spare) is None,
    ensures
        ({
            let p = new_plinko(bump, id, settings, authority, player, timestamp);
            &&& p.degen_mode <==> (p.row is None && p.risk is None)
            &&& !p.degen_mode <==> (p.row is Some && p.risk is Some)
            &&& p.row matches Some(r) ==> MIN_ROWS <= r <= MAX_ROWS
            &&& p.risk matches Some(k) ==> k <= MAX_RISK
            &&& house.min_bet <= p.bet_amount <= house.max_bet
            &&& house.min_balls_count <= p.balls_count <= house.max_balls_count
            &&& !house.paused
            &&& spare > bet_lamports(p.bet_amount, p.balls_count)
            &&& !p.revealed && !p.paid_out && p.payout == 0
        }),
{
}

/// A referral account is sound when its share is at most `MAX_PERCENTAGE`.
pub open spec fn referral_sound(r: Referral) -> bool {
    r.percentage <= MAX_PERCENTAGE
}

/// Every referral account is created sound (a DAO's and a player's), and a change of its
/// share, accepted or refused, leaves it sound; so the fee split of a game never takes
/// more than the whole fee.
pub proof fn lemma_referral_stays_sound(r: Referral, percentage: u8, bump: u8, verified: bool, owner: Pubkey, authority: Pubkey)
    ensures
        referral_sound(new_referral(bump, verified, DAO_REFERRAL_PERCENTAGE, owner, authority)),
        referral_sound(new_referral(bump, verified, PROFILE_REFERRAL_PERCENTAGE, owner, authority)),
        referral_sound(r) ==> referral_sound(
            if percentage <= MAX_PERCENTAGE {
                Referral { percentage, ..r }
            } else {
                r
            },
        ),
{
}

/// Paying out an account above its rent-exempt balance leaves exactly that balance in it,
/// and gives the rest to the payee.
pub proof fn lemma_claim_leaves_rent(account: AccountInfo, payee: AccountInfo, rent: u64)
    requires
        account.lamports >= rent,
    ensures
        signed_transfer(account, payee, (account.lamports - rent) as u64).2 ==> {
            &&& signed_transfer(account, payee, (account.lamports - rent) as u64).0.lamports == rent
            &&& signed_transfer(account, payee, (account.lamports - rent) as u64).1.lamports == payee.lamports
                + account.lamports - rent
        },
{
}

/// The volumes only grow: a revealed game adds its total bet to both of the house's
/// volumes, and its holders' and referral's parts to the fee account's.
pub proof fn lemma_volumes_grow(h: House, f: Fee, bet: int, holders: int, shared: int)
    requires
        0 <= bet,
        0 <= holders,
        0 <= shared,
        h.volume + bet <= u64::MAX,
        h.today_volume + bet <= u64::MAX,
        f.volume + holders <= u64::MAX,
        f.referral_volume + shared <= u64::MAX,
        f.referral_today_volume + shared <= u64::MAX,
    ensures
        house_counting(h, bet).volume == h.volume + bet,
        house_counting(h, bet).today_volume == h.today_volume + bet,
        fee_counting(f, holders, shared).volume == f.volume + holders,
        fee_counting(f, holders, shared).referral_volume == f.referral_volume + shared,
        fee_counting(f, holders, shared).referral_today_volume == f.referral_today_volume + shared,
{
}

/// On a reveal in the native currency that succeeds (`reveal_plinko`, with no referral
/// account and the authority in its place, or `reveal_plinko_with_referral`), what leaves
/// the game for the fee account, the referral account and the authority is exactly the
/// holders', the referral's and the team's parts, and together they are never more than
/// the fee that the player paid in: the split never takes from the bet or the payout.
pub proof fn lemma_reveal_fee_split(
    plinko: AccountInfo,
    house: AccountInfo,
    fee: AccountInfo,
    referral_info: AccountInfo,
    authority: AccountInfo,
    bet: int,
    won: int,
    referral: Option<Referral>,
)
    requires
        0 <= bet,
        0 <= won,
        bet * FEE_PER_MILLE <= u64::MAX,
        referral matches Some(rf) ==> rf.percentage <= MAX_PERCENTAGE,
        settlement(
            plinko,
            house,
            fee,
            referral_info,
            authority,
            bet,
            won,
            game_holders(bet, referral),
            game_shared(bet, referral),
            game_team(bet, referral),
        ).5,
    ensures
        ({
            let s = settlement(
                plinko,
                house,
                fee,
                referral_info,
                authority,
                bet,
                won,
                game_holders(bet, referral),
                game_shared(bet, referral),
                game_team(bet, referral),
            );
            &&& s.2.lamports - fee.lamports == game_holders(bet, referral)
            &&& s.3.lamports - referral_info.lamports == game_shared(bet, referral)
            &&& s.4.lamports - authority.lamports == game_team(bet, referral)
            &&& game_holders(bet, referral) + game_shared(bet, referral) + game_team(bet, referral) <= fee_lamports(bet)
        }),
{
    lemma_fee_parts_within_fee(bet, referral);
    assert(fee_lamports(bet) <= u64::MAX) by (nonlinear_arith)
        requires
            bet * FEE_PER_MILLE <= u64::MAX,
            0 <= bet,
    ;
}

/// The fee of a game less its holders' and team's parts, when it shares nothing: the
/// rounding remainder, which is 0 or 1.
proof fn lemma_fee_remainder(bet: int)
    requires
        0 <= bet,
    ensures
        0 <= fee_lamports(bet) - game_holders(bet, None) - game_team(bet, None) <= 1,
{
    let a = bet * 30;
    let b = bet * 5;
    vstd::arithmetic::div_mod::lemma_fundamental_div_mod(a, 1000);
    vstd::arithmetic::div_mod::lemma_fundamental_div_mod(b, 1000);
    vstd::arithmetic::div_mod::lemma_fundamental_div_mod(a + b, 1000);
    vstd::arithmetic::div_mod::lemma_mod_bound(a, 1000);
    vstd::arithmetic::div_mod::lemma_mod_bound(b, 1000);
    vstd::arithmetic::div_mod::lemma_mod_bound(a + b, 1000);
    assert(bet * 35 == a + b);
}

/// Over a whole game in the native currency, the player gets back the payout and the fee's
/// rounding remainder. A game account that holds its rent and what `init_plinko` asked the
/// player to pay into it (the total bet and its fee), revealed by `reveal_plinko` with the
/// payout `won`, can always be paid out by `claim_plinko` when the player's balance stays
/// within a `u64`: the claim succeeds, pays the player `won` plus the fee less its holders'
/// and team's parts, a remainder of 0 or 1 lamport, and the game keeps its rent.
pub proof fn lemma_player_receives_payout(
    plinko: AccountInfo,
    house: AccountInfo,
    fee: AccountInfo,
    authority: AccountInfo,
    player: AccountInfo,
    rent: u64,
    bet: int,
    won: u64,
)
    requires
        0 <= bet,
        bet * FEE_PER_MILLE <= u64::MAX,
        plinko.lamports == rent + bet + fee_lamports(bet),
        settlement(plinko, house, fee, authority, authority, bet, won as int, game_holders(bet, None), 0, game_team(bet, None)).5,
        player.lamports + won + (fee_lamports(bet) - game_holders(bet, None) - game_team(bet, None)) <= u64::MAX,
    ensures
        ({
            let s = settlement(plinko, house, fee, authority, authority, bet, won as int, game_holders(bet, None), 0, game_team(bet, None));
            let c = signed_transfer(s.0, player, (s.0.lamports - rent) as u64);
            &&& c.2
            &&& c.0.lamports == rent
            &&& c.1.lamports == player.lamports + won + (fee_lamports(bet) - game_holders(bet, None) - game_team(bet, None))
        }),
        0 <= fee_lamports(bet) - game_holders(bet, None) - game_team(bet, None) <= 1,
{
    lemma_fee_parts_within_fee(bet, None);
    lemma_fee_remainder(bet);
    assert(fee_lamports(bet) <= u64::MAX) by (nonlinear_arith)
        requires
            bet * FEE_PER_MILLE <= u64::MAX,
            0 <= bet,
    ;
}

/// What one instruction does to a referral account's record, as the instructions'
/// contracts state it: it is verified or unverified (`verify_dao`, `unverify_dao`,
/// `unverify_profile_referral`), its share is changed to an accepted percentage
/// (`change_percentage_of_dao_referral`, `change_percentage_of_profile_referral`), or it is
/// left as it was (every other instruction, and a refused change of its share).
pub open spec fn referral_step(r: Referral, next: Referral) -> bool {
    ||| next == r
    ||| next == (Referral { verified: true, ..r })
    ||| next == (Referral { verified: false, ..r })
    ||| next == (Referral { percentage: next.percentage, ..r }) && next.percentage <= MAX_PERCENTAGE
}

proof fn lemma_referral_sequence_sound(rs: Seq<Referral>, k: int)
    requires
        0 < rs.len(),
        referral_sound(rs[0]),
        forall|i: int| 0 <= i < rs.len() - 1 ==> #[trigger] referral_step(rs[i], rs[i + 1]),
        0 <= k < rs.len(),
    ensures
        referral_sound(rs[k]),
    decreases k,
{
    if k > 0 {
        lemma_referral_sequence_sound(rs, k - 1);
        let j = k - 1;
        assert(referral_step(rs[j], rs[j + 1]));
    }
}

/// A referral account's share never exceeds `MAX_PERCENTAGE`, whatever instructions touch
/// it: created by `create_dao` (with `DAO_REFERRAL_PERCENTAGE`) or by `register` or
/// `register_with_referral` (with `PROFILE_REFERRAL_PERCENTAGE`), and then changed by any
/// sequence of instructions, its record stays sound after every one, so that the
/// referral's and the program's shares of a fee never leave the range of the fee.
pub proof fn lemma_referral_share_bounded(
    rs: Seq<Referral>,
    bump: u8,
    verified: bool,
    owner: Pubkey,
    authority: Pubkey,
    for_dao: bool,
)
    requires
        0 < rs.len(),
        rs[0] == new_referral(
            bump,
            verified,
            if for_dao {
                DAO_REFERRAL_PERCENTAGE
            } else {
                PROFILE_REFERRAL_PERCENTAGE
            },
            owner,
            authority,
        ),
        forall|i: int| 0 <= i < rs.len() - 1 ==> #[trigger] referral_step(rs[i], rs[i + 1]),
    ensures
        forall|k: int| 0 <= k < rs.len() ==> #[trigger] referral_sound(rs[k]),
{
    assert forall|k: int| 0 <= k < rs.len() implies #[trigger] referral_sound(rs[k]) by {
        lemma_referral_sequence_sound(rs, k);
    }
}

} // verus!
