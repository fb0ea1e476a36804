use sae_games::{
    Account, AccountInfo, ClaimPlinko, ClaimTokenPlinko, Cpi, CustomErrors, Error, Fee, House, InitPlinko,
    InitPlinkoSettings, InitTokenPlinko, Plinko, Profile, ProgramError, Pubkey, Referral, Register, RevealPlinko,
    RevealPlinkoWithReferral, RevealTokenPlinko, RevealTokenPlinkoWithReferral, SignerSeeds, TokenAccount,
    claim_plinko, claim_plinko_in_bounds, claim_token_plinko, init_plinko, init_plinko_in_bounds, init_token_plinko,
    init_token_plinko_in_bounds, reveal_plinko, reveal_plinko_in_bounds, reveal_plinko_with_referral,
    reveal_plinko_with_referral_in_bounds, reveal_token_plinko, reveal_token_plinko_in_bounds,
    register, reveal_token_plinko_with_referral, reveal_token_plinko_with_referral_in_bounds,
};

const PLAYER: u128 = 2;
const AUTHORITY: u128 = 1;
const GAME: u128 = 10;
const FEE: u128 = 11;
const HOUSE: u128 = 12;
const PROFILE: u128 = 13;
const REFERRAL: u128 = 14;
const MINT: u128 = 40;
const PROGRAM: u128 = 99;

fn key(n: u128) -> Pubkey {
    Pubkey { hi: 3, lo: n }
}

fn info(n: u128, lamports: u64) -> AccountInfo {
    AccountInfo { key: key(n), lamports }
}

fn acct<T>(n: u128, lamports: u64, data: T) -> Account<T> {
    Account { info: info(n, lamports), data }
}

fn ata(n: u128, amount: u64) -> Account<TokenAccount> {
    acct(n + 100, 0, TokenAccount { amount })
}

fn house() -> House {
    House {
        bump: 5,
        authority: key(AUTHORITY),
        paused: false,
        volume: 1_000,
        today_volume: 100,
        min_bet: 10_000_000,
        max_bet: 1_000_000_000,
        min_balls_count: 1,
        max_balls_count: 10,
    }
}

fn fee() -> Fee {
    Fee { bump: 4, authority: key(AUTHORITY), volume: 7, referral_volume: 3, referral_today_volume: 1 }
}

fn profile(invitation: Option<Pubkey>) -> Profile {
    Profile {
        bump: 6,
        authority: key(AUTHORITY),
        player: key(PLAYER),
        timestamp: 0,
        next_game_id: 4,
        dao: Some(key(77)),
        invitation,
    }
}

fn settings() -> InitPlinkoSettings {
    InitPlinkoSettings { row: Some(12), risk: Some(1), degen_mode: false, balls_count: 2, bet_amount: 100_000_000 }
}

fn game() -> Plinko {
    Plinko {
        bump: 8,
        id: 4,
        authority: key(AUTHORITY),
        player: key(PLAYER),
        row: Some(12),
        risk: Some(1),
        degen_mode: false,
        balls_count: 2,
        bet_amount: 100_000_000,
        payout: 0,
        timestamp: 11,
        revealed: false,
        paid_out: false,
        dao: None,
        referral: None,
    }
}

fn blank_game() -> Plinko {
    Plinko { row: None, risk: None, balls_count: 0, bet_amount: 0, id: 0, bump: 0, timestamp: 0, ..game() }
}

fn init_ctx() -> InitPlinko {
    InitPlinko {
        plinko: acct(GAME, 0, blank_game()),
        house: acct(HOUSE, 10_000_000_000, house()),
        profile: acct(PROFILE, 0, profile(None)),
        player: info(PLAYER, 0),
        authority: info(AUTHORITY, 0),
        house_rent: 1_000_000,
    }
}

fn refused(e: CustomErrors) -> Error {
    Error::Custom(e)
}

#[test]
fn init_plinko_starts_game() {
    let mut ctx = init_ctx();
    assert!(init_plinko_in_bounds(&ctx, &settings()));
    let r = init_plinko(&mut ctx, 8, 5, 6, settings(), 11);
    // bet 200_000_000, fee 3.5% = 7_000_000
    assert_eq!(
        r,
        Ok(vec![
            Cpi::SystemTransfer { from: key(PLAYER), to: key(GAME), amount: 207_000_000 },
            Cpi::SystemTransfer { from: key(PLAYER), to: key(AUTHORITY), amount: 10_000 },
        ])
    );
    assert_eq!(ctx.plinko.data, game());
    assert_eq!(ctx.profile.data.next_game_id, 5);
}

#[test]
fn init_plinko_refusals() {
    let cases: Vec<(InitPlinkoSettings, CustomErrors)> = vec![
        (InitPlinkoSettings { degen_mode: true, ..settings() }, CustomErrors::InvalidInitPlinkoSettings),
        (InitPlinkoSettings { risk: None, ..settings() }, CustomErrors::InvalidInitPlinkoSettings),
        (InitPlinkoSettings { bet_amount: 9_999_999, ..settings() }, CustomErrors::InvalidBetAmount),
        (InitPlinkoSettings { bet_amount: 1_000_000_001, ..settings() }, CustomErrors::InvalidBetAmount),
        (InitPlinkoSettings { balls_count: 0, ..settings() }, CustomErrors::InvalidBallsCount),
        (InitPlinkoSettings { balls_count: 11, ..settings() }, CustomErrors::InvalidBallsCount),
        (InitPlinkoSettings { row: Some(7), ..settings() }, CustomErrors::InvalidRows),
        (InitPlinkoSettings { row: Some(17), ..settings() }, CustomErrors::InvalidRows),
    ];
    for (s, e) in cases {
        let mut ctx = init_ctx();
        assert_eq!(init_plinko(&mut ctx, 8, 5, 6, s, 11), Err(refused(e)));
        assert_eq!(ctx.plinko.data, blank_game());
        assert_eq!(ctx.profile.data.next_game_id, 4);
    }
    let mut ctx = init_ctx();
    ctx.house.data.paused = true;
    assert_eq!(init_plinko(&mut ctx, 8, 5, 6, settings(), 11), Err(refused(CustomErrors::GameIsPaused)));
    let mut ctx = init_ctx();
    ctx.house.info.lamports = 201_000_000;
    assert_eq!(init_plinko(&mut ctx, 8, 5, 6, settings(), 11), Err(refused(CustomErrors::InsufficientFundsInHouse)));
    // a refused risk leaves the game and the profile as they were
    let mut ctx = init_ctx();
    let before = ctx;
    let s = InitPlinkoSettings { risk: Some(3), ..settings() };
    assert_eq!(init_plinko(&mut ctx, 8, 5, 6, s, 11), Err(refused(CustomErrors::InvalidRisk)));
    assert_eq!(ctx.plinko.data, before.plinko.data);
    assert_eq!(ctx.profile.data, before.profile.data);
}

#[test]
fn init_plinko_degen_mode() {
    let mut ctx = init_ctx();
    let s = InitPlinkoSettings { row: None, risk: None, degen_mode: true, ..settings() };
    assert!(init_plinko(&mut ctx, 8, 5, 6, s, 11).is_ok());
    assert!(ctx.plinko.data.degen_mode);
    assert_eq!(ctx.plinko.data.row, None);
}

#[test]
fn init_plinko_out_of_bounds() {
    let mut ctx = init_ctx();
    ctx.house.info.lamports = 10;
    assert!(!init_plinko_in_bounds(&ctx, &settings()));
    // an accepted bet whose fee would overflow
    let mut ctx = init_ctx();
    ctx.house.data.max_bet = u64::MAX;
    let s = InitPlinkoSettings { bet_amount: u64::MAX / 10, ..settings() };
    assert!(!init_plinko_in_bounds(&ctx, &s));
}

#[test]
fn init_token_plinko_starts_game() {
    let mut ctx = InitTokenPlinko {
        plinko_ata: ata(GAME, 0),
        plinko: acct(GAME, 0, blank_game()),
        house_ata: ata(HOUSE, 1_000_000_000),
        house: acct(HOUSE, 0, House { min_bet: 1, ..house() }),
        profile: acct(PROFILE, 0, profile(None)),
        player_ata: ata(PLAYER, 500_000_000),
        player: info(PLAYER, 0),
        authority: info(AUTHORITY, 0),
        token_program: info(PROGRAM, 0),
    };
    assert!(init_token_plinko_in_bounds(&ctx, &settings()));
    assert_eq!(
        init_token_plinko(&mut ctx, 8, 5, 6, settings(), 11),
        Ok(vec![
            Cpi::TokenTransfer {
                from: key(PLAYER + 100),
                to: key(GAME + 100),
                amount: 207_000_000,
                program: key(PROGRAM),
                authority: key(PLAYER),
                seeds: None,
            },
            Cpi::SystemTransfer { from: key(PLAYER), to: key(AUTHORITY), amount: 10_000 },
        ])
    );
    assert_eq!(ctx.plinko.data, game());
    ctx.house_ata.data.amount = 200_000_000;
    ctx.plinko.data = blank_game();
    assert_eq!(init_token_plinko(&mut ctx, 8, 5, 6, settings(), 11), Err(refused(CustomErrors::InsufficientFundsInHouse)));
}

fn reveal_ctx(game_lamports: u64) -> RevealPlinko {
    RevealPlinko {
        plinko: acct(GAME, game_lamports, game()),
        fee: acct(FEE, 500, fee()),
        house: acct(HOUSE, 1_001_000_000, house()),
        profile: acct(PROFILE, 0, profile(None)),
        player: info(PLAYER, 0),
        authority: info(AUTHORITY, 0),
        house_rent: 1_000_000,
    }
}

fn total(ctx: &RevealPlinko) -> u128 {
    [ctx.plinko.info.lamports, ctx.house.info.lamports, ctx.fee.info.lamports, ctx.authority.lamports]
        .iter()
        .map(|x| *x as u128)
        .sum()
}

#[test]
fn reveal_plinko_loss() {
    // bet 200_000_000, payout 50_000_000: the house takes 150_000_000
    let mut ctx = reveal_ctx(208_000_000);
    let before = total(&ctx);
    assert!(reveal_plinko_in_bounds(&ctx));
    assert_eq!(reveal_plinko(&mut ctx, 8, 4, 5, 6, 4, 50_000_000), Ok(()));
    assert_eq!(ctx.plinko.data, Plinko { payout: 50_000_000, dao: Some(key(77)), revealed: true, ..game() });
    assert_eq!(ctx.house.info.lamports, 1_151_000_000);
    assert_eq!(ctx.fee.info.lamports, 500 + 6_000_000);
    assert_eq!(ctx.authority.lamports, 1_000_000);
    assert_eq!(ctx.plinko.info.lamports, 208_000_000 - 150_000_000 - 7_000_000);
    assert_eq!(ctx.house.data.volume, 1_000 + 200_000_000);
    assert_eq!(ctx.house.data.today_volume, 100 + 200_000_000);
    assert_eq!(ctx.fee.data, Fee { volume: 7 + 6_000_000, ..fee() });
    assert_eq!(total(&ctx), before);
}

#[test]
fn reveal_plinko_win_is_capped() {
    // the house holds 1_000_000_000 beyond its rent: a win is capped at 300_000_000
    let mut ctx = reveal_ctx(208_000_000);
    let before = total(&ctx);
    assert_eq!(reveal_plinko(&mut ctx, 8, 4, 5, 6, 4, 900_000_000), Ok(()));
    assert_eq!(ctx.plinko.data.payout, 300_000_000);
    assert_eq!(ctx.house.info.lamports, 1_001_000_000 - 100_000_000);
    assert_eq!(ctx.plinko.info.lamports, 208_000_000 + 100_000_000 - 7_000_000);
    assert_eq!(total(&ctx), before);
}

#[test]
fn reveal_plinko_even() {
    let mut ctx = reveal_ctx(208_000_000);
    assert_eq!(reveal_plinko(&mut ctx, 8, 4, 5, 6, 4, 200_000_000), Ok(()));
    assert_eq!(ctx.house.info.lamports, 1_001_000_000);
    assert_eq!(ctx.plinko.info.lamports, 201_000_000);
}

#[test]
fn reveal_plinko_refusals() {
    let mut ctx = reveal_ctx(208_000_000);
    assert_eq!(reveal_plinko(&mut ctx, 8, 4, 5, 6, 4, 0), Ok(()));
    let after = ctx;
    assert_eq!(reveal_plinko(&mut ctx, 8, 4, 5, 6, 4, 0), Err(refused(CustomErrors::GameIsRevealed)));
    assert_eq!(ctx.plinko.data, after.plinko.data);
    assert_eq!(ctx.plinko.info, after.plinko.info);
    let mut ctx = reveal_ctx(208_000_000);
    ctx.profile.data.invitation = Some(key(REFERRAL));
    assert_eq!(reveal_plinko(&mut ctx, 8, 4, 5, 6, 4, 0), Err(refused(CustomErrors::ProfileHasInvite)));
    assert!(!ctx.plinko.data.revealed);
}

#[test]
fn reveal_plinko_underfunded_game_fails_to_move() {
    // a game account that holds less than the bet cannot pay the house
    let mut ctx = reveal_ctx(1_000);
    let before = ctx;
    assert_eq!(reveal_plinko(&mut ctx, 8, 4, 5, 6, 4, 0), Err(Error::Program(ProgramError::InvalidArgument)));
    // nothing is written: neither the records nor the balances
    assert_eq!(ctx.plinko.data, before.plinko.data);
    assert_eq!(ctx.house.data, before.house.data);
    assert_eq!(ctx.fee.data, before.fee.data);
    assert_eq!((ctx.plinko.info, ctx.house.info, ctx.fee.info), (before.plinko.info, before.house.info, before.fee.info));
    let mut ctx = reveal_ctx(1_000);
    ctx.house.data.volume = u64::MAX;
    assert!(!reveal_plinko_in_bounds(&ctx));
}

fn referral_ctx(verified: bool, percentage: u8) -> RevealPlinkoWithReferral {
    RevealPlinkoWithReferral {
        plinko: acct(GAME, 208_000_000, game()),
        fee: acct(FEE, 0, fee()),
        house: acct(HOUSE, 1_001_000_000, house()),
        referral: acct(REFERRAL, 0, Referral { bump: 2, authority: key(AUTHORITY), owner: key(PROFILE + 1), verified, percentage }),
        referral_owner: info(PROFILE + 1, 0),
        profile: acct(PROFILE, 0, profile(Some(key(REFERRAL)))),
        player: info(PLAYER, 0),
        authority: info(AUTHORITY, 0),
        house_rent: 1_000_000,
    }
}

#[test]
fn reveal_with_referral_shares_fee() {
    // fee 7_000_000; the referral takes 40% (2_800_000); of 4_200_000 the holders take 30/35
    let mut ctx = referral_ctx(true, 40);
    assert!(reveal_plinko_with_referral_in_bounds(&ctx));
    assert_eq!(reveal_plinko_with_referral(&mut ctx, 8, 4, 5, 6, 2, 4, 200_000_000), Ok(()));
    assert_eq!(ctx.referral.info.lamports, 2_800_000);
    assert_eq!(ctx.fee.info.lamports, 3_600_000);
    assert_eq!(ctx.authority.lamports, 600_000);
    assert_eq!(ctx.plinko.info.lamports, 201_000_000);
    assert_eq!(ctx.plinko.data.referral, Some(key(REFERRAL)));
    assert_eq!(ctx.fee.data, Fee { volume: 7 + 3_600_000, referral_volume: 3 + 2_800_000, referral_today_volume: 1 + 2_800_000, ..fee() });
}

#[test]
fn reveal_with_unverified_referral_keeps_fee() {
    let mut ctx = referral_ctx(false, 40);
    assert_eq!(reveal_plinko_with_referral(&mut ctx, 8, 4, 5, 6, 2, 4, 200_000_000), Ok(()));
    assert_eq!(ctx.referral.info.lamports, 0);
    assert_eq!(ctx.fee.info.lamports, 6_000_000);
    assert_eq!(ctx.authority.lamports, 1_000_000);
    assert_eq!(ctx.plinko.data.referral, None);
    assert_eq!(ctx.fee.data.referral_volume, 3);
}

#[test]
fn reveal_with_referral_refusals() {
    let mut ctx = referral_ctx(true, 40);
    ctx.profile.data.invitation = None;
    assert_eq!(
        reveal_plinko_with_referral(&mut ctx, 8, 4, 5, 6, 2, 4, 0),
        Err(refused(CustomErrors::ProfileHasNotInvite))
    );
    let mut ctx = referral_ctx(true, 40);
    ctx.plinko.data.revealed = true;
    assert_eq!(reveal_plinko_with_referral(&mut ctx, 8, 4, 5, 6, 2, 4, 0), Err(refused(CustomErrors::GameIsRevealed)));
    let ctx = referral_ctx(true, 101);
    assert!(!reveal_plinko_with_referral_in_bounds(&ctx));
}

fn game_seeds() -> SignerSeeds {
    SignerSeeds::Plinko { player: key(PLAYER), mint: key(MINT), authority: key(AUTHORITY), id: 4, bump: 8 }
}

fn house_seeds() -> SignerSeeds {
    SignerSeeds::House { mint: key(MINT), authority: key(AUTHORITY), bump: 5 }
}

fn token_move(from: u128, to: u128, amount: u64, authority: u128, seeds: SignerSeeds) -> Cpi {
    Cpi::TokenTransfer { from: key(from), to: key(to), amount, program: key(PROGRAM), authority: key(authority), seeds: Some(seeds) }
}

#[test]
fn reveal_token_plinko_moves() {
    let base = RevealTokenPlinko {
        plinko_ata: ata(GAME, 207_000_000),
        plinko: acct(GAME, 0, game()),
        fee_ata: ata(FEE, 0),
        fee: acct(FEE, 0, fee()),
        house_ata: ata(HOUSE, 1_000_000_000),
        house: acct(HOUSE, 0, house()),
        profile: acct(PROFILE, 0, profile(None)),
        player: info(PLAYER, 0),
        authority_ata: ata(AUTHORITY, 0),
        authority: info(AUTHORITY, 0),
        mint: info(MINT, 0),
        token_program: info(PROGRAM, 0),
    };
    let mut ctx = base;
    assert!(reveal_token_plinko_in_bounds(&ctx));
    assert_eq!(
        reveal_token_plinko(&mut ctx, 8, 4, 5, 6, 4, 50_000_000),
        Ok(vec![
            token_move(GAME + 100, HOUSE + 100, 150_000_000, GAME, game_seeds()),
            token_move(GAME + 100, FEE + 100, 6_000_000, GAME, game_seeds()),
            token_move(GAME + 100, AUTHORITY + 100, 1_000_000, GAME, game_seeds()),
        ])
    );
    assert!(ctx.plinko.data.revealed);
    assert_eq!(ctx.house.data.volume, 200_001_000);
    let mut ctx = base;
    assert_eq!(
        reveal_token_plinko(&mut ctx, 8, 4, 5, 6, 4, 250_000_000),
        Ok(vec![
            token_move(HOUSE + 100, GAME + 100, 50_000_000, HOUSE, house_seeds()),
            token_move(GAME + 100, FEE + 100, 6_000_000, GAME, game_seeds()),
            token_move(GAME + 100, AUTHORITY + 100, 1_000_000, GAME, game_seeds()),
        ])
    );
    let mut ctx = base;
    assert_eq!(
        reveal_token_plinko(&mut ctx, 8, 4, 5, 6, 4, 200_000_000),
        Ok(vec![
            token_move(GAME + 100, FEE + 100, 6_000_000, GAME, game_seeds()),
            token_move(GAME + 100, AUTHORITY + 100, 1_000_000, GAME, game_seeds()),
        ])
    );
    let mut ctx = base;
    ctx.profile.data.invitation = Some(key(REFERRAL));
    assert_eq!(reveal_token_plinko(&mut ctx, 8, 4, 5, 6, 4, 0), Err(refused(CustomErrors::ProfileHasInvite)));
}

#[test]
fn reveal_token_plinko_with_referral_moves() {
    let base = RevealTokenPlinkoWithReferral {
        plinko_ata: ata(GAME, 207_000_000),
        plinko: acct(GAME, 0, game()),
        fee_ata: ata(FEE, 0),
        fee: acct(FEE, 0, fee()),
        house_ata: ata(HOUSE, 1_000_000_000),
        house: acct(HOUSE, 0, house()),
        referral_ata: ata(REFERRAL, 0),
        referral: acct(REFERRAL, 0, Referral { bump: 2, authority: key(AUTHORITY), owner: key(PROFILE + 1), verified: true, percentage: 20 }),
        referral_owner: info(PROFILE + 1, 0),
        profile: acct(PROFILE, 0, profile(Some(key(REFERRAL)))),
        player: info(PLAYER, 0),
        authority_ata: ata(AUTHORITY, 0),
        authority: info(AUTHORITY, 0),
        mint: info(MINT, 0),
        token_program: info(PROGRAM, 0),
    };
    let mut ctx = base;
    assert!(reveal_token_plinko_with_referral_in_bounds(&ctx));
    // fee 7_000_000: referral 1_400_000; of 5_600_000 the holders 4_800_000, the team 800_000
    assert_eq!(
        reveal_token_plinko_with_referral(&mut ctx, 8, 4, 5, 6, 2, 4, 200_000_000),
        Ok(vec![
            token_move(GAME + 100, FEE + 100, 4_800_000, GAME, game_seeds()),
            token_move(GAME + 100, REFERRAL + 100, 1_400_000, GAME, game_seeds()),
            token_move(GAME + 100, AUTHORITY + 100, 800_000, GAME, game_seeds()),
        ])
    );
    assert_eq!(ctx.fee.data.referral_today_volume, 1 + 1_400_000);
    let mut ctx = base;
    ctx.referral.data.verified = false;
    assert_eq!(
        reveal_token_plinko_with_referral(&mut ctx, 8, 4, 5, 6, 2, 4, 200_000_000),
        Ok(vec![
            token_move(GAME + 100, FEE + 100, 6_000_000, GAME, game_seeds()),
            token_move(GAME + 100, AUTHORITY + 100, 1_000_000, GAME, game_seeds()),
        ])
    );
}

#[test]
fn claim_plinko_pays_once() {
    let base = ClaimPlinko {
        plinko: acct(GAME, 50_000_000, game()),
        player: info(PLAYER, 5),
        authority: info(AUTHORITY, 0),
        plinko_rent: 2_000_000,
    };
    assert_eq!(base.check_constraints(8, 4), Ok(()));
    assert_eq!(base.check_constraints(8, 5), Err(Error::ConstraintRaw));
    let mut ctx = base;
    assert_eq!(claim_plinko(&mut ctx, 8, 4), Err(refused(CustomErrors::GameIsNotRevealed)));
    ctx.plinko.data.revealed = true;
    assert!(claim_plinko_in_bounds(&ctx));
    assert_eq!(claim_plinko(&mut ctx, 8, 4), Ok(()));
    assert_eq!((ctx.plinko.info.lamports, ctx.player.lamports), (2_000_000, 48_000_005));
    assert!(ctx.plinko.data.paid_out);
    assert_eq!(claim_plinko(&mut ctx, 8, 4), Err(refused(CustomErrors::GameIsClaimed)));
    let short = ClaimPlinko { plinko: acct(GAME, 10, Plinko { revealed: true, ..game() }), ..base };
    assert!(!claim_plinko_in_bounds(&short));
}

#[test]
fn claim_token_plinko_pays_and_closes() {
    let mut ctx = ClaimTokenPlinko {
        plinko_ata: ata(GAME, 300_000_000),
        plinko: acct(GAME, 0, Plinko { revealed: true, ..game() }),
        player_ata: ata(PLAYER, 0),
        player: info(PLAYER, 0),
        authority: info(AUTHORITY, 0),
        mint: info(MINT, 0),
        token_program: info(PROGRAM, 0),
    };
    assert_eq!(
        claim_token_plinko(&mut ctx, 8, 4),
        Ok(vec![
            token_move(GAME + 100, PLAYER + 100, 300_000_000, GAME, game_seeds()),
            Cpi::CloseAccount {
                account: key(GAME + 100),
                destination: key(PLAYER),
                program: key(PROGRAM),
                authority: key(GAME),
                seeds: game_seeds(),
            },
        ])
    );
    assert!(ctx.plinko.data.paid_out);
    assert_eq!(claim_token_plinko(&mut ctx, 8, 4), Err(refused(CustomErrors::GameIsClaimed)));
}

#[test]
fn game_lifecycle_conserves_lamports() {
    // start: the player pays 207_000_000 into the game account (rent 1_500_000 already there)
    let mut start = init_ctx();
    let cpis = init_plinko(&mut start, 8, 5, 6, settings(), 11).unwrap();
    let paid = match cpis[0] {
        Cpi::SystemTransfer { amount, .. } => amount,
        _ => unreachable!(),
    };
    let mut reveal = reveal_ctx(1_500_000 + paid);
    reveal.plinko.data = start.plinko.data;
    let before = total(&reveal);
    assert_eq!(reveal_plinko(&mut reveal, 8, 4, 5, 6, 4, 123_456_789), Ok(()));
    assert_eq!(total(&reveal), before);
    let mut claim = ClaimPlinko { plinko: reveal.plinko, player: info(PLAYER, 0), authority: info(AUTHORITY, 0), plinko_rent: 1_500_000 };
    assert_eq!(claim_plinko(&mut claim, 8, 4), Ok(()));
    // the player gets the payout back: the fee went to holders and team
    assert_eq!(claim.player.lamports, 123_456_789);
    assert_eq!(claim.plinko.info.lamports, 1_500_000);
}

#[test]
fn constraints_of_game_accounts() {
    let ctx = reveal_ctx(208_000_000);
    assert_eq!(ctx.check_constraints(8, 4, 5, 6, 4), Ok(()));
    assert_eq!(ctx.check_constraints(8, 4, 5, 6, 3), Err(Error::ConstraintRaw));
    assert_eq!(ctx.check_constraints(8, 3, 5, 6, 4), Err(Error::ConstraintRaw));
    let ctx = referral_ctx(true, 20);
    assert_eq!(ctx.check_constraints(8, 4, 5, 6, 2, 4), Ok(()));
    let mut wrong_invite = referral_ctx(true, 20);
    wrong_invite.profile.data.invitation = Some(key(REFERRAL + 1));
    assert_eq!(wrong_invite.check_constraints(8, 4, 5, 6, 2, 4), Err(Error::ConstraintRaw));
    let start = init_ctx();
    assert_eq!(start.check_constraints(5, 6), Ok(()));
    assert_eq!(start.check_constraints(5, 7), Err(Error::ConstraintRaw));
}

#[test]
fn consecutive_games_take_consecutive_ids() {
    let mut first = init_ctx();
    assert!(init_plinko(&mut first, 8, 5, 6, settings(), 11).is_ok());
    let mut second = init_ctx();
    second.profile = first.profile;
    assert!(init_plinko(&mut second, 9, 5, 6, settings(), 12).is_ok());
    assert_eq!(first.plinko.data.id, 4);
    assert_eq!(second.plinko.data.id, 5);
    assert_eq!(second.profile.data.next_game_id, 6);
}

#[test]
fn games_of_a_new_profile_are_numbered_from_one() {
    let mut reg = Register {
        profile: acct(PROFILE, 0, profile(None)),
        referral: acct(REFERRAL, 0, Referral { bump: 0, authority: key(0), owner: key(0), verified: false, percentage: 0 }),
        player: info(PLAYER, 0),
        authority: info(AUTHORITY, 0),
    };
    assert_eq!(register(&mut reg, 6, 2, 0), Ok(()));
    let mut current = reg.profile;
    for k in 1..=3u64 {
        let mut ctx = init_ctx();
        ctx.profile = current;
        assert!(init_plinko(&mut ctx, 8, 5, 6, settings(), 11).is_ok());
        assert_eq!(ctx.plinko.data.id, k);
        assert_eq!(ctx.profile.data.next_game_id, k + 1);
        current = ctx.profile;
    }
}

#[test]
fn player_gets_payout_and_fee_remainder() {
    // a bet of 10_000_029: fee 350_001, holders 300_000, team 50_000, remainder 1
    let odd = InitPlinkoSettings { balls_count: 1, bet_amount: 10_000_029, ..settings() };
    let mut start = init_ctx();
    let cpis = init_plinko(&mut start, 8, 5, 6, odd, 11).unwrap();
    let paid = match cpis[0] {
        Cpi::SystemTransfer { amount, .. } => amount,
        _ => unreachable!(),
    };
    assert_eq!(paid, 10_000_029 + 350_001);
    let mut reveal = reveal_ctx(1_500_000 + paid);
    reveal.plinko.data = start.plinko.data;
    assert_eq!(reveal_plinko(&mut reveal, 8, 4, 5, 6, 4, 5_000_000), Ok(()));
    let mut claim = ClaimPlinko { plinko: reveal.plinko, player: info(PLAYER, 0), authority: info(AUTHORITY, 0), plinko_rent: 1_500_000 };
    assert_eq!(claim_plinko(&mut claim, 8, 4), Ok(()));
    assert_eq!(claim.player.lamports, 5_000_001);
    assert_eq!(claim.plinko.info.lamports, 1_500_000);
}

#[test]
fn init_plinko_refuses_a_huge_bet_before_reckoning_it() {
    let mut ctx = init_ctx();
    let huge = InitPlinkoSettings { bet_amount: u64::MAX, balls_count: 10, ..settings() };
    assert!(init_plinko_in_bounds(&ctx, &huge));
    let before = ctx;
    assert_eq!(init_plinko(&mut ctx, 8, 5, 6, huge, 11), Err(refused(CustomErrors::InvalidBetAmount)));
    assert_eq!(ctx.profile.data, before.profile.data);
    assert_eq!(ctx.plinko.data, before.plinko.data);
}

#[test]
fn reveal_without_referral_reckons_only_the_holders_and_team_parts() {
    // 30 times this bet fits in a u64, 35 times does not
    let mut ctx = reveal_ctx(1_000);
    ctx.plinko.data = Plinko { bet_amount: 576_460_752_303_423_487, balls_count: 1, ..game() };
    assert!(reveal_plinko_in_bounds(&ctx));
}
