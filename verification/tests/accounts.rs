use sae_games::{
    Account, AccountInfo, ChangePercentageOfDaoReferral, ChangePercentageOfProfileReferral, ClaimDaoReferral,
    ClaimDaoTokenReferral, ClaimProfileReferral, ClaimProfileTokenReferral, Cpi, CreateDao, CustomErrors, Dao,
    DaoVerification, DepositFee, DepositHouse, DepositTokenFee, DepositTokenHouse, Error, Fee, House, HouseSettings,
    InitFee, InitHouse, InitHouseSettings, InitTokenFee, InitTokenHouse, ProgramError, Profile, Pubkey, Referral,
    Register, RegisterWithReferral, RemoveProfileDao, ResetDailyStats, ResetTokenDailyStats, SetProfileDao,
    SignerSeeds, TokenAccount, UnverifyProfileReferral, UpdateHouse, UpdateTokenHouse, WithdrawFee, WithdrawHouse,
    WithdrawTokenFee, WithdrawTokenHouse, change_percentage_of_dao_referral, change_percentage_of_profile_referral,
    claim_dao_referral, claim_dao_token_referral, claim_profile_referral,
    claim_profile_token_referral, create_dao, deposit_fee, deposit_house, deposit_token_fee, deposit_token_house,
    init_fee, init_house, init_token_fee, init_token_house, register, register_with_referral, remove_profile_dao,
    reset_daily_stats, reset_token_daily_stats, set_profile_dao, transfer_invoke_signed, unverify_dao,
    unverify_profile_referral, update_house, update_token_house, verify_dao, withdraw_fee, withdraw_house,
    withdraw_token_fee, withdraw_token_house,
};

fn key(n: u128) -> Pubkey {
    Pubkey { hi: 7, lo: n }
}

fn info(n: u128, lamports: u64) -> AccountInfo {
    AccountInfo { key: key(n), lamports }
}

fn acct<T>(n: u128, lamports: u64, data: T) -> Account<T> {
    Account { info: info(n, lamports), data }
}

fn fee_record() -> Fee {
    Fee { bump: 0, authority: key(0), volume: 0, referral_volume: 0, referral_today_volume: 0 }
}

fn house_record() -> House {
    House {
        bump: 5,
        authority: key(1),
        paused: false,
        volume: 100,
        today_volume: 40,
        min_bet: 10_000_000,
        max_bet: 1_000_000_000,
        min_balls_count: 1,
        max_balls_count: 10,
    }
}

fn referral_record(verified: bool, percentage: u8) -> Referral {
    Referral { bump: 9, authority: key(1), owner: key(30), verified, percentage }
}

fn dao_record(verified: bool) -> Dao {
    Dao { bump: 8, authority: key(1), owner: key(2), timestamp: 5, verified }
}

fn profile_record() -> Profile {
    Profile {
        bump: 3,
        authority: key(1),
        player: key(2),
        timestamp: 0,
        next_game_id: 1,
        dao: None,
        invitation: None,
    }
}

fn custom(e: CustomErrors) -> Error {
    Error::Custom(e)
}

#[test]
fn error_codes_follow_declaration_order() {
    assert_eq!(CustomErrors::InsufficientFunds.code(), 6000);
    assert_eq!(CustomErrors::TooSmallMinBet.code(), 6001);
    assert_eq!(CustomErrors::GameIsPaused.code(), 6013);
    assert_eq!(CustomErrors::InvalidPercentage.code(), 6024);
}

#[test]
fn init_fee_writes_record() {
    let mut ctx = InitFee { fee: acct(10, 50, fee_record()), authority: info(1, 0) };
    assert_eq!(init_fee(&mut ctx, 4, 77), Ok(()));
    assert_eq!(
        ctx.fee.data,
        Fee { bump: 4, authority: key(1), volume: 77, referral_volume: 0, referral_today_volume: 0 }
    );
    let mut ctx = InitTokenFee { fee: acct(10, 50, fee_record()), authority: info(1, 0) };
    assert_eq!(init_token_fee(&mut ctx, 6, 1), Ok(()));
    assert_eq!(ctx.fee.data.volume, 1);
    assert_eq!(ctx.fee.data.bump, 6);
}

#[test]
fn deposits_ask_for_transfers() {
    let ctx = DepositFee { fee: acct(10, 0, fee_record()), source: info(2, 1000), authority: info(1, 0) };
    assert_eq!(deposit_fee(&ctx, 0, 300), Ok(vec![Cpi::SystemTransfer { from: key(2), to: key(10), amount: 300 }]));
    let ctx = DepositHouse { house: acct(11, 0, house_record()), source: info(2, 1000), authority: info(1, 0) };
    assert_eq!(deposit_house(&ctx, 0, 301), Ok(vec![Cpi::SystemTransfer { from: key(2), to: key(11), amount: 301 }]));
    let ctx = DepositTokenFee {
        fee_ata: acct(20, 0, TokenAccount { amount: 0 }),
        fee: acct(10, 0, fee_record()),
        source_ata: acct(21, 0, TokenAccount { amount: 9 }),
        source: info(2, 0),
        authority: info(1, 0),
        token_program: info(99, 0),
    };
    assert_eq!(
        deposit_token_fee(&ctx, 0, 9),
        Ok(vec![Cpi::TokenTransfer { from: key(21), to: key(20), amount: 9, program: key(99), authority: key(2), seeds: None }])
    );
    let ctx = DepositTokenHouse {
        house_ata: acct(22, 0, TokenAccount { amount: 0 }),
        house: acct(11, 0, house_record()),
        source_ata: acct(21, 0, TokenAccount { amount: 9 }),
        source: info(2, 0),
        authority: info(1, 0),
        token_program: info(99, 0),
    };
    assert_eq!(
        deposit_token_house(&ctx, 0, 8),
        Ok(vec![Cpi::TokenTransfer { from: key(21), to: key(22), amount: 8, program: key(99), authority: key(2), seeds: None }])
    );
}

#[test]
fn signed_transfer_moves_and_refuses() {
    let mut a = info(1, 100);
    let mut b = info(2, 5);
    assert_eq!(transfer_invoke_signed(&mut a, &mut b, 60), Ok(()));
    assert_eq!((a.lamports, b.lamports), (40, 65));
    assert_eq!(transfer_invoke_signed(&mut a, &mut b, 41), Err(ProgramError::InvalidArgument));
    assert_eq!((a.lamports, b.lamports), (40, 65));
    let mut c = info(3, u64::MAX);
    assert_eq!(transfer_invoke_signed(&mut a, &mut c, 1), Err(ProgramError::InvalidArgument));
    assert_eq!((a.lamports, c.lamports), (40, u64::MAX));
}

#[test]
fn withdrawals_move_lamports() {
    let mut ctx = WithdrawFee { fee: acct(10, 1000, fee_record()), destination: info(3, 1), authority: info(0, 0) };
    assert_eq!(withdraw_fee(&mut ctx, 0, 400), Ok(()));
    assert_eq!((ctx.fee.info.lamports, ctx.destination.lamports), (600, 401));
    assert_eq!(withdraw_fee(&mut ctx, 0, 601), Err(Error::Program(ProgramError::InvalidArgument)));
    assert_eq!((ctx.fee.info.lamports, ctx.destination.lamports), (600, 401));
    let mut ctx = WithdrawHouse { house: acct(11, 1000, house_record()), destination: info(3, 0), authority: info(1, 0) };
    assert_eq!(withdraw_house(&mut ctx, 0, 1000), Ok(()));
    assert_eq!((ctx.house.info.lamports, ctx.destination.lamports), (0, 1000));
}

#[test]
fn token_withdrawals_are_signed() {
    let ctx = WithdrawTokenFee {
        fee_ata: acct(20, 0, TokenAccount { amount: 50 }),
        fee: acct(10, 0, Fee { bump: 4, ..fee_record() }),
        destination_ata: acct(23, 0, TokenAccount { amount: 0 }),
        authority: info(1, 0),
        mint: info(40, 0),
        token_program: info(99, 0),
    };
    assert_eq!(
        withdraw_token_fee(&ctx, 4, 50),
        Ok(vec![Cpi::TokenTransfer {
            from: key(20),
            to: key(23),
            amount: 50,
            program: key(99),
            authority: key(10),
            seeds: Some(SignerSeeds::Fee { mint: key(40), authority: key(1), bump: 4 }),
        }])
    );
    let ctx = WithdrawTokenHouse {
        house_ata: acct(22, 0, TokenAccount { amount: 50 }),
        house: acct(11, 0, house_record()),
        destination_ata: acct(23, 0, TokenAccount { amount: 0 }),
        authority: info(1, 0),
        mint: info(40, 0),
        token_program: info(99, 0),
    };
    assert_eq!(
        withdraw_token_house(&ctx, 5, 7),
        Ok(vec![Cpi::TokenTransfer {
            from: key(22),
            to: key(23),
            amount: 7,
            program: key(99),
            authority: key(11),
            seeds: Some(SignerSeeds::House { mint: key(40), authority: key(1), bump: 5 }),
        }])
    );
}

#[test]
fn init_house_checks_settings() {
    let settings = InitHouseSettings { min_bet: 10_000_000, max_bet: 20_000_000, min_balls_count: 1, max_balls_count: 5, volume: Some(42) };
    let mut ctx = InitHouse { house: acct(11, 0, house_record()), authority: info(1, 0) };
    assert_eq!(init_house(&mut ctx, 2, settings), Ok(()));
    assert_eq!(
        ctx.house.data,
        House {
            bump: 2,
            authority: key(1),
            paused: false,
            volume: 42,
            today_volume: 0,
            min_bet: 10_000_000,
            max_bet: 20_000_000,
            min_balls_count: 1,
            max_balls_count: 5
        }
    );
    let mut ctx = InitHouse { house: acct(11, 0, house_record()), authority: info(1, 0) };
    let small = InitHouseSettings { min_bet: 9_999_999, ..settings };
    assert_eq!(init_house(&mut ctx, 2, small), Err(custom(CustomErrors::TooSmallMinBet)));
    assert_eq!(ctx.house.data, house_record());
    let no_balls = InitHouseSettings { min_balls_count: 0, ..settings };
    assert_eq!(init_house(&mut ctx, 2, no_balls), Err(custom(CustomErrors::TooSmallMinBallsCount)));
}

#[test]
fn init_token_house_checks_settings() {
    let settings = InitHouseSettings { min_bet: 1, max_bet: 20, min_balls_count: 1, max_balls_count: 5, volume: None };
    let mut ctx = InitTokenHouse { house: acct(11, 0, house_record()), authority: info(1, 0) };
    assert_eq!(init_token_house(&mut ctx, 2, settings), Ok(()));
    assert_eq!(ctx.house.data.volume, 0);
    assert_eq!(ctx.house.data.min_bet, 1);
    let zero = InitHouseSettings { min_bet: 0, ..settings };
    assert_eq!(init_token_house(&mut ctx, 2, zero), Err(custom(CustomErrors::TooSmallMinBetToken)));
}

#[test]
fn update_house_writes_all_or_nothing() {
    let mut ctx = UpdateHouse { house: acct(11, 0, house_record()), authority: info(1, 0) };
    let all = HouseSettings {
        paused: Some(true),
        min_bet: Some(20_000_000),
        max_bet: Some(30_000_000),
        min_balls_count: Some(2),
        max_balls_count: Some(3),
    };
    assert_eq!(update_house(&mut ctx, 5, all), Ok(()));
    assert_eq!(
        ctx.house.data,
        House { paused: true, min_bet: 20_000_000, max_bet: 30_000_000, min_balls_count: 2, max_balls_count: 3, ..house_record() }
    );
    let mut ctx = UpdateHouse { house: acct(11, 0, house_record()), authority: info(1, 0) };
    let bad_bet = HouseSettings { min_bet: Some(5), ..all };
    assert_eq!(update_house(&mut ctx, 5, bad_bet), Err(custom(CustomErrors::TooSmallMinBet)));
    assert_eq!(ctx.house.data, house_record());
    let mut ctx = UpdateHouse { house: acct(11, 0, house_record()), authority: info(1, 0) };
    let bad_balls = HouseSettings { min_balls_count: Some(0), ..all };
    assert_eq!(update_house(&mut ctx, 5, bad_balls), Err(custom(CustomErrors::TooSmallMinBallsCount)));
    assert_eq!(ctx.house.data, house_record());
    let mut ctx = UpdateTokenHouse { house: acct(11, 0, house_record()), authority: info(1, 0) };
    let token = HouseSettings { paused: None, min_bet: Some(1), max_bet: None, min_balls_count: None, max_balls_count: None };
    assert_eq!(update_token_house(&mut ctx, 5, token), Ok(()));
    assert_eq!(ctx.house.data, House { min_bet: 1, ..house_record() });
    let token_zero = HouseSettings { min_bet: Some(0), ..token };
    assert_eq!(update_token_house(&mut ctx, 5, token_zero), Err(custom(CustomErrors::TooSmallMinBetToken)));
    assert_eq!(ctx.house.data, House { min_bet: 1, ..house_record() });
}

#[test]
fn reset_daily_stats_zeroes_the_day() {
    let fee = Fee { referral_today_volume: 9, referral_volume: 20, volume: 30, ..fee_record() };
    let mut ctx = ResetDailyStats { fee: acct(10, 0, fee), house: acct(11, 0, house_record()), authority: info(1, 0) };
    assert_eq!(reset_daily_stats(&mut ctx, 0, 0), Ok(()));
    assert_eq!(ctx.fee.data, Fee { referral_today_volume: 0, ..fee });
    assert_eq!(ctx.house.data, House { today_volume: 0, ..house_record() });
    let mut ctx = ResetTokenDailyStats { fee: acct(10, 0, fee), house: acct(11, 0, house_record()), authority: info(1, 0) };
    assert_eq!(reset_token_daily_stats(&mut ctx, 0, 0), Ok(()));
    assert_eq!(ctx.fee.data.referral_today_volume, 0);
    assert_eq!(ctx.house.data.volume, 100);
}

#[test]
fn dao_lifecycle() {
    let mut ctx = CreateDao {
        dao: acct(50, 0, dao_record(true)),
        referral: acct(51, 0, referral_record(true, 0)),
        owner: info(2, 0),
        authority: info(1, 0),
    };
    assert_eq!(create_dao(&mut ctx, 1, 2, 1234), Ok(()));
    assert_eq!(ctx.dao.data, Dao { bump: 1, authority: key(1), owner: key(2), timestamp: 1234, verified: false });
    assert_eq!(
        ctx.referral.data,
        Referral { bump: 2, authority: key(1), owner: key(50), verified: false, percentage: 40 }
    );
    let mut v = DaoVerification { dao: ctx.dao, referral: ctx.referral, owner: info(2, 0), authority: info(1, 0) };
    assert_eq!(v.check_constraints(1, 2), Ok(()));
    assert_eq!(v.check_constraints(0, 2), Err(Error::ConstraintRaw));
    assert_eq!(verify_dao(&mut v, 1, 2, 99), Ok(()));
    assert!(v.dao.data.verified && v.referral.data.verified);
    assert_eq!(v.dao.data.timestamp, 99);
    assert_eq!(unverify_dao(&mut v, 1, 2), Ok(()));
    assert!(!v.dao.data.verified && !v.referral.data.verified);
    assert_eq!(v.dao.data.timestamp, 99);
}

#[test]
fn claim_dao_referral_pays_above_rent() {
    let base = ClaimDaoReferral {
        referral: acct(51, 5000, referral_record(true, 40)),
        dao: acct(50, 0, dao_record(true)),
        owner: info(2, 10),
        authority: info(1, 0),
        referral_rent: 900,
    };
    let mut ctx = base;
    assert_eq!(claim_dao_referral(&mut ctx, 0, 0), Ok(()));
    assert_eq!((ctx.referral.info.lamports, ctx.owner.lamports), (900, 4110));
    let mut ctx = ClaimDaoReferral { dao: acct(50, 0, dao_record(false)), ..base };
    assert_eq!(claim_dao_referral(&mut ctx, 0, 0), Err(custom(CustomErrors::DaoNotVerified)));
    let mut ctx = ClaimDaoReferral { referral: acct(51, 5000, referral_record(false, 40)), ..base };
    assert_eq!(claim_dao_referral(&mut ctx, 0, 0), Err(custom(CustomErrors::ReferralNotVerified)));
    let mut ctx = ClaimDaoReferral { referral: acct(51, 0, referral_record(true, 40)), ..base };
    assert_eq!(claim_dao_referral(&mut ctx, 0, 0), Err(custom(CustomErrors::ReferralAmountIsZero)));
    // nothing earned above the rent-exempt balance, or less than it: nothing to claim
    let mut ctx = ClaimDaoReferral { referral: acct(51, 900, referral_record(true, 40)), ..base };
    assert_eq!(claim_dao_referral(&mut ctx, 0, 0), Err(custom(CustomErrors::ReferralAmountIsZero)));
    assert_eq!((ctx.referral.info.lamports, ctx.owner.lamports), (900, 10));
    let mut ctx = ClaimDaoReferral { referral: acct(51, 100, referral_record(true, 40)), ..base };
    assert_eq!(claim_dao_referral(&mut ctx, 0, 0), Err(custom(CustomErrors::ReferralAmountIsZero)));
}

#[test]
fn claim_dao_token_referral_sends_all_tokens() {
    let ctx = ClaimDaoTokenReferral {
        referral_ata: acct(60, 0, TokenAccount { amount: 77 }),
        referral: acct(51, 0, referral_record(true, 40)),
        dao: acct(50, 0, dao_record(true)),
        owner_ata: acct(61, 0, TokenAccount { amount: 0 }),
        owner: info(2, 0),
        authority: info(1, 0),
        token_program: info(99, 0),
    };
    assert_eq!(
        claim_dao_token_referral(&ctx, 0, 0),
        Ok(vec![Cpi::TokenTransfer {
            from: key(60),
            to: key(61),
            amount: 77,
            program: key(99),
            authority: key(51),
            seeds: Some(SignerSeeds::Referral { owner: key(50), authority: key(1), bump: 9 }),
        }])
    );
    let empty = ClaimDaoTokenReferral { referral_ata: acct(60, 0, TokenAccount { amount: 0 }), ..ctx };
    assert_eq!(claim_dao_token_referral(&empty, 0, 0), Err(custom(CustomErrors::ReferralAmountIsZero)));
}

#[test]
fn change_percentage_keeps_within_hundred() {
    let mut ctx = ChangePercentageOfDaoReferral {
        referral: acct(51, 0, referral_record(true, 40)),
        dao: acct(50, 0, dao_record(true)),
        owner: info(2, 0),
        authority: info(1, 0),
    };
    assert_eq!(change_percentage_of_dao_referral(&mut ctx, 0, 0, 100), Ok(()));
    assert_eq!(ctx.referral.data.percentage, 100);
    assert_eq!(change_percentage_of_dao_referral(&mut ctx, 0, 0, 101), Err(custom(CustomErrors::InvalidPercentage)));
    assert_eq!(ctx.referral.data.percentage, 100);
    let mut ctx = ChangePercentageOfProfileReferral {
        referral: acct(52, 0, referral_record(true, 20)),
        profile: acct(70, 0, profile_record()),
        player: info(2, 0),
        authority: info(1, 0),
    };
    assert_eq!(change_percentage_of_profile_referral(&mut ctx, 0, 0, 0), Ok(()));
    assert_eq!(ctx.referral.data.percentage, 0);
    assert_eq!(change_percentage_of_profile_referral(&mut ctx, 0, 0, 255), Err(custom(CustomErrors::InvalidPercentage)));
}

#[test]
fn register_creates_profile_and_referral() {
    let mut ctx = Register {
        profile: acct(70, 0, Profile { next_game_id: 9, ..profile_record() }),
        referral: acct(71, 0, referral_record(false, 0)),
        player: info(2, 0),
        authority: info(1, 0),
    };
    assert_eq!(register(&mut ctx, 3, 4, 555), Ok(()));
    assert_eq!(ctx.profile.data, Profile { bump: 3, timestamp: 555, ..profile_record() });
    assert_eq!(ctx.profile.data.next_game_id, 1);
    assert_eq!(
        ctx.referral.data,
        Referral { bump: 4, authority: key(1), owner: key(70), verified: true, percentage: 20 }
    );
}

#[test]
fn register_with_referral_checks_invitation() {
    let base = RegisterWithReferral {
        profile: acct(70, 0, profile_record()),
        referral: acct(71, 0, referral_record(false, 0)),
        invitation: acct(72, 0, referral_record(true, 20)),
        player: info(2, 0),
        invite_owner: info(30, 0),
        authority: info(1, 0),
    };
    let mut ctx = base;
    assert_eq!(register_with_referral(&mut ctx, 3, 4, 5, 6), Ok(()));
    assert_eq!(ctx.profile.data.invitation, Some(key(72)));
    assert_eq!(ctx.referral.data.percentage, 20);
    let mut ctx = RegisterWithReferral { invitation: acct(72, 0, referral_record(false, 20)), ..base };
    assert_eq!(register_with_referral(&mut ctx, 3, 4, 5, 6), Err(custom(CustomErrors::ReferralNotVerified)));
    let own = Referral { owner: key(70), ..referral_record(true, 20) };
    let mut ctx = RegisterWithReferral { invitation: acct(72, 0, own), ..base };
    assert_eq!(
        register_with_referral(&mut ctx, 3, 4, 5, 6),
        Err(custom(CustomErrors::InviteOwnerAndRegistererAreSame))
    );
}

#[test]
fn profile_joins_and_leaves_dao() {
    let mut ctx = SetProfileDao {
        profile: acct(70, 0, profile_record()),
        dao: acct(50, 0, dao_record(false)),
        player: info(2, 0),
        dao_owner: info(2, 0),
        authority: info(1, 0),
    };
    assert_eq!(ctx.check_constraints(3, 8), Ok(()));
    assert_eq!(ctx.check_constraints(3, 7), Err(Error::ConstraintRaw));
    assert_eq!(set_profile_dao(&mut ctx, 0, 0), Err(custom(CustomErrors::DaoNotVerified)));
    ctx.dao.data.verified = true;
    assert_eq!(set_profile_dao(&mut ctx, 0, 0), Ok(()));
    assert_eq!(ctx.profile.data.dao, Some(key(50)));
    assert_eq!(set_profile_dao(&mut ctx, 0, 0), Err(custom(CustomErrors::DaoAreSame)));
    let mut rm = RemoveProfileDao { profile: ctx.profile, player: info(2, 0), authority: info(1, 0) };
    assert_eq!(remove_profile_dao(&mut rm, 0), Ok(()));
    assert_eq!(rm.profile.data.dao, None);
    assert_eq!(remove_profile_dao(&mut rm, 0), Err(custom(CustomErrors::DaoAlreadyRemoved)));
}

#[test]
fn claim_profile_referral_pays_above_rent() {
    let base = ClaimProfileReferral {
        referral: acct(71, 3000, referral_record(true, 20)),
        profile: acct(70, 0, profile_record()),
        player: info(2, 0),
        authority: info(1, 0),
        referral_rent: 1000,
    };
    let mut ctx = base;
    assert_eq!(claim_profile_referral(&mut ctx, 0, 0), Ok(()));
    assert_eq!((ctx.referral.info.lamports, ctx.player.lamports), (1000, 2000));
    let mut ctx = ClaimProfileReferral { referral: acct(71, 3000, referral_record(false, 20)), ..base };
    assert_eq!(claim_profile_referral(&mut ctx, 0, 0), Err(custom(CustomErrors::ReferralNotVerified)));
    let mut ctx = ClaimProfileReferral { referral: acct(71, 0, referral_record(true, 20)), ..base };
    assert_eq!(claim_profile_referral(&mut ctx, 0, 0), Err(custom(CustomErrors::ReferralAmountIsZero)));
    let mut ctx = ClaimProfileReferral { referral: acct(71, 1000, referral_record(true, 20)), ..base };
    assert_eq!(claim_profile_referral(&mut ctx, 0, 0), Err(custom(CustomErrors::ReferralAmountIsZero)));
    let mut unv = UnverifyProfileReferral {
        referral: acct(71, 0, referral_record(true, 20)),
        profile: acct(70, 0, profile_record()),
        player: info(2, 0),
        authority: info(1, 0),
    };
    assert_eq!(unverify_profile_referral(&mut unv, 0, 0), Ok(()));
    assert!(!unv.referral.data.verified);
}

#[test]
fn claim_profile_token_referral_sends_all_tokens() {
    let ctx = ClaimProfileTokenReferral {
        referral_ata: acct(60, 0, TokenAccount { amount: 5 }),
        referral: acct(71, 0, referral_record(true, 20)),
        profile: acct(70, 0, profile_record()),
        player_ata: acct(62, 0, TokenAccount { amount: 0 }),
        player: info(2, 0),
        authority: info(1, 0),
        token_program: info(99, 0),
    };
    assert_eq!(
        claim_profile_token_referral(&ctx, 0, 0),
        Ok(vec![Cpi::TokenTransfer {
            from: key(60),
            to: key(62),
            amount: 5,
            program: key(99),
            authority: key(71),
            seeds: Some(SignerSeeds::Referral { owner: key(70), authority: key(1), bump: 9 }),
        }])
    );
    let unverified = ClaimProfileTokenReferral { referral: acct(71, 0, referral_record(false, 20)), ..ctx };
    assert_eq!(claim_profile_token_referral(&unverified, 0, 0), Err(custom(CustomErrors::ReferralNotVerified)));
}

#[test]
fn constraints_of_fee_and_house_accounts() {
    let fee = Fee { bump: 4, authority: key(1), ..fee_record() };
    let ctx = DepositFee { fee: acct(10, 0, fee), source: info(2, 0), authority: info(1, 0) };
    assert_eq!(ctx.check_constraints(4), Ok(()));
    assert_eq!(ctx.check_constraints(5), Err(Error::ConstraintRaw));
    let other = DepositFee { authority: info(9, 0), ..ctx };
    assert_eq!(other.check_constraints(4), Err(Error::ConstraintRaw));
    let ctx = UpdateHouse { house: acct(11, 0, house_record()), authority: info(1, 0) };
    assert_eq!(ctx.check_constraints(5), Ok(()));
    assert_eq!(UpdateHouse { authority: info(2, 0), ..ctx }.check_constraints(5), Err(Error::ConstraintRaw));
    let reset = ResetDailyStats { fee: acct(10, 0, fee), house: acct(11, 0, house_record()), authority: info(1, 0) };
    assert_eq!(reset.check_constraints(4, 5), Ok(()));
    assert_eq!(reset.check_constraints(5, 5), Err(Error::ConstraintRaw));
}

#[test]
fn constraints_of_referral_accounts() {
    let referral = Referral { owner: key(70), ..referral_record(true, 20) };
    let ctx = ClaimProfileReferral {
        referral: acct(71, 3000, referral),
        profile: acct(70, 0, profile_record()),
        player: info(2, 0),
        authority: info(1, 0),
        referral_rent: 1000,
    };
    assert_eq!(ctx.check_constraints(3, 9), Ok(()));
    assert_eq!(ctx.check_constraints(3, 8), Err(Error::ConstraintRaw));
    let stranger = ClaimProfileReferral { player: info(5, 0), ..ctx };
    assert_eq!(stranger.check_constraints(3, 9), Err(Error::ConstraintRaw));
    let invited = RegisterWithReferral {
        profile: acct(70, 0, profile_record()),
        referral: acct(71, 0, referral_record(false, 0)),
        invitation: acct(72, 0, referral_record(true, 20)),
        player: info(2, 0),
        invite_owner: info(30, 0),
        authority: info(1, 0),
    };
    assert_eq!(invited.check_constraints(9), Ok(()));
    assert_eq!(RegisterWithReferral { invite_owner: info(31, 0), ..invited }.check_constraints(9), Err(Error::ConstraintRaw));
}
