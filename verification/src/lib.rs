//! The rules of an on-chain plinko game: houses that bank the games, fee accounts, DAOs,
//! player profiles and referral accounts, and the games themselves. Each instruction is
//! a function from the accounts that it reads (their records and balances) to their new
//! records and balances and the invocations of other programs that it asks for.

use vstd::prelude::*;

pub mod dao;
pub mod errors;
pub mod fee;
pub mod house;
pub mod laws;
pub mod plinko;
pub mod profile;
pub mod referral;
pub mod rules;
pub mod utils;

pub use dao::{
    ChangePercentageOfDaoReferral, ClaimDaoReferral, ClaimDaoTokenReferral, CreateDao, Dao, DaoVerification,
    change_percentage_of_dao_referral, claim_dao_referral, claim_dao_token_referral,
    create_dao, unverify_dao, verify_dao,
};
pub use errors::{CustomErrors, Error, ProgramError};
pub use fee::{
    DepositFee, DepositTokenFee, Fee, InitFee, InitTokenFee, WithdrawFee, WithdrawTokenFee, deposit_fee,
    deposit_token_fee, init_fee, init_token_fee, withdraw_fee, withdraw_token_fee,
};
pub use house::{
    DepositHouse, DepositTokenHouse, House, HouseSettings, InitHouse, InitHouseSettings, InitTokenHouse,
    ResetDailyStats, ResetTokenDailyStats, UpdateHouse, UpdateTokenHouse, WithdrawHouse, WithdrawTokenHouse,
    deposit_house, deposit_token_house, init_house, init_token_house, reset_daily_stats, reset_token_daily_stats,
    update_house, update_token_house, withdraw_house, withdraw_token_house,
};
pub use plinko::{
    ClaimPlinko, ClaimTokenPlinko, InitPlinko, InitPlinkoSettings, InitTokenPlinko, Plinko, RevealPlinko,
    RevealPlinkoWithReferral, RevealTokenPlinko, RevealTokenPlinkoWithReferral, claim_plinko, claim_plinko_in_bounds,
    claim_token_plinko, init_plinko, init_plinko_in_bounds, init_token_plinko, init_token_plinko_in_bounds,
    reveal_plinko, reveal_plinko_in_bounds, reveal_plinko_with_referral, reveal_plinko_with_referral_in_bounds,
    reveal_token_plinko, reveal_token_plinko_in_bounds, reveal_token_plinko_with_referral,
    reveal_token_plinko_with_referral_in_bounds,
};
pub use profile::{
    ChangePercentageOfProfileReferral, ClaimProfileReferral, ClaimProfileTokenReferral, Profile, Register,
    RegisterWithReferral, RemoveProfileDao, SetProfileDao, UnverifyProfileReferral,
    change_percentage_of_profile_referral, claim_profile_referral,
    claim_profile_token_referral, register, register_with_referral, remove_profile_dao, set_profile_dao,
    unverify_profile_referral,
};
pub use referral::Referral;
pub use utils::{
    Account, AccountInfo, Cpi, Pubkey, SignerSeeds, TokenAccount, transfer_invoke, transfer_invoke_signed,
    transfer_spl_invoke, transfer_spl_invoke_signed,
};
