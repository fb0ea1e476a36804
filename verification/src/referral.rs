use vstd::prelude::*;

use crate::errors::{Error, invalid_argument};
use crate::utils::{AccountInfo, Pubkey, signed_transfer, transfer_invoke_signed};

verus! {

/// A referral account: it collects a share of the fees of the games of the players that
/// it invited, for its owner (a DAO or a player's profile).
#[derive(Clone, Copy, Debug, PartialEq, Eq, Structural)]
pub struct Referral {
    pub bump: u8,
    pub authority: Pubkey,
    pub owner: Pubkey,
    pub verified: bool,
    pub percentage: u8,
}

impl Referral {
    /// Bytes that the account occupies.
    pub const LEN: usize = 8 + 1 + 32 + 32 + 1 + 1;
}

/// The share, in percent, of a new DAO's referral account.
pub const DAO_REFERRAL_PERCENTAGE: u8 = 40;

/// The share, in percent, of a new player's referral account.
pub const PROFILE_REFERRAL_PERCENTAGE: u8 = 20;

/// The largest share, in percent, that a referral account may be given.
pub const MAX_PERCENTAGE: u8 = 100;

/// The referral record that an account is created with.
pub open spec fn new_referral(bump: u8, verified: bool, percentage: u8, owner: Pubkey, authority: Pubkey) -> Referral {
    Referral { bump, authority, owner, verified, percentage }
}

/// Pays all of a referral account's lamports but those that keep it rent exempt (`rent`)
/// to `to`.
pub(crate) fn pay_out_referral(referral: &mut AccountInfo, to: &mut AccountInfo, rent: u64) -> (r: Result<(), Error>)
    requires
        old(referral).lamports >= rent,
    ensures
        (*final(referral), *final(to), r is Ok) == signed_transfer(
            *old(referral),
            *old(to),
            (old(referral).lamports - rent) as u64,
        ),
        r is Err ==> r == invalid_argument::<()>(),
{
    let amount = referral.lamports - rent;
    match transfer_invoke_signed(referral, to, amount) {
        Ok(()) => Ok(()),
        Err(e) => Err(Error::Program(e)),
    }
}

/// A referral account given to an instruction matches when it was created with `bump`
/// for `owner` and `authority`.
pub open spec fn referral_matches(referral: Referral, bump: u8, owner: Pubkey, authority: Pubkey) -> bool {
    referral.bump == bump && referral.owner == owner && referral.authority == authority
}

/// Whether a referral account matches `bump`, `owner` and `authority`.
pub fn referral_account_matches(referral: &Referral, bump: u8, owner: Pubkey, authority: Pubkey) -> (b: bool)
    ensures
        b == referral_matches(*referral, bump, owner, authority),
{
    referral.bump == bump && referral.owner == owner && referral.authority == authority
}

} // verus!
