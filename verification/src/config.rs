//! The policy of the protocol: the fee rate and the administrator.

use vstd::prelude::*;
use crate::identity::Identity;

verus! {

/// The protocol fee, in hundredths of a percent of the price.
pub const FEE_BPS: u16 = 100;

/// The number of basis points in the whole.
pub const BPS_DENOMINATOR: u64 = 10_000;

/// The bytes of the administrator's identity.
pub const ADMIN_PUBKEY: [u8; 32] = [
    0u8, 0u8, 71u8, 2u8, 0u8, 139u8, 185u8, 14u8,
    48u8, 145u8, 67u8, 107u8, 194u8, 189u8, 125u8, 169u8,
    212u8, 11u8, 188u8, 245u8, 71u8, 110u8, 56u8, 51u8,
    19u8, 152u8, 95u8, 128u8, 0u8, 0u8, 0u8, 0u8,
];

/// The bytes of the administrator's identity, as a sequence.
pub open spec fn admin_bytes() -> Seq<u8> {
    seq![
        0u8, 0u8, 71u8, 2u8, 0u8, 139u8, 185u8, 14u8,
        48u8, 145u8, 67u8, 107u8, 194u8, 189u8, 125u8, 169u8,
        212u8, 11u8, 188u8, 245u8, 71u8, 110u8, 56u8, 51u8,
        19u8, 152u8, 95u8, 128u8, 0u8, 0u8, 0u8, 0u8,
    ]
}

/// The one identity that may draw on the collected fees.
pub fn admin_identity() -> (r: Identity)
    ensures
        r@ == admin_bytes(),
{
    let r = Identity { bytes: ADMIN_PUBKEY };
    proof {
        assert(r.bytes@ =~= admin_bytes());
    }
    r
}

/// The policy an engine runs under. It is fixed when the engine is built
/// and never changes afterwards.
#[derive(Clone, Copy, Debug, PartialEq, Eq)]
pub struct Config {
    /// The fee in basis points of the price.
    pub fee_bps: u16,
    /// Who may withdraw the collected fees.
    pub admin: Identity,
}

impl Config {
    /// The policy of the protocol: a fee of one percent, and the fixed
    /// administrator.
    pub fn standard() -> (r: Config)
        ensures
            r.fee_bps == FEE_BPS,
            r.admin@ == admin_bytes(),
    {
        Config { fee_bps: FEE_BPS, admin: admin_identity() }
    }

    /// Tells whether `who` is the administrator.
    pub fn is_admin(&self, who: &Identity) -> (r: bool)
        ensures
            r == (*who == self.admin),
    {
        who.same_as(&self.admin)
    }
}

} // verus!
