use vstd::prelude::*;
use crate::builder::{
    encode_versioned, instructions_of, versioned_encoding, OpenBuilder, UnfundedBuilder,
};
use crate::program::{
    deposit_program, fee_of, pays_before_acting, teleport_program, ASSET_LIMIT, FEE_DIVISOR,
    PARENT, PRESERVE_ORIGIN, XCM_VERSION,
};
use staging_xcm::v5::Xcm;

verus! {

/// The contract. It keeps no state.
pub struct InkLibrary {}

/// The bytes that a teleport returns: the codec's, for the teleport program inside the
/// version 5 envelope.
pub open spec fn teleport_bytes(para_id: u32, beneficiary: Seq<u8>, amount: u128) -> Seq<u8> {
    versioned_encoding(teleport_program(para_id, beneficiary, amount))
}

/// The fee reserved out of `amount`. For an unsigned amount and a divisor that is not zero,
/// the division cannot leave the range, so nothing has to saturate.
pub fn remote_fee(amount: u128) -> (fee: u128)
    ensures
        fee == fee_of(amount),
        fee == amount / 10,
        fee <= amount,
        fee == 0 <==> amount < 10,
{
    amount / FEE_DIVISOR
}

/// Builds, without validation, the program that runs at the destination.
pub fn remote_message(beneficiary: [u8; 32]) -> (xcm: Xcm<()>)
    ensures
        instructions_of(xcm) == deposit_program(beneficiary@),
        !pays_before_acting(instructions_of(xcm)),
{
    let xcm = OpenBuilder::unchecked().deposit_asset(ASSET_LIMIT, beneficiary).build();
    assert(instructions_of(xcm) =~= deposit_program(beneficiary@));
    xcm
}

/// Builds, with validation, the program that teleports `amount` to `beneficiary` on the
/// parachain `para_id`.
pub fn teleport_message(para_id: u32, beneficiary: [u8; 32], amount: u128) -> (xcm: Xcm<()>)
    ensures
        instructions_of(xcm) == teleport_program(para_id, beneficiary@, amount),
        pays_before_acting(instructions_of(xcm)),
{
    let fee = remote_fee(amount);
    let remote = remote_message(beneficiary);
    let xcm = UnfundedBuilder::validating()
        .withdraw_asset(PARENT, amount)
        .pay_fees(PARENT, fee)
        .initiate_teleport(PARENT, para_id, PARENT, fee, PRESERVE_ORIGIN, ASSET_LIMIT, remote)
        .build();
    assert(instructions_of(xcm) =~= teleport_program(para_id, beneficiary@, amount));
    xcm
}

impl InkLibrary {
    /// The contract in its one state.
    pub fn new() -> (contract: Self)
        ensures
            contract == (InkLibrary {}),
    {
        InkLibrary {}
    }

    /// The teleport of `amount` to `beneficiary` on the parachain `para_id`, as the bytes of
    /// the versioned program.
    pub fn teleport(&self, para_id: u32, beneficiary: [u8; 32], amount: u128) -> (bytes: Vec<u8>)
        ensures
            bytes@ == teleport_bytes(para_id, beneficiary@, amount),
            bytes@.len() > 0,
            bytes@[0] == XCM_VERSION,
    {
        encode_versioned(teleport_message(para_id, beneficiary, amount))
    }
}

/// Two teleports with the same chain, beneficiary and amount return the same bytes.
pub proof fn teleport_is_deterministic(
    para_id: u32,
    beneficiary: Seq<u8>,
    amount: u128,
    first: Seq<u8>,
    second: Seq<u8>,
)
    requires
        first == teleport_bytes(para_id, beneficiary, amount),
        second == teleport_bytes(para_id, beneficiary, amount),
    ensures
        first == second,
{
}

} // verus!
