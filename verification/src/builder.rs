use vstd::prelude::*;
use crate::program;
use crate::program::{account, fungible, parachain, Instruction};
use parity_scale_codec::Encode;
use staging_xcm::v5::{
    AnythingGoes, Asset, AssetFilter, AssetId, AssetTransferFilter, Fungibility, Junction,
    LoadedHolding, Location, PaymentRequired, WildAsset, Xcm, XcmBuilder,
};
use staging_xcm::VersionedXcm;

verus! {

/// `staging_xcm::v5::Xcm`: a finished program, which holds its instructions in order.
#[verifier::external_type_specification]
#[verifier::external_body]
#[verifier::reject_recursive_types(Call)]
pub struct ExXcm<Call>(staging_xcm::v5::Xcm<Call>);

/// The instructions that a finished program holds, first to last, each as this library
/// models it.
pub uninterp spec fn instructions_of(xcm: Xcm<()>) -> Seq<Instruction>;

/// The bytes that `parity_scale_codec::Encode::encode` gives for the program with these
/// instructions inside the version 5 envelope `staging_xcm::VersionedXcm::V5`.
pub uninterp spec fn versioned_encoding(program: Seq<Instruction>) -> Seq<u8>;

/// `staging_xcm::v5::XcmBuilder<(), PaymentRequired>`: the validating builder before any
/// instruction. It takes nothing but an instruction that loads assets into holding. The
/// builder's type is bound by a trait of its crate, so it is held here and not declared.
#[verifier::external_body]
pub struct UnfundedBuilder {
    inner: XcmBuilder<(), PaymentRequired>,
}

/// `staging_xcm::v5::XcmBuilder<(), LoadedHolding>`: the validating builder once assets are
/// held. Until an instruction pays the fees it takes, besides that one, only `ClearOrigin`
/// and `SetHints`.
#[verifier::external_body]
pub struct FundedBuilder {
    inner: XcmBuilder<(), LoadedHolding>,
}

/// `staging_xcm::v5::XcmBuilder<(), AnythingGoes>`: a builder that takes any instruction and
/// can be finished. The validating builder arrives here once fees are paid; the builder
/// without validation starts here.
#[verifier::external_body]
pub struct OpenBuilder {
    inner: XcmBuilder<(), AnythingGoes>,
}

/// The instructions that a builder holds before assets are loaded.
pub uninterp spec fn unfunded_instructions(b: UnfundedBuilder) -> Seq<Instruction>;

/// The instructions that a builder holds once assets are loaded.
pub uninterp spec fn funded_instructions(b: FundedBuilder) -> Seq<Instruction>;

/// The instructions that an open builder holds.
pub uninterp spec fn open_instructions(b: OpenBuilder) -> Seq<Instruction>;

impl UnfundedBuilder {
    /// `Xcm::builder`: the validating builder, holding no instruction.
    #[verifier::external_body]
    pub(crate) fn validating() -> (b: Self)
        ensures
            unfunded_instructions(b) == Seq::<Instruction>::empty(),
    {
        UnfundedBuilder { inner: Xcm::<()>::builder() }
    }

    /// `XcmBuilder::withdraw_asset`: appends `WithdrawAsset` of the one fungible asset given,
    /// identified by the location `parents` hops up, and moves on to the funded state.
    #[verifier::external_body]
    pub(crate) fn withdraw_asset(self, parents: u8, amount: u128) -> (b: FundedBuilder)
        ensures
            funded_instructions(b) == unfunded_instructions(self).push(
                Instruction::WithdrawAsset(seq![fungible(parents, amount)]),
            ),
    {
        let asset =
            Asset { id: AssetId(Location::ancestor(parents)), fun: Fungibility::Fungible(amount) };
        FundedBuilder { inner: self.inner.withdraw_asset(asset) }
    }
}

impl FundedBuilder {
    /// `XcmBuilder::pay_fees`: appends `PayFees` with the fungible asset given, identified by
    /// the location `parents` hops up, and moves on to the open state.
    #[verifier::external_body]
    pub(crate) fn pay_fees(self, parents: u8, amount: u128) -> (b: OpenBuilder)
        ensures
            open_instructions(b) == funded_instructions(self).push(
                Instruction::PayFees { asset: fungible(parents, amount) },
            ),
    {
        let asset =
            Asset { id: AssetId(Location::ancestor(parents)), fun: Fungibility::Fungible(amount) };
        OpenBuilder { inner: self.inner.pay_fees(asset) }
    }
}

impl OpenBuilder {
    /// `Xcm::builder_unsafe`: the builder without validation, holding no instruction.
    #[verifier::external_body]
    pub(crate) fn unchecked() -> (b: Self)
        ensures
            open_instructions(b) == Seq::<Instruction>::empty(),
    {
        OpenBuilder { inner: Xcm::<()>::builder_unsafe() }
    }

    /// `XcmBuilder::deposit_asset`: appends `DepositAsset` of the wildcard `AllCounted(limit)`
    /// to the account `beneficiary`, for which no network is named.
    #[verifier::external_body]
    pub(crate) fn deposit_asset(self, limit: u32, beneficiary: [u8; 32]) -> (b: OpenBuilder)
        ensures
            open_instructions(b) == open_instructions(self).push(
                Instruction::DepositAsset {
                    assets: program::AssetFilter::AllCounted(limit),
                    beneficiary: account(beneficiary@),
                },
            ),
    {
        OpenBuilder { inner: self.inner.deposit_asset(WildAsset::AllCounted(limit), beneficiary) }
    }

    /// `XcmBuilder::initiate_transfer`: appends `InitiateTransfer` to the parachain `para_id`
    /// below the location `parents` hops up. The fees that go ahead are the teleport of the
    /// one fungible asset given, `fee` units of the location `fee_parents` hops up; the assets
    /// that follow are the teleport of the wildcard `AllCounted(limit)`, a list of one entry,
    /// which the bound of six on that list leaves whole.
    #[verifier::external_body]
    pub(crate) fn initiate_teleport(
        self,
        parents: u8,
        para_id: u32,
        fee_parents: u8,
        fee: u128,
        preserve_origin: bool,
        limit: u32,
        remote: Xcm<()>,
    ) -> (b: OpenBuilder)
        ensures
            open_instructions(b) == open_instructions(self).push(
                Instruction::InitiateTransfer {
                    destination: parachain(parents, para_id),
                    remote_fees: Some(
                        program::AssetTransferFilter::Teleport(
                            program::AssetFilter::Definite(seq![fungible(fee_parents, fee)]),
                        ),
                    ),
                    preserve_origin,
                    assets: seq![
                        program::AssetTransferFilter::Teleport(
                            program::AssetFilter::AllCounted(limit),
                        ),
                    ],
                    remote_xcm: instructions_of(remote),
                },
            ),
    {
        let id = AssetId(Location::ancestor(fee_parents));
        let fees = Asset { id, fun: Fungibility::Fungible(fee) };
        let inner = self.inner.initiate_transfer(
            Location::new(parents, [Junction::Parachain(para_id)]),
            AssetTransferFilter::Teleport(AssetFilter::Definite(fees.into())),
            preserve_origin,
            vec![AssetTransferFilter::Teleport(AssetFilter::Wild(WildAsset::AllCounted(limit)))],
            remote,
        );
        OpenBuilder { inner }
    }

    /// `XcmBuilder::build`: the program that holds the builder's instructions.
    #[verifier::external_body]
    pub(crate) fn build(self) -> (xcm: Xcm<()>)
        ensures
            instructions_of(xcm) == open_instructions(self),
    {
        self.inner.build()
    }
}

/// `VersionedXcm::from` and then `Encode::encode`: the program inside the version 5
/// envelope, in the codec's bytes. The envelope's own byte comes first and is the version.
#[verifier::external_body]
pub(crate) fn encode_versioned(xcm: Xcm<()>) -> (bytes: Vec<u8>)
    ensures
        bytes@ == versioned_encoding(instructions_of(xcm)),
        bytes@.len() > 0,
        bytes@[0] == 5,
{
    VersionedXcm::from(xcm).encode()
}

} // verus!
