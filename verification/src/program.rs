use vstd::prelude::*;

verus! {

/// The version of the message format in which programs are sent.
pub const XCM_VERSION: u8 = 5;

/// How many hops up the relay chain lies, as seen from a parachain.
pub const PARENT: u8 = 1;

/// The divisor that takes an amount to the fee reserved out of it.
pub const FEE_DIVISOR: u128 = 10;

/// The most separate assets that a wildcard of this library selects.
pub const ASSET_LIMIT: u32 = 1;

/// Whether the destination keeps the sender as the origin of the remote program.
pub const PRESERVE_ORIGIN: bool = false;

/// One step of a path that leads down from a consensus system into something it holds.
pub enum Junction {
    /// The parachain with this index.
    Parachain(u32),
    /// The account with this 32-byte identifier, with no network named.
    AccountId32 { id: Seq<u8> },
}

/// A relative address: `parents` hops up, then `interior` down.
pub struct Location {
    pub parents: u8,
    pub interior: Seq<Junction>,
}

/// `amount` units of the fungible asset class that `id` names.
pub struct Asset {
    pub id: Location,
    pub amount: u128,
}

/// A choice among the assets that a program holds.
pub enum AssetFilter {
    /// Exactly the listed assets.
    Definite(Seq<Asset>),
    /// The wildcard: whatever is held, up to this many separate assets.
    AllCounted(u32),
}

/// A choice of assets together with the way in which they travel to another chain.
pub enum AssetTransferFilter {
    /// Destroyed here and minted at the destination.
    Teleport(AssetFilter),
    /// Kept here in reserve for the destination.
    ReserveDeposit(AssetFilter),
    /// Taken out of the reserve that the destination keeps.
    ReserveWithdraw(AssetFilter),
}

/// One instruction of a program, for the instructions that this library issues.
#[allow(inconsistent_fields)]
pub enum Instruction {
    /// Takes the assets from the sender and holds them.
    WithdrawAsset(Seq<Asset>),
    /// Pays for the execution of the program out of what is held.
    PayFees { asset: Asset },
    /// Sends held assets on to `destination`, where `remote_xcm` then runs.
    InitiateTransfer {
        destination: Location,
        remote_fees: Option<AssetTransferFilter>,
        preserve_origin: bool,
        assets: Seq<AssetTransferFilter>,
        remote_xcm: Seq<Instruction>,
    },
    /// Hands held assets over to `beneficiary`.
    DepositAsset { assets: AssetFilter, beneficiary: Location },
}

/// The consensus system `parents` hops up.
pub open spec fn ancestor(parents: u8) -> Location {
    Location { parents, interior: Seq::empty() }
}

/// The parachain `para_id` below the system `parents` hops up.
pub open spec fn parachain(parents: u8, para_id: u32) -> Location {
    Location { parents, interior: seq![Junction::Parachain(para_id)] }
}

/// The account `id` of the system that reads the address.
pub open spec fn account(id: Seq<u8>) -> Location {
    Location { parents: 0, interior: seq![Junction::AccountId32 { id }] }
}

/// `amount` units of the native asset of the system `parents` hops up.
pub open spec fn fungible(parents: u8, amount: u128) -> Asset {
    Asset { id: ancestor(parents), amount }
}

/// The fee reserved out of `amount`: a tenth of it, rounded down.
pub open spec fn fee_of(amount: u128) -> u128 {
    amount / FEE_DIVISOR
}

/// The program that runs at the destination: it deposits what arrived, one asset at most,
/// to `beneficiary`.
pub open spec fn deposit_program(beneficiary: Seq<u8>) -> Seq<Instruction> {
    seq![
        Instruction::DepositAsset {
            assets: AssetFilter::AllCounted(ASSET_LIMIT),
            beneficiary: account(beneficiary),
        },
    ]
}

/// The instruction that teleports what is held to the parachain `para_id`, a tenth of
/// `amount` going ahead as fees, and lets the deposit to `beneficiary` run there.
pub open spec fn transfer_step(para_id: u32, beneficiary: Seq<u8>, amount: u128) -> Instruction {
    Instruction::InitiateTransfer {
        destination: parachain(PARENT, para_id),
        remote_fees: Some(
            AssetTransferFilter::Teleport(
                AssetFilter::Definite(seq![fungible(PARENT, fee_of(amount))]),
            ),
        ),
        preserve_origin: PRESERVE_ORIGIN,
        assets: seq![AssetTransferFilter::Teleport(AssetFilter::AllCounted(ASSET_LIMIT))],
        remote_xcm: deposit_program(beneficiary),
    }
}

/// The program that teleports `amount` of the relay chain's asset to `beneficiary` on the
/// parachain `para_id`.
pub open spec fn teleport_program(para_id: u32, beneficiary: Seq<u8>, amount: u128) -> Seq<
    Instruction,
> {
    seq![
        Instruction::WithdrawAsset(seq![fungible(PARENT, amount)]),
        Instruction::PayFees { asset: fungible(PARENT, fee_of(amount)) },
        transfer_step(para_id, beneficiary, amount),
    ]
}

/// The order that validation enforces, for the instructions of this library: the program
/// first takes assets into holding and next pays its fees, before anything else.
pub open spec fn pays_before_acting(program: Seq<Instruction>) -> bool {
    &&& program.len() >= 2
    &&& program[0] is WithdrawAsset
    &&& program[1] is PayFees
}

/// The fee is the amount divided by ten, rounded down: the largest number whose tenfold
/// the amount covers. It is nothing for an amount of nothing, and for any amount under ten.
pub proof fn fee_is_a_tenth(amount: u128)
    ensures
        fee_of(amount) == amount / 10,
        fee_of(amount) * 10 <= amount < fee_of(amount) * 10 + 10,
        fee_of(amount) <= amount,
        fee_of(amount) == 0 <==> amount < 10,
        amount == 0 ==> fee_of(amount) == 0,
{
}

/// The teleport program holds three steps, in this order: the withdrawal of the full amount
/// of the asset one hop up; the payment of the fee in that asset; and the transfer to the
/// parachain `para_id` one hop up, with the fee ahead as a teleport, without the origin
/// preserved, with one filter that teleports whatever is held, one asset at most, and with a
/// remote program of one step, which deposits whatever is held, one asset at most, to the
/// account `beneficiary`.
pub proof fn teleport_program_steps(para_id: u32, beneficiary: Seq<u8>, amount: u128)
    ensures
        teleport_program(para_id, beneficiary, amount).len() == 3,
        teleport_program(para_id, beneficiary, amount)[0] == Instruction::WithdrawAsset(
            seq![Asset { id: Location { parents: 1, interior: Seq::empty() }, amount }],
        ),
        teleport_program(para_id, beneficiary, amount)[1] == (Instruction::PayFees {
            asset: Asset {
                id: Location { parents: 1, interior: Seq::empty() },
                amount: (amount / 10) as u128,
            },
        }),
        teleport_program(para_id, beneficiary, amount)[2] matches Instruction::InitiateTransfer {
            destination,
            remote_fees,
            preserve_origin,
            assets,
            remote_xcm,
        } && {
            &&& destination.parents == 1
            &&& destination.interior == seq![Junction::Parachain(para_id)]
            &&& remote_fees == Some(
                AssetTransferFilter::Teleport(
                    AssetFilter::Definite(
                        seq![
                            Asset {
                                id: Location { parents: 1, interior: Seq::empty() },
                                amount: (amount / 10) as u128,
                            },
                        ],
                    ),
                ),
            )
            &&& !preserve_origin
            &&& assets == seq![AssetTransferFilter::Teleport(AssetFilter::AllCounted(1))]
            &&& remote_xcm.len() == 1
            &&& remote_xcm[0] == (Instruction::DepositAsset {
                assets: AssetFilter::AllCounted(1),
                beneficiary: Location {
                    parents: 0,
                    interior: seq![Junction::AccountId32 { id: beneficiary }],
                },
            })
        },
        pays_before_acting(teleport_program(para_id, beneficiary, amount)),
        !pays_before_acting(deposit_program(beneficiary)),
{
}

} // verus!
