//! Instruction payload and curve parameters of the Moonit venue. The
//! enums are stored on the wire as their one-byte variant index.
use vstd::bytes::spec_u64_to_le_bytes;
use vstd::bytes::u64_to_le_bytes;
use vstd::prelude::*;

verus! {

/// Virtual token reserve a fresh Moonit curve starts with.
pub const INITIAL_VIRTUAL_TOKEN_RESERVES: u64 = 1_073_000_000_000_000;

/// Virtual sol reserve a fresh Moonit curve starts with.
pub const INITIAL_VIRTUAL_SOL_RESERVES: u64 = 30_000_000_000;

/// The collateral currency a curve trades against.
#[derive(Debug, Clone, PartialEq, Eq)]
pub enum Currency {
    Sol,
}

/// The pricing curve family.
#[derive(Debug, Clone, PartialEq, Eq)]
pub enum CurveType {
    LinearV1,
    ConstantProductV1,
}

/// Where a graduated curve migrates its liquidity.
#[derive(Debug, Clone, PartialEq, Eq)]
pub enum MigrationTarget {
    Raydium,
    Meteora,
}

/// Which side of a trade is held fixed.
#[derive(Debug, Clone, PartialEq, Eq)]
pub enum FixedSide {
    ExactIn,
    ExactOut,
}

impl FixedSide {
    /// The one-byte wire encoding: the variant index.
    pub open spec fn spec_code(self) -> u8 {
        match self {
            FixedSide::ExactIn => 0,
            FixedSide::ExactOut => 1,
        }
    }

    /// Encode the side as its wire byte.
    pub fn code(&self) -> (r: u8)
        ensures
            r == self.spec_code(),
    {
        match self {
            FixedSide::ExactIn => 0,
            FixedSide::ExactOut => 1,
        }
    }
}

/// Payload of a Moonit trade: discriminator, token amount, collateral
/// amount, the fixed side's byte, and the slippage tolerance, in that
/// field order.
#[derive(Debug, Clone, PartialEq, Eq)]
pub struct TradeParams {
    pub discriminator: u64,
    pub token_amount: u64,
    pub collateral_amount: u64,
    pub fixed_side: FixedSide,
    pub slippage_bps: u64,
}

impl TradeParams {
    /// The 33-byte wire form: three 8-byte little-endian fields, the
    /// fixed side's byte, then the 8-byte slippage tolerance.
    pub fn to_buffer(&self) -> (r: Vec<u8>)
        ensures
            r@ == spec_u64_to_le_bytes(self.discriminator)
                + spec_u64_to_le_bytes(self.token_amount)
                + spec_u64_to_le_bytes(self.collateral_amount)
                + seq![self.fixed_side.spec_code()]
                + spec_u64_to_le_bytes(self.slippage_bps),
    {
        let mut buffer = u64_to_le_bytes(self.discriminator);
        let mut token = u64_to_le_bytes(self.token_amount);
        let mut collateral = u64_to_le_bytes(self.collateral_amount);
        let mut slippage = u64_to_le_bytes(self.slippage_bps);
        buffer.append(&mut token);
        buffer.append(&mut collateral);
        buffer.push(self.fixed_side.code());
        proof {
            assert(buffer@ =~= spec_u64_to_le_bytes(self.discriminator)
                + spec_u64_to_le_bytes(self.token_amount)
                + spec_u64_to_le_bytes(self.collateral_amount)
                + seq![self.fixed_side.spec_code()]);
        }
        buffer.append(&mut slippage);
        buffer
    }
}

} // verus!
