//! Instruction payloads of the Boopfun bonding-curve venue: fixed
//! little-endian layouts with an 8-byte instruction discriminator in
//! front, exactly as the on-chain program expects them.
use crate::types::SwapInfo;
use vstd::bytes::spec_u64_to_le_bytes;
use vstd::bytes::u64_to_le_bytes;
use vstd::prelude::*;

verus! {

/// Discriminator of the venue's buy instruction.
pub const BUY_DISCRIMINATOR: u64 = 7598512818552209290;

/// Discriminator of the venue's sell instruction.
pub const SELL_DISCRIMINATOR: u64 = 12576214989484342637;

/// Lifecycle stage of a bonding curve, stored on-chain as one byte.
#[derive(Debug, Clone, PartialEq, Eq)]
pub enum BondingCurveStatus {
    Trading,
    Graduated,
    PoolPriceCorrected,
    LiquidityProvisioned,
    LiquidityLocked,
}

impl BondingCurveStatus {
    /// The one-byte on-chain encoding of this stage.
    pub open spec fn spec_code(self) -> u8 {
        match self {
            BondingCurveStatus::Trading => 0,
            BondingCurveStatus::Graduated => 1,
            BondingCurveStatus::PoolPriceCorrected => 2,
            BondingCurveStatus::LiquidityProvisioned => 3,
            BondingCurveStatus::LiquidityLocked => 4,
        }
    }

    /// Encode the stage as its on-chain byte.
    pub fn code(&self) -> (r: u8)
        ensures
            r == self.spec_code(),
    {
        match self {
            BondingCurveStatus::Trading => 0,
            BondingCurveStatus::Graduated => 1,
            BondingCurveStatus::PoolPriceCorrected => 2,
            BondingCurveStatus::LiquidityProvisioned => 3,
            BondingCurveStatus::LiquidityLocked => 4,
        }
    }

    /// Decode an on-chain byte; bytes above 4 name no stage.
    pub fn from_u8(value: u8) -> (r: Option<BondingCurveStatus>)
        ensures
            r matches Some(status) ==> status.spec_code() == value,
            value <= 4 ==> r is Some,
            value > 4 ==> r is None,
    {
        match value {
            0 => Some(BondingCurveStatus::Trading),
            1 => Some(BondingCurveStatus::Graduated),
            2 => Some(BondingCurveStatus::PoolPriceCorrected),
            3 => Some(BondingCurveStatus::LiquidityProvisioned),
            4 => Some(BondingCurveStatus::LiquidityLocked),
            _ => None,
        }
    }
}

/// Payload of a buy: discriminator, the lamports paid, the tokens
/// expected, in that field order.
#[derive(Debug, Clone, PartialEq, Eq)]
pub struct BuyInfo {
    pub discriminator: u64,
    pub sol_amount: u64,
    pub token_amount: u64,
}

/// Payload of a sell: discriminator, the tokens sold, the lamports
/// expected, in that field order.
#[derive(Debug, Clone, PartialEq, Eq)]
pub struct SellInfo {
    pub discriminator: u64,
    pub token_amount: u64,
    pub sol_amount: u64,
}

impl From<SwapInfo> for BuyInfo {
    fn from(buy: SwapInfo) -> (r: BuyInfo) {
        BuyInfo {
            discriminator: BUY_DISCRIMINATOR,
            sol_amount: buy.sol_amount,
            token_amount: buy.token_amount,
        }
    }
}

impl vstd::std_specs::convert::FromSpecImpl<SwapInfo> for BuyInfo {
    open spec fn obeys_from_spec() -> bool {
        true
    }

    open spec fn from_spec(buy: SwapInfo) -> BuyInfo {
        BuyInfo {
            discriminator: BUY_DISCRIMINATOR,
            sol_amount: buy.sol_amount,
            token_amount: buy.token_amount,
        }
    }
}

impl From<SwapInfo> for SellInfo {
    fn from(sell: SwapInfo) -> (r: SellInfo) {
        SellInfo {
            discriminator: SELL_DISCRIMINATOR,
            token_amount: sell.token_amount,
            sol_amount: sell.sol_amount,
        }
    }
}

impl vstd::std_specs::convert::FromSpecImpl<SwapInfo> for SellInfo {
    open spec fn obeys_from_spec() -> bool {
        true
    }

    open spec fn from_spec(sell: SwapInfo) -> SellInfo {
        SellInfo {
            discriminator: SELL_DISCRIMINATOR,
            token_amount: sell.token_amount,
            sol_amount: sell.sol_amount,
        }
    }
}

impl BuyInfo {
    /// The 24-byte wire form: each field as 8 little-endian bytes, in
    /// field order.
    pub fn to_buffer(&self) -> (r: Vec<u8>)
        ensures
            r@ == spec_u64_to_le_bytes(self.discriminator)
                + spec_u64_to_le_bytes(self.sol_amount)
                + spec_u64_to_le_bytes(self.token_amount),
    {
        let mut buffer = u64_to_le_bytes(self.discriminator);
        let mut sol = u64_to_le_bytes(self.sol_amount);
        let mut token = u64_to_le_bytes(self.token_amount);
        buffer.append(&mut sol);
        buffer.append(&mut token);
        buffer
    }
}

impl SellInfo {
    /// The 24-byte wire form: each field as 8 little-endian bytes, in
    /// field order.
    pub fn to_buffer(&self) -> (r: Vec<u8>)
        ensures
            r@ == spec_u64_to_le_bytes(self.discriminator)
                + spec_u64_to_le_bytes(self.token_amount)
                + spec_u64_to_le_bytes(self.sol_amount),
    {
        let mut buffer = u64_to_le_bytes(self.discriminator);
        let mut token = u64_to_le_bytes(self.token_amount);
        let mut sol = u64_to_le_bytes(self.sol_amount);
        buffer.append(&mut token);
        buffer.append(&mut sol);
        buffer
    }
}

} // verus!
