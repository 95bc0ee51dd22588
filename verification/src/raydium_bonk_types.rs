//! Instruction payloads and pool bookkeeping records of the Raydium
//! launchpad venue: fixed little-endian layouts with an 8-byte
//! instruction discriminator in front.
use crate::types::SwapInfo;
use vstd::bytes::spec_u64_to_le_bytes;
use vstd::bytes::u64_to_le_bytes;
use vstd::prelude::*;

verus! {

/// Discriminator of the venue's buy instruction.
pub const BUY_DISCRIMINATOR: u64 = 17011112658214972154;

/// Discriminator of the venue's sell instruction.
pub const SELL_DISCRIMINATOR: u64 = 1916418889741117333;

/// Payload of a buy: discriminator, tokens expected, lamports paid, and
/// the fee-sharing rate (always zero here), in that field order.
#[derive(Debug, Clone, PartialEq, Eq)]
pub struct BuyInfo {
    pub discriminator: u64,
    pub token_amount: u64,
    pub sol_amount: u64,
    pub share_fee_rate: u64,
}

/// Payload of a sell: same field order as a buy, under the sell
/// discriminator.
#[derive(Debug, Clone, PartialEq, Eq)]
pub struct SellInfo {
    pub discriminator: u64,
    pub token_amount: u64,
    pub sol_amount: u64,
    pub share_fee_rate: u64,
}

impl From<SwapInfo> for BuyInfo {
    fn from(buy: SwapInfo) -> (r: BuyInfo) {
        BuyInfo {
            discriminator: BUY_DISCRIMINATOR,
            token_amount: buy.token_amount,
            sol_amount: buy.sol_amount,
            share_fee_rate: 0,
        }
    }
}

impl vstd::std_specs::convert::FromSpecImpl<SwapInfo> for BuyInfo {
    open spec fn obeys_from_spec() -> bool {
        true
    }

    open spec fn from_spec(buy: SwapInfo) -> BuyInfo {
        BuyInfo {
            discriminator: BUY_DISCRIMINATOR,
            token_amount: buy.token_amount,
            sol_amount: buy.sol_amount,
            share_fee_rate: 0,
        }
    }
}

impl From<SwapInfo> for SellInfo {
    fn from(sell: SwapInfo) -> (r: SellInfo) {
        SellInfo {
            discriminator: SELL_DISCRIMINATOR,
            token_amount: sell.token_amount,
            sol_amount: sell.sol_amount,
            share_fee_rate: 0,
        }
    }
}

impl vstd::std_specs::convert::FromSpecImpl<SwapInfo> for SellInfo {
    open spec fn obeys_from_spec() -> bool {
        true
    }

    open spec fn from_spec(sell: SwapInfo) -> SellInfo {
        SellInfo {
            discriminator: SELL_DISCRIMINATOR,
            token_amount: sell.token_amount,
            sol_amount: sell.sol_amount,
            share_fee_rate: 0,
        }
    }
}

impl BuyInfo {
    /// The 32-byte wire form: each field as 8 little-endian bytes, in
    /// field order.
    pub fn to_buffer(&self) -> (r: Vec<u8>)
        ensures
            r@ == spec_u64_to_le_bytes(self.discriminator)
                + spec_u64_to_le_bytes(self.token_amount)
                + spec_u64_to_le_bytes(self.sol_amount)
                + spec_u64_to_le_bytes(self.share_fee_rate),
    {
        let mut buffer = u64_to_le_bytes(self.discriminator);
        let mut token = u64_to_le_bytes(self.token_amount);
        let mut sol = u64_to_le_bytes(self.sol_amount);
        let mut share = u64_to_le_bytes(self.share_fee_rate);
        buffer.append(&mut token);
        buffer.append(&mut sol);
        buffer.append(&mut share);
        buffer
    }
}

impl SellInfo {
    /// The 32-byte wire form: each field as 8 little-endian bytes, in
    /// field order.
    pub fn to_buffer(&self) -> (r: Vec<u8>)
        ensures
            r@ == spec_u64_to_le_bytes(self.discriminator)
                + spec_u64_to_le_bytes(self.token_amount)
                + spec_u64_to_le_bytes(self.sol_amount)
                + spec_u64_to_le_bytes(self.share_fee_rate),
    {
        let mut buffer = u64_to_le_bytes(self.discriminator);
        let mut token = u64_to_le_bytes(self.token_amount);
        let mut sol = u64_to_le_bytes(self.sol_amount);
        let mut share = u64_to_le_bytes(self.share_fee_rate);
        buffer.append(&mut token);
        buffer.append(&mut sol);
        buffer.append(&mut share);
        buffer
    }
}

/// Vesting terms recorded in a launchpad pool's on-chain state.
#[derive(Debug, Clone, PartialEq, Eq)]
pub struct VestingSchedule {
    pub total_locked_amount: u64,
    pub cliff_period: u64,
    pub unlock_period: u64,
    pub start_time: u64,
    pub allocated_share_amount: u64,
}

} // verus!
