//! Instruction payload and pool bookkeeping records of the Meteora
//! dynamic-bonding-curve venue.
use crate::types::SwapInfo;
use vstd::bytes::spec_u64_to_le_bytes;
use vstd::bytes::u64_to_le_bytes;
use vstd::prelude::*;

verus! {

/// Discriminator of the venue's swap instruction (one instruction serves
/// both directions).
pub const SWAP_DISCRIMINATOR: u64 = 14449647541112719096;

/// Rolling volatility bookkeeping embedded in a virtual pool's state.
#[derive(Debug, Clone, PartialEq, Eq)]
pub struct VolatilityTracker {
    pub last_update_timestamp: u64,
    pub padding: [u8; 8],
    pub sqrt_price_reference: u128,
    pub volatility_accumulator: u128,
    pub volatility_reference: u128,
}

/// Cumulative fee counters embedded in a virtual pool's state.
#[derive(Debug, Clone, PartialEq, Eq)]
pub struct PoolMetrics {
    pub total_protocol_base_fee: u64,
    pub total_protocol_quote_fee: u64,
    pub total_trading_base_fee: u64,
    pub total_trading_quote_fee: u64,
}

/// Payload of the swap instruction: discriminator, amount paid in, least
/// acceptable amount out, in that field order.
#[derive(Debug, Clone, PartialEq, Eq)]
pub struct SwapInstruction {
    pub discriminator: u64,
    pub amount_in: u64,
    pub minimum_amount_out: u64,
}

impl SwapInstruction {
    /// Orient a swap: on a buy the lamports go in and the tokens bound
    /// the output; on a sell the tokens go in and the lamports bound the
    /// output.
    pub fn from_swap_info(swap_info: &SwapInfo, is_buy: bool) -> (r: SwapInstruction)
        ensures
            r.discriminator == SWAP_DISCRIMINATOR,
            is_buy ==> r.amount_in == swap_info.sol_amount
                && r.minimum_amount_out == swap_info.token_amount,
            !is_buy ==> r.amount_in == swap_info.token_amount
                && r.minimum_amount_out == swap_info.sol_amount,
    {
        if is_buy {
            SwapInstruction {
                discriminator: SWAP_DISCRIMINATOR,
                amount_in: swap_info.sol_amount,
                minimum_amount_out: swap_info.token_amount,
            }
        } else {
            SwapInstruction {
                discriminator: SWAP_DISCRIMINATOR,
                amount_in: swap_info.token_amount,
                minimum_amount_out: swap_info.sol_amount,
            }
        }
    }

    /// The 24-byte wire form: each field as 8 little-endian bytes, in
    /// field order.
    pub fn to_buffer(&self) -> (r: Vec<u8>)
        ensures
            r@ == spec_u64_to_le_bytes(self.discriminator)
                + spec_u64_to_le_bytes(self.amount_in)
                + spec_u64_to_le_bytes(self.minimum_amount_out),
    {
        let mut buffer = u64_to_le_bytes(self.discriminator);
        let mut amount_in = u64_to_le_bytes(self.amount_in);
        let mut minimum_out = u64_to_le_bytes(self.minimum_amount_out);
        buffer.append(&mut amount_in);
        buffer.append(&mut minimum_out);
        buffer
    }
}

} // verus!
