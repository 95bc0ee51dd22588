//! Configuration of the broadcast providers (relay / accelerator
//! services). Each variant carries the service endpoint and the caller's
//! auth token; the transport layer turns one into a live client and a
//! [`crate::trading_endpoint::ProviderDescriptor`].
use vstd::prelude::*;

verus! {

/// Startup configuration of a trading session: the chain RPC endpoint
/// and the broadcast providers to fan out to.
pub struct TradingConfig {
    pub rpc_url: String,
    pub swqos: Vec<SWQoSType>,
}

/// One configured provider kind, as `(endpoint, auth_token)`.
#[derive(Debug, Clone, PartialEq, Eq, Hash)]
pub enum SWQoSType {
    Default(String, String),
    Jito(String, String),
    NextBlock(String, String),
    Blox(String, String),
    Temporal(String, String),
    ZeroSlot(String, String),
}

impl SWQoSType {
    /// Whether this provider kind pays tips into dedicated tip accounts.
    /// Every accelerator service does; only the plain RPC fallback does
    /// not, so it is the one provider a tip-less fan-out still reaches.
    pub fn requires_tip(&self) -> (r: bool)
        ensures
            r == !(self is Default),
    {
        match self {
            SWQoSType::Default(_, _) => false,
            SWQoSType::Jito(_, _) => true,
            SWQoSType::NextBlock(_, _) => true,
            SWQoSType::Blox(_, _) => true,
            SWQoSType::Temporal(_, _) => true,
            SWQoSType::ZeroSlot(_, _) => true,
        }
    }
}

} // verus!
