//! Declarations of the solana-sdk types that the assembler and the
//! broadcast orchestrator carry through their logic. Each type is opaque
//! to the verifier: values of it are created, moved and handed back out,
//! never inspected.
use solana_sdk::instruction::Instruction;
use solana_sdk::pubkey::Pubkey;
use solana_sdk::signature::Keypair;
use solana_sdk::signature::Signature;
use solana_sdk::transaction::VersionedTransaction;
use vstd::prelude::*;

verus! {

/// A 32-byte account address.
#[verifier::external_type_specification]
#[verifier::external_body]
pub struct ExPubkey(Pubkey);

/// A 32-byte recent-blockhash reference anchoring a transaction.
#[verifier::external_type_specification]
#[verifier::external_body]
pub struct ExHash(solana_sdk::hash::Hash);

/// An ed25519 signing keypair; only ever borrowed, never inspected.
#[verifier::external_type_specification]
#[verifier::external_body]
pub struct ExKeypair(Keypair);

/// A single on-chain instruction: program id, account metas and payload.
#[verifier::external_type_specification]
#[verifier::external_body]
pub struct ExInstruction(Instruction);

/// A 64-byte transaction signature, the canonical transaction id.
#[verifier::external_type_specification]
#[verifier::external_body]
pub struct ExSignature(Signature);

/// Error type of the std slice-to-array conversion; it appears in a
/// `TryFrom` impl of `Signature` and must be known for that impl to be
/// admitted.
#[verifier::external_type_specification]
#[verifier::external_body]
pub struct ExTryFromSliceError(core::array::TryFromSliceError);

/// A fully compiled and signed transaction artifact.
#[verifier::external_type_specification]
#[verifier::external_body]
pub struct ExVersionedTransaction(VersionedTransaction);

/// Relies on the derived `Clone` of `solana_sdk::instruction::Instruction`:
/// a clone is an equal value.
pub assume_specification[ <Instruction as Clone>::clone ](ix: &Instruction) -> (r: Instruction)
    ensures
        r == *ix,
;

} // verus!
