//! Transaction assembly: turn an ordered instruction list, an optional
//! priority fee and an optional tip payment into one signed transaction.
//!
//! The instruction ordering is the contract that matters here: fee-bidding
//! instructions first (price, then limit), the tip transfer next, then all
//! caller instructions unchanged and in order. The ordering is built and
//! proved in verified code; only the final compile-and-sign step calls
//! into solana-sdk behind a trusted wrapper, which records in ghost state
//! which instruction plan the transaction was built from.
use solana_compute_budget_interface::ComputeBudgetInstruction;
use solana_sdk::instruction::Instruction;
use solana_sdk::message::v0;
use solana_sdk::message::VersionedMessage;
use solana_sdk::pubkey::Pubkey;
use solana_sdk::signature::Keypair;
use solana_sdk::signature::Signature;
use solana_sdk::signer::Signer;
use solana_sdk::transaction::VersionedTransaction;
use solana_system_interface::instruction as system_instruction;
use vstd::prelude::*;

verus! {

/// Fee-bidding configuration injected verbatim ahead of a transaction's
/// business instructions.
#[derive(Debug, Clone, Copy)]
pub struct PriorityFee {
    pub unit_limit: u32,
    pub unit_price: u64,
}

/// A tip payment bundled into one transaction to incentivize a specific
/// broadcast provider; the destination is that provider's own tip account.
#[derive(Debug, Clone, Copy)]
pub struct TipFee {
    pub tip_account: Pubkey,
    pub tip_lamports: u64,
}

/// A durable-nonce account and its authority; when supplied, the
/// transaction starts by advancing that nonce instead of relying on a
/// fresh blockhash staying recent.
#[derive(Debug, Clone, Copy)]
pub struct NonceInfo {
    pub nonce_account: Pubkey,
    pub nonce_authority: Pubkey,
}

/// One planned instruction of a transaction under assembly. The compute
/// budget, transfer and nonce variants carry exactly the values the
/// corresponding solana instructions are built from; `Custom` carries a
/// caller-supplied venue instruction through unchanged.
pub enum TxInstruction {
    ComputeUnitPrice(u64),
    ComputeUnitLimit(u32),
    TipTransfer { to: Pubkey, lamports: u64 },
    AdvanceNonce { nonce_account: Pubkey, nonce_authority: Pubkey },
    Custom(Instruction),
}

/// The fee-bidding prefix: unit price first, then unit limit, so the
/// runtime prices the whole transaction before executing it.
pub open spec fn fee_instructions(fee: Option<PriorityFee>) -> Seq<TxInstruction> {
    match fee {
        Some(f) => seq![
            TxInstruction::ComputeUnitPrice(f.unit_price),
            TxInstruction::ComputeUnitLimit(f.unit_limit),
        ],
        None => Seq::empty(),
    }
}

/// The tip transfer, placed after the fee bid and before the business
/// instructions.
pub open spec fn tip_instructions(tip: Option<TipFee>) -> Seq<TxInstruction> {
    match tip {
        Some(t) => seq![(TxInstruction::TipTransfer { to: t.tip_account, lamports: t.tip_lamports })],
        None => Seq::empty(),
    }
}

/// The caller's instructions, each wrapped as a `Custom` plan entry,
/// preserving order.
pub open spec fn custom_instructions(caller: Seq<Instruction>) -> Seq<TxInstruction>
    decreases caller.len(),
{
    if caller.len() == 0 {
        Seq::empty()
    } else {
        custom_instructions(caller.drop_last()).push(TxInstruction::Custom(caller.last()))
    }
}

/// `custom_instructions` is the elementwise wrapping it is meant to be.
pub proof fn lemma_custom_instructions(caller: Seq<Instruction>)
    ensures
        custom_instructions(caller).len() == caller.len(),
        forall|j: int| 0 <= j < caller.len()
            ==> #[trigger] custom_instructions(caller)[j] == TxInstruction::Custom(caller[j]),
    decreases caller.len(),
{
    if caller.len() > 0 {
        lemma_custom_instructions(caller.drop_last());
    }
}

/// The nonce-advance prefix, ahead of everything else when a durable
/// nonce is used.
pub open spec fn nonce_instructions(nonce: Option<NonceInfo>) -> Seq<TxInstruction> {
    match nonce {
        Some(n) => seq![(TxInstruction::AdvanceNonce {
            nonce_account: n.nonce_account,
            nonce_authority: n.nonce_authority,
        })],
        None => Seq::empty(),
    }
}

/// The complete instruction plan of one transaction: fee bid, then tip,
/// then every caller instruction unchanged, preserving order.
pub open spec fn planned_instructions(
    caller: Seq<Instruction>,
    fee: Option<PriorityFee>,
    tip: Option<TipFee>,
) -> Seq<TxInstruction> {
    fee_instructions(fee) + tip_instructions(tip) + custom_instructions(caller)
}

/// The assembled, signed artifact. `signature` is the first signature of
/// the signed transaction, the canonical identifier callers track; the
/// ghost `built_from` records which instruction plan the transaction was
/// compiled from.
pub struct SignedTransaction {
    pub transaction: VersionedTransaction,
    pub signature: Signature,
    pub built_from: Ghost<Seq<TxInstruction>>,
}

/// Message compilation or signing failed: the instruction set exceeded the
/// protocol's size or account limits, or a required signer was missing.
/// Fatal for the one swap attempt; never retried here.
#[derive(Debug, Clone)]
pub struct AssembleError {
    pub message: String,
}

/// Build the ordered instruction plan for one transaction.
pub fn transaction_instructions(
    instructions: &Vec<Instruction>,
    fee: Option<PriorityFee>,
    tip: Option<TipFee>,
) -> (r: Vec<TxInstruction>)
    ensures
        r@ == planned_instructions(instructions@, fee, tip),
{
    let mut r: Vec<TxInstruction> = Vec::new();
    if let Some(f) = fee {
        r.push(TxInstruction::ComputeUnitPrice(f.unit_price));
        r.push(TxInstruction::ComputeUnitLimit(f.unit_limit));
    }
    if let Some(t) = tip {
        r.push(TxInstruction::TipTransfer { to: t.tip_account, lamports: t.tip_lamports });
    }
    proof {
        assert(r@ =~= fee_instructions(fee) + tip_instructions(tip)
            + custom_instructions(instructions@.take(0)));
    }
    let mut i: usize = 0;
    while i < instructions.len()
        invariant
            i <= instructions.len(),
            r@ == fee_instructions(fee) + tip_instructions(tip)
                + custom_instructions(instructions@.take(i as int)),
        decreases instructions.len() - i,
    {
        let cloned: Instruction = instructions[i].clone();
        r.push(TxInstruction::Custom(cloned));
        proof {
            let taken = instructions@.take(i as int + 1);
            assert(taken.drop_last() =~= instructions@.take(i as int));
            assert(taken.last() == instructions@[i as int]);
            assert(r@ =~= fee_instructions(fee) + tip_instructions(tip)
                + custom_instructions(taken));
        }
        i = i + 1;
    }
    proof {
        assert(instructions@.take(instructions@.len() as int) =~= instructions@);
    }
    r
}

/// The solana instruction one planned entry realises as: the compute
/// budget constructors, the system-program transfer from the payer, the
/// nonce advance and the identity clone are all functions of the payer
/// and the entry alone, so the realisation has a name.
pub uninterp spec fn sdk_instruction_of(payer: Keypair, planned: TxInstruction) -> Instruction;

/// Relies on `ComputeBudgetInstruction::{set_compute_unit_price,
/// set_compute_unit_limit}`, the system-program `transfer` and
/// `advance_nonce_account` constructors, and `Instruction`'s `Clone` to
/// realise one planned entry as the corresponding solana instruction; a
/// tip transfer is always paid by the payer. Every constructor is a pure
/// function of the payer and the entry, so the result is exactly the
/// named realisation; and a `Custom` entry realises as the carried
/// instruction itself, unchanged (the clone is an equal value).
#[verifier::external_body]
fn to_sdk_instruction(payer: &Keypair, ix: &TxInstruction) -> (r: Instruction)
    ensures
        r == sdk_instruction_of(*payer, *ix),
        *ix matches TxInstruction::Custom(inner) ==> r == inner,
{
    match ix {
        TxInstruction::ComputeUnitPrice(p) => ComputeBudgetInstruction::set_compute_unit_price(*p),
        TxInstruction::ComputeUnitLimit(l) => ComputeBudgetInstruction::set_compute_unit_limit(*l),
        TxInstruction::TipTransfer { to, lamports } => system_instruction::transfer(&payer.pubkey(), to, *lamports),
        TxInstruction::AdvanceNonce { nonce_account, nonce_authority } => system_instruction::advance_nonce_account(nonce_account, nonce_authority),
        TxInstruction::Custom(ix) => ix.clone(),
    }
}

/// The realisation of a whole plan, entry by entry and in order.
pub open spec fn realised_instructions(payer: Keypair, plan: Seq<TxInstruction>) -> Seq<Instruction>
    decreases plan.len(),
{
    if plan.len() == 0 {
        Seq::empty()
    } else {
        realised_instructions(payer, plan.drop_last()).push(sdk_instruction_of(payer, plan.last()))
    }
}

/// Whether compiling and signing the given instruction list succeeds.
/// Message compilation depends only on the payer and the instructions
/// (account dedup against the protocol's size and account limits), and
/// signing only on those plus the signer set (each signer must be
/// required by the message), so success is a function of the three.
pub uninterp spec fn assemble_ok(
    payer: Keypair,
    instructions: Seq<Instruction>,
    extra_signers: Seq<Keypair>,
) -> bool;

/// The artifact a successful assembly returns. Key compilation is
/// ordered (a `BTreeMap`), the blockhash is embedded verbatim and
/// ed25519 signing with a keypair is deterministic, so the signed
/// transaction is a function of the payer, the instructions, the
/// blockhash and the signer set.
pub uninterp spec fn transaction_of(
    payer: Keypair,
    instructions: Seq<Instruction>,
    blockhash: solana_sdk::hash::Hash,
    extra_signers: Seq<Keypair>,
) -> VersionedTransaction;

/// The first entry of a transaction's signature list: the canonical
/// identifier callers track.
pub uninterp spec fn first_signature_of(transaction: VersionedTransaction) -> Signature;

/// Relies on `v0::Message::try_compile` and `VersionedTransaction::try_new`
/// of solana-sdk to compile the instruction list into a v0 message
/// against the blockhash and sign it with the payer plus the extra
/// signers, and on `try_new` placing the payer's signature first in
/// `signatures` (the payer is always a required signer, so `signatures`
/// is never empty on success). Counts above the wire format's `u16`
/// limits (instructions, or one instruction's account metas or data
/// bytes) pass `try_compile` but make `try_new`'s message serialization
/// panic, so the body rejects them first as an assembly error. With
/// that guard neither step's success depends on the blockhash — it is
/// only embedded — so the call returns `Ok` exactly when the named
/// `assemble_ok` holds of payer, instructions and signers; and signing
/// is deterministic ed25519, so the artifact is the named
/// `transaction_of` and the returned signature its first.
#[verifier::external_body]
fn compile_and_sign(
    payer: &Keypair,
    instructions: Vec<Instruction>,
    blockhash: &solana_sdk::hash::Hash,
    extra_signers: &Vec<Keypair>,
) -> (r: Result<(VersionedTransaction, Signature), AssembleError>)
    ensures
        r is Ok <==> assemble_ok(*payer, instructions@, extra_signers@),
        r matches Ok((tx, sig)) ==> tx == transaction_of(*payer, instructions@, *blockhash, extra_signers@)
            && sig == first_signature_of(tx),
{
    // 65535 is the wire format's u16 length-prefix limit.
    if instructions.len() > 65535
        || instructions.iter().any(|ix| ix.data.len() > 65535 || ix.accounts.len() > 65535)
    {
        return Err(AssembleError { message: "instruction set exceeds the wire format's size limits".to_string() });
    }
    let message = v0::Message::try_compile(&payer.pubkey(), &instructions, &[], *blockhash)
        .map_err(|e| AssembleError { message: e.to_string() })?;
    let signers: Vec<&Keypair> = core::iter::once(payer).chain(extra_signers.iter()).collect();
    let transaction = VersionedTransaction::try_new(VersionedMessage::V0(message), &signers)
        .map_err(|e| AssembleError { message: e.to_string() })?;
    let signature = transaction.signatures[0];
    Ok((transaction, signature))
}

/// Realise a plan instruction by instruction and hand it to the signer.
/// The call succeeds exactly when the plan's realisation assembles, and
/// on success the returned record carries the deterministic signed
/// artifact of that realisation, its first signature, and, in
/// `built_from`, exactly the plan that was realised and signed.
fn sign_planned(
    payer: &Keypair,
    planned: Vec<TxInstruction>,
    blockhash: &solana_sdk::hash::Hash,
    extra_signers: &Vec<Keypair>,
) -> (r: Result<SignedTransaction, AssembleError>)
    ensures
        r is Ok <==> assemble_ok(*payer, realised_instructions(*payer, planned@), extra_signers@),
        r matches Ok(st) ==> {
            &&& st.built_from@ == planned@
            &&& st.transaction == transaction_of(
                *payer,
                realised_instructions(*payer, planned@),
                *blockhash,
                extra_signers@,
            )
            &&& st.signature == first_signature_of(st.transaction)
        },
{
    let ghost plan: Seq<TxInstruction> = planned@;
    let mut converted: Vec<Instruction> = Vec::new();
    let mut i: usize = 0;
    proof {
        assert(planned@.take(0) =~= Seq::<TxInstruction>::empty());
    }
    while i < planned.len()
        invariant
            i <= planned.len(),
            plan == planned@,
            converted@ == realised_instructions(*payer, planned@.take(i as int)),
        decreases planned.len() - i,
    {
        converted.push(to_sdk_instruction(payer, &planned[i]));
        proof {
            let taken = planned@.take(i as int + 1);
            assert(taken.drop_last() =~= planned@.take(i as int));
            assert(taken.last() == planned@[i as int]);
            assert(converted@ =~= realised_instructions(*payer, taken));
        }
        i = i + 1;
    }
    proof {
        assert(planned@.take(planned@.len() as int) =~= planned@);
    }
    match compile_and_sign(payer, converted, blockhash, extra_signers) {
        Ok((transaction, signature)) => Ok(SignedTransaction {
            transaction,
            signature,
            built_from: Ghost(plan),
        }),
        Err(e) => Err(e),
    }
}

/// Assemble one signed transaction: fee bid first, tip transfer next,
/// caller instructions last, compiled against `blockhash` and signed by
/// `payer` plus `extra_signers`. The call succeeds exactly when the
/// plan's realisation compiles and signs — message compilation fails
/// only on the protocol's size and account limits, signing only on a
/// signer the message does not require — and on success the returned
/// record carries the deterministic artifact of the plan (identical
/// inputs give identical transactions and signatures), its first
/// signature as the canonical identifier, and, in `built_from`, exactly
/// the instruction plan that was handed to the signer.
pub fn build_transaction(
    payer: &Keypair,
    instructions: &Vec<Instruction>,
    blockhash: &solana_sdk::hash::Hash,
    fee: Option<PriorityFee>,
    tip: Option<TipFee>,
    extra_signers: &Vec<Keypair>,
) -> (r: Result<SignedTransaction, AssembleError>)
    ensures
        r is Ok <==> assemble_ok(
            *payer,
            realised_instructions(*payer, planned_instructions(instructions@, fee, tip)),
            extra_signers@,
        ),
        r matches Ok(st) ==> {
            &&& st.built_from@ == planned_instructions(instructions@, fee, tip)
            &&& st.transaction == transaction_of(
                *payer,
                realised_instructions(*payer, planned_instructions(instructions@, fee, tip)),
                *blockhash,
                extra_signers@,
            )
            &&& st.signature == first_signature_of(st.transaction)
        },
{
    let planned = transaction_instructions(instructions, fee, tip);
    sign_planned(payer, planned, blockhash, extra_signers)
}

/// Assemble one signed transaction as [`build_transaction`] does, with a
/// durable-nonce advance prepended ahead of everything else when
/// `nonce_info` is supplied. As there, the call succeeds exactly when
/// the (nonce-prefixed) plan's realisation compiles and signs.
pub fn build_transaction_ext(
    payer: &Keypair,
    instructions: &Vec<Instruction>,
    blockhash: &solana_sdk::hash::Hash,
    fee: Option<PriorityFee>,
    tip: Option<TipFee>,
    extra_signers: &Vec<Keypair>,
    nonce_info: Option<NonceInfo>,
) -> (r: Result<SignedTransaction, AssembleError>)
    ensures
        r is Ok <==> assemble_ok(
            *payer,
            realised_instructions(
                *payer,
                nonce_instructions(nonce_info) + planned_instructions(instructions@, fee, tip),
            ),
            extra_signers@,
        ),
        r matches Ok(st) ==> {
            &&& st.built_from@ == nonce_instructions(nonce_info)
                + planned_instructions(instructions@, fee, tip)
            &&& st.transaction == transaction_of(
                *payer,
                realised_instructions(
                    *payer,
                    nonce_instructions(nonce_info) + planned_instructions(instructions@, fee, tip),
                ),
                *blockhash,
                extra_signers@,
            )
            &&& st.signature == first_signature_of(st.transaction)
        },
{
    let mut planned: Vec<TxInstruction> = Vec::new();
    if let Some(n) = nonce_info {
        planned.push(TxInstruction::AdvanceNonce {
            nonce_account: n.nonce_account,
            nonce_authority: n.nonce_authority,
        });
    }
    let mut base = transaction_instructions(instructions, fee, tip);
    planned.append(&mut base);
    proof {
        assert(planned@ =~= nonce_instructions(nonce_info)
            + planned_instructions(instructions@, fee, tip));
    }
    sign_planned(payer, planned, blockhash, extra_signers)
}

} // verus!
