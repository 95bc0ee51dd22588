//! The broadcast orchestrator: for one swap (or a batch of swaps), build
//! one tailored transaction per configured provider and hand the dispatch
//! set to the transport layer, tracking per-provider outcomes.
//!
//! Two policies are proved here:
//!
//! * single-swap fan-out: a provider that requires a tip (has a tip
//!   account) is silently skipped when the caller supplies no tip amount;
//!   every transaction built carries that provider's own tip account and
//!   never another provider's;
//! * batch: every provider must have a tip account or the whole call
//!   fails naming an offending provider; per provider, every batch item
//!   carries the shared tip payment and the item order is preserved, so
//!   the returned signature list aligns positionally with the items.
//!
//! Transmission itself is network I/O and lives with the caller: the
//! fire-and-forget path returns its signatures before any transmission is
//! attempted, and transmission errors are aggregated (batch path) through
//! [`aggregate_batch_outcome`].
use crate::builder::assemble_ok;
use crate::builder::build_transaction;
use crate::builder::custom_instructions;
use crate::builder::fee_instructions;
use crate::builder::lemma_custom_instructions;
use crate::builder::planned_instructions;
use crate::builder::realised_instructions;
use crate::builder::tip_instructions;
use crate::builder::AssembleError;
use crate::builder::PriorityFee;
use crate::builder::SignedTransaction;
use crate::builder::TipFee;
use crate::builder::TxInstruction;
use solana_sdk::instruction::Instruction;
use solana_sdk::pubkey::Pubkey;
use solana_sdk::signature::Keypair;
use solana_sdk::signature::Signature;
use vstd::prelude::*;

verus! {

/// Configuration of one broadcast provider: a display name and, when the
/// provider is tip-based, the tip-destination account chosen for this
/// trading session. Constructed once at startup and read-only afterward.
pub struct ProviderDescriptor {
    pub name: String,
    pub tip_account: Option<Pubkey>,
}

/// One independent swap of a batch: its payer and its venue instructions.
pub struct BatchTxItem {
    pub payer: Keypair,
    pub instructions: Vec<Instruction>,
}

/// A transaction bound for one specific provider.
pub struct Dispatch {
    pub provider_index: usize,
    pub transaction: SignedTransaction,
}

/// Result of building a single-swap fan-out: the canonical signature of
/// every transaction built, in provider order, and the transactions
/// themselves ready for concurrent transmission.
pub struct SingleBroadcast {
    pub signatures: Vec<Signature>,
    pub dispatches: Vec<Dispatch>,
}

/// The whole batch of one provider, in item order.
pub struct BatchDispatch {
    pub provider_index: usize,
    pub transactions: Vec<SignedTransaction>,
}

/// Result of building a batch broadcast: one signature per swap item
/// (the first provider's ordering is authoritative) and one multi-
/// transaction dispatch per provider.
pub struct BatchBroadcast {
    pub signatures: Vec<Signature>,
    pub dispatches: Vec<BatchDispatch>,
}

/// Why a batch could not even be built.
#[derive(Debug, Clone)]
pub enum BatchBuildError {
    /// Batches require every provider to accept a tip; this one has no
    /// tip account.
    MissingTipAccount { provider_name: String },
    /// Message compilation or signing failed for one of the items.
    Assemble(AssembleError),
}

/// A provider takes part in a tip-less single-swap fan-out only if it
/// does not require a tip.
pub open spec fn provider_eligible(p: ProviderDescriptor, tip: Option<u64>) -> bool {
    p.tip_account is Some ==> tip is Some
}

/// The tip payment a single-swap transaction for this provider carries:
/// the provider's own tip account, or nothing for a tip-free provider.
pub open spec fn provider_tip(p: ProviderDescriptor, tip: Option<u64>) -> Option<TipFee> {
    match p.tip_account {
        Some(acct) => match tip {
            Some(t) => Some(TipFee { tip_account: acct, tip_lamports: t }),
            None => None,
        },
        None => None,
    }
}

/// The indices of the providers that take part in a single-swap fan-out,
/// in ascending provider order.
pub open spec fn eligible_indices(providers: Seq<ProviderDescriptor>, tip: Option<u64>) -> Seq<int>
    decreases providers.len(),
{
    if providers.len() == 0 {
        Seq::empty()
    } else {
        let prefix = eligible_indices(providers.drop_last(), tip);
        if provider_eligible(providers.last(), tip) {
            prefix.push(providers.len() - 1)
        } else {
            prefix
        }
    }
}

/// `eligible_indices` picks exactly the eligible providers, in strictly
/// ascending order: every listed index is in range and eligible, the
/// listing is increasing, and every eligible provider is listed.
pub proof fn lemma_eligible_indices(providers: Seq<ProviderDescriptor>, tip: Option<u64>)
    ensures
        forall|j: int| 0 <= j < eligible_indices(providers, tip).len() ==> {
            let idx = #[trigger] eligible_indices(providers, tip)[j];
            &&& 0 <= idx < providers.len()
            &&& provider_eligible(providers[idx], tip)
        },
        forall|j: int, k: int|
            0 <= j < k < eligible_indices(providers, tip).len()
                ==> #[trigger] eligible_indices(providers, tip)[j]
                    < #[trigger] eligible_indices(providers, tip)[k],
        forall|i: int| 0 <= i < providers.len() && provider_eligible(#[trigger] providers[i], tip)
            ==> eligible_indices(providers, tip).contains(i),
    decreases providers.len(),
{
    if providers.len() > 0 {
        lemma_eligible_indices(providers.drop_last(), tip);
        let prefix = eligible_indices(providers.drop_last(), tip);
        let whole = eligible_indices(providers, tip);
        assert forall|i: int|
            0 <= i < providers.len() && provider_eligible(#[trigger] providers[i], tip)
                implies whole.contains(i) by {
            if i < providers.len() - 1 {
                assert(providers.drop_last()[i] == providers[i]);
                let j = choose|j: int| 0 <= j < prefix.len() && prefix[j] == i;
                assert(whole[j] == i);
            } else {
                assert(whole.last() == i);
            }
        }
    }
}

/// What a successful single-swap build guarantees: one dispatch per
/// eligible provider in provider order, each transaction built from the
/// caller's instructions plus that provider's own tip, and the signature
/// list aligned with the dispatches.
pub open spec fn single_broadcast_ok(
    providers: Seq<ProviderDescriptor>,
    instructions: Seq<Instruction>,
    fee: Option<PriorityFee>,
    tip: Option<u64>,
    sb: SingleBroadcast,
) -> bool {
    let idxs = eligible_indices(providers, tip);
    &&& sb.dispatches@.len() == idxs.len()
    &&& sb.signatures@.len() == idxs.len()
    &&& forall|j: int| 0 <= j < idxs.len() ==> {
        let d = #[trigger] sb.dispatches@[j];
        &&& d.provider_index as int == idxs[j]
        &&& d.transaction.built_from@ == planned_instructions(
            instructions,
            fee,
            provider_tip(providers[idxs[j]], tip),
        )
        &&& sb.signatures@[j] == d.transaction.signature
    }
}

/// Whether assembly succeeds for every eligible provider of a
/// single-swap fan-out: the payer's realisation of the caller
/// instructions under that provider's tip compiles and signs.
pub open spec fn single_build_succeeds(
    payer: Keypair,
    providers: Seq<ProviderDescriptor>,
    instructions: Seq<Instruction>,
    fee: Option<PriorityFee>,
    tip: Option<u64>,
    extra_signers: Seq<Keypair>,
) -> bool {
    forall|j: int| 0 <= j < eligible_indices(providers, tip).len()
        ==> assemble_ok(
            payer,
            realised_instructions(payer, planned_instructions(
                instructions,
                fee,
                provider_tip(providers[#[trigger] eligible_indices(providers, tip)[j]], tip),
            )),
            extra_signers,
        )
}

/// A transaction tipped for one provider is never bound for another: in
/// a successful single-swap build, every tip transfer in the plan of the
/// `j`-th dispatch pays the tip account of the provider that dispatch is
/// addressed to, with exactly the supplied tip amount.
pub proof fn lemma_tip_isolation(
    providers: Seq<ProviderDescriptor>,
    instructions: Seq<Instruction>,
    fee: Option<PriorityFee>,
    tip: Option<u64>,
    sb: SingleBroadcast,
)
    requires
        single_broadcast_ok(providers, instructions, fee, tip, sb),
    ensures
        forall|j: int, k: int|
            0 <= j < sb.dispatches@.len()
                && 0 <= k < (#[trigger] sb.dispatches@[j]).transaction.built_from@.len()
                ==> match #[trigger] sb.dispatches@[j].transaction.built_from@[k] {
                    TxInstruction::TipTransfer { to, lamports } => {
                        &&& to == providers[eligible_indices(providers, tip)[j]].tip_account.unwrap()
                        &&& tip == Some(lamports)
                    },
                    _ => true,
                },
{
    let idxs = eligible_indices(providers, tip);
    lemma_eligible_indices(providers, tip);
    assert forall|j: int, k: int|
        0 <= j < sb.dispatches@.len()
            && 0 <= k < (#[trigger] sb.dispatches@[j]).transaction.built_from@.len()
            implies match #[trigger] sb.dispatches@[j].transaction.built_from@[k] {
                TxInstruction::TipTransfer { to, lamports } => {
                    &&& to == providers[eligible_indices(providers, tip)[j]].tip_account.unwrap()
                    &&& tip == Some(lamports)
                },
                _ => true,
            } by {
        let p = providers[idxs[j]];
        let plan = sb.dispatches@[j].transaction.built_from@;
        assert(plan == planned_instructions(instructions, fee, provider_tip(p, tip)));
        let fees = fee_instructions(fee);
        let tips = tip_instructions(provider_tip(p, tip));
        lemma_custom_instructions(instructions);
        if k < fees.len() {
            assert(plan[k] == fees[k]);
        } else if k < fees.len() + tips.len() {
            assert(plan[k] == tips[k - fees.len()]);
        } else {
            assert(plan[k] == custom_instructions(instructions)[k - fees.len() - tips.len()]);
        }
    }
}

/// The tip payment every item of one provider's batch carries: the
/// shared amount, aimed at that provider's own tip account.
pub open spec fn batch_tip(p: ProviderDescriptor, tip_lamports: u64) -> Option<TipFee> {
    Some(TipFee { tip_account: p.tip_account.unwrap(), tip_lamports })
}

/// What a successful batch build guarantees: every provider has a tip
/// account; one dispatch per provider, in provider order, each holding
/// one transaction per item in item order, built from that item's
/// instructions, the shared fee, and a tip to that provider's own
/// account on every item; and one signature per item, aligned with the
/// first provider's transactions.
pub open spec fn batch_broadcast_ok(
    providers: Seq<ProviderDescriptor>,
    items: Seq<BatchTxItem>,
    fee: PriorityFee,
    tip_lamports: u64,
    bb: BatchBroadcast,
) -> bool {
    &&& forall|i: int| 0 <= i < providers.len() ==> (#[trigger] providers[i]).tip_account is Some
    &&& bb.dispatches@.len() == providers.len()
    &&& forall|i: int| 0 <= i < providers.len() ==> {
        let d = #[trigger] bb.dispatches@[i];
        &&& d.provider_index as int == i
        &&& d.transactions@.len() == items.len()
        &&& forall|j: int| 0 <= j < items.len()
            ==> (#[trigger] d.transactions@[j]).built_from@ == planned_instructions(
                items[j].instructions@,
                Some(fee),
                batch_tip(providers[i], tip_lamports),
            )
    }
    &&& providers.len() > 0 ==> {
        &&& bb.signatures@.len() == items.len()
        &&& forall|j: int| 0 <= j < items.len()
            ==> #[trigger] bb.signatures@[j] == bb.dispatches@[0].transactions@[j].signature
    }
    &&& providers.len() == 0 ==> bb.signatures@.len() == 0
}

/// Whether every item's plan assembles for every provider of a batch:
/// each item's payer can compile and sign the item's instructions under
/// the shared fee and that provider's tip, with no extra signers.
pub open spec fn batch_build_succeeds(
    providers: Seq<ProviderDescriptor>,
    items: Seq<BatchTxItem>,
    fee: PriorityFee,
    tip_lamports: u64,
) -> bool {
    forall|i: int, j: int| #![trigger providers[i], items[j]]
        0 <= i < providers.len() && 0 <= j < items.len()
            ==> assemble_ok(
                items[j].payer,
                realised_instructions(items[j].payer, planned_instructions(
                    items[j].instructions@,
                    Some(fee),
                    batch_tip(providers[i], tip_lamports),
                )),
                Seq::empty(),
            )
}

/// Batch tip isolation: in a successful batch build, every tip transfer
/// found in provider `i`'s transactions pays provider `i`'s own tip
/// account with the shared amount.
pub proof fn lemma_batch_tip_isolation(
    providers: Seq<ProviderDescriptor>,
    items: Seq<BatchTxItem>,
    fee: PriorityFee,
    tip_lamports: u64,
    bb: BatchBroadcast,
)
    requires
        batch_broadcast_ok(providers, items, fee, tip_lamports, bb),
    ensures
        forall|i: int, j: int, k: int|
            0 <= i < bb.dispatches@.len()
                && 0 <= j < (#[trigger] bb.dispatches@[i]).transactions@.len()
                && 0 <= k < bb.dispatches@[i].transactions@[j].built_from@.len()
                ==> match #[trigger] bb.dispatches@[i].transactions@[j].built_from@[k] {
                    TxInstruction::TipTransfer { to, lamports } => {
                        &&& to == providers[i].tip_account.unwrap()
                        &&& lamports == tip_lamports
                    },
                    _ => true,
                },
{
    assert forall|i: int, j: int, k: int|
        0 <= i < bb.dispatches@.len()
            && 0 <= j < (#[trigger] bb.dispatches@[i]).transactions@.len()
            && 0 <= k < bb.dispatches@[i].transactions@[j].built_from@.len()
            implies match #[trigger] bb.dispatches@[i].transactions@[j].built_from@[k] {
                TxInstruction::TipTransfer { to, lamports } => {
                    &&& to == providers[i].tip_account.unwrap()
                    &&& lamports == tip_lamports
                },
                _ => true,
            } by {
        let plan = bb.dispatches@[i].transactions@[j].built_from@;
        assert(plan == planned_instructions(
            items[j].instructions@,
            Some(fee),
            batch_tip(providers[i], tip_lamports),
        ));
        let fees = fee_instructions(Some(fee));
        let tips = tip_instructions(batch_tip(providers[i], tip_lamports));
        lemma_custom_instructions(items[j].instructions@);
        if k < fees.len() {
            assert(plan[k] == fees[k]);
        } else if k < fees.len() + tips.len() {
            assert(plan[k] == tips[k - fees.len()]);
        } else {
            assert(plan[k] == custom_instructions(items[j].instructions@)[k - fees.len() - tips.len()]);
        }
    }
}

/// The orchestrator's handle: the configured providers, set at startup
/// and never mutated afterward.
pub struct TradingEndpoint {
    pub swqos: Vec<ProviderDescriptor>,
}

impl TradingEndpoint {
    /// A fresh endpoint over the given provider registry.
    pub fn new(swqos: Vec<ProviderDescriptor>) -> (r: TradingEndpoint)
        ensures
            r.swqos == swqos,
    {
        TradingEndpoint { swqos }
    }

    /// Build the single-swap fan-out: one transaction per eligible
    /// provider, skipping (without error) every tip-requiring provider
    /// when no tip amount was supplied. The call succeeds exactly when
    /// every eligible provider's plan assembles; the returned signatures
    /// are available to the caller before any transmission is attempted,
    /// and dispatching the transactions is the transport layer's job.
    pub fn build_single_broadcast(
        &self,
        payer: &Keypair,
        instructions: &Vec<Instruction>,
        blockhash: &solana_sdk::hash::Hash,
        fee: Option<PriorityFee>,
        tip: Option<u64>,
        extra_signers: &Vec<Keypair>,
    ) -> (r: Result<SingleBroadcast, AssembleError>)
        ensures
            r is Ok <==> single_build_succeeds(
                *payer, self.swqos@, instructions@, fee, tip, extra_signers@),
            r matches Ok(sb) ==> single_broadcast_ok(self.swqos@, instructions@, fee, tip, sb),
    {
        let mut dispatches: Vec<Dispatch> = Vec::new();
        let mut signatures: Vec<Signature> = Vec::new();
        let mut i: usize = 0;
        proof {
            assert(self.swqos@.take(0) =~= Seq::<ProviderDescriptor>::empty());
        }
        while i < self.swqos.len()
            invariant
                i <= self.swqos.len(),
                dispatches@.len() == eligible_indices(self.swqos@.take(i as int), tip).len(),
                signatures@.len() == dispatches@.len(),
                forall|j: int| 0 <= j < dispatches@.len() ==> {
                    let idxs = eligible_indices(self.swqos@.take(i as int), tip);
                    let d = #[trigger] dispatches@[j];
                    &&& d.provider_index as int == idxs[j]
                    &&& d.transaction.built_from@ == planned_instructions(
                        instructions@,
                        fee,
                        provider_tip(self.swqos@[idxs[j]], tip),
                    )
                    &&& signatures@[j] == d.transaction.signature
                },
                forall|j: int| 0 <= j < dispatches@.len()
                    ==> assemble_ok(
                        *payer,
                        realised_instructions(*payer, planned_instructions(
                            instructions@,
                            fee,
                            provider_tip(self.swqos@[
                                #[trigger] eligible_indices(self.swqos@.take(i as int), tip)[j]
                            ], tip),
                        )),
                        extra_signers@,
                    ),
            decreases self.swqos.len() - i,
        {
            let ghost prev_idxs = eligible_indices(self.swqos@.take(i as int), tip);
            proof {
                lemma_eligible_indices(self.swqos@.take(i as int), tip);
                assert(self.swqos@.take(i as int + 1).drop_last() =~= self.swqos@.take(i as int));
            }
            let p = &self.swqos[i];
            let mut skip = false;
            let mut tip_fee: Option<TipFee> = None;
            match (&p.tip_account, tip) {
                (Some(acct), Some(t)) => {
                    tip_fee = Some(TipFee { tip_account: *acct, tip_lamports: t });
                }
                (Some(_), None) => {
                    skip = true;
                }
                (None, _) => {}
            }
            if !skip {
                proof {
                    assert(provider_eligible(self.swqos@[i as int], tip));
                    assert(tip_fee == provider_tip(self.swqos@[i as int], tip));
                }
                let st = match build_transaction(payer, instructions, blockhash, fee, tip_fee, extra_signers) {
                    Ok(st) => st,
                    Err(e) => {
                        proof {
                            // The failing provider is eligible, so the
                            // whole fan-out cannot succeed.
                            lemma_eligible_indices(self.swqos@, tip);
                            let full_idxs = eligible_indices(self.swqos@, tip);
                            assert(full_idxs.contains(i as int));
                            let j = choose|j: int|
                                0 <= j < full_idxs.len() && full_idxs[j] == i as int;
                            assert(!single_build_succeeds(
                                *payer, self.swqos@, instructions@, fee, tip, extra_signers@,
                            )) by {
                                if single_build_succeeds(
                                    *payer, self.swqos@, instructions@, fee, tip, extra_signers@,
                                ) {
                                    assert(eligible_indices(self.swqos@, tip)[j] == i as int);
                                }
                            }
                        }
                        return Err(e);
                    }
                };
                signatures.push(st.signature);
                dispatches.push(Dispatch { provider_index: i, transaction: st });
                proof {
                    assert(eligible_indices(self.swqos@.take(i as int + 1), tip)
                        =~= prev_idxs.push(i as int));
                }
            } else {
                proof {
                    assert(!provider_eligible(self.swqos@[i as int], tip));
                    assert(eligible_indices(self.swqos@.take(i as int + 1), tip) =~= prev_idxs);
                }
            }
            i = i + 1;
        }
        proof {
            assert(self.swqos@.take(self.swqos@.len() as int) =~= self.swqos@);
            assert forall|j: int|
                0 <= j < eligible_indices(self.swqos@, tip).len()
                    implies assemble_ok(
                        *payer,
                        realised_instructions(*payer, planned_instructions(
                            instructions@,
                            fee,
                            provider_tip(self.swqos@[
                                #[trigger] eligible_indices(self.swqos@, tip)[j]
                            ], tip),
                        )),
                        extra_signers@,
                    ) by {
                assert(eligible_indices(self.swqos@.take(i as int), tip)[j]
                    == eligible_indices(self.swqos@, tip)[j]);
            }
        }
        Ok(SingleBroadcast { signatures, dispatches })
    }

    /// Build a batch broadcast: for every provider, one transaction per
    /// item, each tipped to that provider's own account, all providers
    /// required to have a tip account. Tip accounts are checked first,
    /// before anything is built: a provider without one fails the whole
    /// call with `MissingTipAccount`, naming such a provider. The call
    /// succeeds exactly when every provider has a tip account and every
    /// item's plan assembles for every provider; the signature list is
    /// the first provider's, one per item and in item order.
    pub fn build_batch_broadcast(
        &self,
        items: &Vec<BatchTxItem>,
        blockhash: &solana_sdk::hash::Hash,
        fee: PriorityFee,
        tip_lamports: u64,
    ) -> (r: Result<BatchBroadcast, BatchBuildError>)
        ensures
            r is Ok <==> ((forall|i: int| 0 <= i < self.swqos@.len()
                ==> (#[trigger] self.swqos@[i]).tip_account is Some)
                && batch_build_succeeds(self.swqos@, items@, fee, tip_lamports)),
            r matches Ok(bb) ==> batch_broadcast_ok(self.swqos@, items@, fee, tip_lamports, bb),
            r matches Err(BatchBuildError::MissingTipAccount { provider_name }) ==> exists|i: int|
                0 <= i < self.swqos@.len()
                && (#[trigger] self.swqos@[i]).tip_account is None
                && provider_name@ == self.swqos@[i].name@,
            (exists|i: int| 0 <= i < self.swqos@.len()
                && (#[trigger] self.swqos@[i]).tip_account is None)
                ==> r matches Err(BatchBuildError::MissingTipAccount { .. }),
    {
        let no_extra_signers: Vec<Keypair> = Vec::new();
        proof {
            assert(no_extra_signers@ =~= Seq::<Keypair>::empty());
        }
        // Every provider must have a tip account, checked before any
        // building.
        let mut tip_accounts: Vec<Pubkey> = Vec::new();
        let mut i: usize = 0;
        while i < self.swqos.len()
            invariant
                i <= self.swqos.len(),
                tip_accounts@.len() == i,
                forall|k: int| 0 <= k < i
                    ==> (#[trigger] self.swqos@[k]).tip_account == Some(tip_accounts@[k]),
            decreases self.swqos.len() - i,
        {
            let p = &self.swqos[i];
            match &p.tip_account {
                Some(acct) => {
                    tip_accounts.push(*acct);
                }
                None => {
                    return Err(BatchBuildError::MissingTipAccount { provider_name: p.name.clone() });
                }
            }
            i = i + 1;
        }
        let mut dispatches: Vec<BatchDispatch> = Vec::new();
        let mut i: usize = 0;
        while i < self.swqos.len()
            invariant
                i <= self.swqos.len(),
                no_extra_signers@ == Seq::<Keypair>::empty(),
                tip_accounts@.len() == self.swqos@.len(),
                forall|k: int| 0 <= k < self.swqos@.len()
                    ==> (#[trigger] self.swqos@[k]).tip_account == Some(tip_accounts@[k]),
                dispatches@.len() == i,
                forall|k: int| 0 <= k < i ==> {
                    let d = #[trigger] dispatches@[k];
                    &&& d.provider_index as int == k
                    &&& d.transactions@.len() == items@.len()
                    &&& forall|j: int| 0 <= j < items@.len()
                        ==> (#[trigger] d.transactions@[j]).built_from@ == planned_instructions(
                            items@[j].instructions@,
                            Some(fee),
                            batch_tip(self.swqos@[k], tip_lamports),
                        )
                },
                forall|k: int, j: int| #![trigger self.swqos@[k], items@[j]]
                    0 <= k < i && 0 <= j < items@.len()
                        ==> assemble_ok(
                            items@[j].payer,
                            realised_instructions(items@[j].payer, planned_instructions(
                                items@[j].instructions@,
                                Some(fee),
                                batch_tip(self.swqos@[k], tip_lamports),
                            )),
                            Seq::empty(),
                        ),
            decreases self.swqos.len() - i,
        {
            let tip_account: Pubkey = tip_accounts[i];
            let mut transactions: Vec<SignedTransaction> = Vec::new();
            let mut j: usize = 0;
            while j < items.len()
                invariant
                    j <= items.len(),
                    no_extra_signers@ == Seq::<Keypair>::empty(),
                    transactions@.len() == j,
                    i < self.swqos@.len(),
                    self.swqos@[i as int].tip_account == Some(tip_account),
                    forall|k: int| 0 <= k < self.swqos@.len()
                        ==> (#[trigger] self.swqos@[k]).tip_account is Some,
                    forall|k: int| 0 <= k < j
                        ==> (#[trigger] transactions@[k]).built_from@ == planned_instructions(
                            items@[k].instructions@,
                            Some(fee),
                            batch_tip(self.swqos@[i as int], tip_lamports),
                        ),
                    forall|k: int| 0 <= k < j
                        ==> assemble_ok(
                            (#[trigger] items@[k]).payer,
                            realised_instructions(items@[k].payer, planned_instructions(
                                items@[k].instructions@,
                                Some(fee),
                                batch_tip(self.swqos@[i as int], tip_lamports),
                            )),
                            Seq::empty(),
                        ),
                decreases items.len() - j,
            {
                let tip_fee: Option<TipFee> = Some(TipFee { tip_account, tip_lamports });
                let item = &items[j];
                let st = match build_transaction(
                    &item.payer,
                    &item.instructions,
                    blockhash,
                    Some(fee),
                    tip_fee,
                    &no_extra_signers,
                ) {
                    Ok(st) => st,
                    Err(e) => {
                        proof {
                            // This item's plan does not assemble for
                            // this provider, so the batch cannot
                            // succeed.
                            assert(!batch_build_succeeds(
                                self.swqos@, items@, fee, tip_lamports,
                            )) by {
                                if batch_build_succeeds(self.swqos@, items@, fee, tip_lamports) {
                                    assert(self.swqos@[i as int] == self.swqos@[i as int]
                                        && items@[j as int] == items@[j as int]);
                                }
                            }
                        }
                        return Err(BatchBuildError::Assemble(e));
                    }
                };
                transactions.push(st);
                j = j + 1;
            }
            dispatches.push(BatchDispatch { provider_index: i, transactions });
            i = i + 1;
        }
        let mut signatures: Vec<Signature> = Vec::new();
        if dispatches.len() > 0 {
            let mut j: usize = 0;
            while j < items.len()
                invariant
                    j <= items.len(),
                    dispatches@.len() > 0,
                    dispatches@[0].transactions@.len() == items@.len(),
                    signatures@.len() == j,
                    forall|k: int| 0 <= k < j ==> #[trigger] signatures@[k]
                        == dispatches@[0].transactions@[k].signature,
                decreases items.len() - j,
            {
                let first = &dispatches[0];
                signatures.push(first.transactions[j].signature);
                j = j + 1;
            }
        }
        Ok(BatchBroadcast { signatures, dispatches })
    }
}

/// How long a confirmation poll keeps trying, in seconds.
pub const CONFIRM_TIMEOUT_SECONDS: u64 = 10;

/// The decision of one confirmation-poll round.
#[derive(Debug, Clone, PartialEq, Eq)]
pub enum ConfirmPoll {
    /// The transaction was observed on chain.
    Confirmed,
    /// Not observed yet and time remains: read again after a pause.
    KeepWaiting,
    /// Not observed and the waiting budget is spent.
    TimedOut,
}

/// One round of the confirmation poll: a transaction observed on chain
/// in a positive slot is confirmed, whatever the clock says; otherwise
/// the poll gives up once the elapsed time exceeds the budget, and keeps
/// waiting until then. The chain read itself and the pause between
/// rounds belong to the transport layer, which feeds the observed slot
/// back in as a plain value (`None` when the lookup failed).
pub fn confirm_poll_step(
    observed_slot: Option<u64>,
    elapsed_seconds: u64,
    timeout_seconds: u64,
) -> (r: ConfirmPoll)
    ensures
        r is Confirmed <==> (observed_slot matches Some(slot) && slot > 0),
        r is TimedOut <==> (!(observed_slot matches Some(slot) && slot > 0)
            && elapsed_seconds > timeout_seconds),
        r is KeepWaiting <==> (!(observed_slot matches Some(slot) && slot > 0)
            && elapsed_seconds <= timeout_seconds),
{
    let confirmed = match observed_slot {
        Some(slot) => slot > 0,
        None => false,
    };
    if confirmed {
        ConfirmPoll::Confirmed
    } else if elapsed_seconds > timeout_seconds {
        ConfirmPoll::TimedOut
    } else {
        ConfirmPoll::KeepWaiting
    }
}

/// Outcome of one provider's transmission, as the transport layer reports
/// it back: the provider's display name and its error, if it failed.
#[derive(Debug, Clone, PartialEq, Eq)]
pub struct TransportOutcome {
    pub provider_name: String,
    pub error: Option<String>,
}

/// The aggregated failure of a batch broadcast: every failing provider's
/// outcome, in provider order.
#[derive(Debug, Clone)]
pub struct BroadcastFailure {
    pub failures: Vec<TransportOutcome>,
}

/// The transmission outcomes that carry an error, in their original
/// order.
pub open spec fn failed_outcomes(outcomes: Seq<TransportOutcome>) -> Seq<TransportOutcome>
    decreases outcomes.len(),
{
    if outcomes.len() == 0 {
        Seq::empty()
    } else {
        let prefix = failed_outcomes(outcomes.drop_last());
        if outcomes.last().error is Some {
            prefix.push(outcomes.last())
        } else {
            prefix
        }
    }
}

/// There are no failed outcomes exactly when every outcome is error-free.
pub proof fn lemma_failed_outcomes_empty(outcomes: Seq<TransportOutcome>)
    ensures
        failed_outcomes(outcomes).len() == 0 <==> (forall|i: int|
            0 <= i < outcomes.len() ==> (#[trigger] outcomes[i]).error is None),
    decreases outcomes.len(),
{
    if outcomes.len() > 0 {
        lemma_failed_outcomes_empty(outcomes.drop_last());
        if failed_outcomes(outcomes).len() == 0 {
            assert forall|i: int| 0 <= i < outcomes.len()
                implies (#[trigger] outcomes[i]).error is None by {
                if i < outcomes.len() - 1 {
                    assert(outcomes.drop_last()[i] == outcomes[i]);
                }
            }
        } else {
            if outcomes.last().error is None {
                let i = choose|i: int| 0 <= i < outcomes.drop_last().len()
                    && (#[trigger] outcomes.drop_last()[i]).error is Some;
                assert(outcomes[i].error is Some);
            }
        }
    }
}

impl TransportOutcome {
    /// An equal copy, field by field.
    pub fn duplicate(&self) -> (r: TransportOutcome)
        ensures
            r == *self,
    {
        TransportOutcome {
            provider_name: self.provider_name.clone(),
            error: match &self.error {
                Some(message) => Some(message.clone()),
                None => None,
            },
        }
    }
}

/// Aggregate a batch's per-provider transmission outcomes: succeed only
/// if every provider succeeded, otherwise fail with the complete list of
/// failing providers' outcomes, so a caller can tell "all providers
/// failed" apart from "one provider is down". Errors local to one
/// provider never leak into another's entry.
pub fn aggregate_batch_outcome(outcomes: &Vec<TransportOutcome>) -> (r: Result<(), BroadcastFailure>)
    ensures
        r is Ok <==> (forall|i: int|
            0 <= i < outcomes@.len() ==> (#[trigger] outcomes@[i]).error is None),
        r matches Err(f) ==> {
            &&& f.failures@ == failed_outcomes(outcomes@)
            &&& f.failures@.len() > 0
        },
{
    let mut failures: Vec<TransportOutcome> = Vec::new();
    let mut i: usize = 0;
    proof {
        assert(outcomes@.take(0) =~= Seq::<TransportOutcome>::empty());
    }
    while i < outcomes.len()
        invariant
            i <= outcomes.len(),
            failures@ == failed_outcomes(outcomes@.take(i as int)),
        decreases outcomes.len() - i,
    {
        proof {
            assert(outcomes@.take(i as int + 1).drop_last() =~= outcomes@.take(i as int));
        }
        let o = &outcomes[i];
        if o.error.is_some() {
            failures.push(o.duplicate());
        }
        proof {
            assert(failures@ =~= failed_outcomes(outcomes@.take(i as int + 1)));
        }
        i = i + 1;
    }
    proof {
        assert(outcomes@.take(outcomes@.len() as int) =~= outcomes@);
        lemma_failed_outcomes_empty(outcomes@);
    }
    if failures.len() == 0 {
        Ok(())
    } else {
        Err(BroadcastFailure { failures })
    }
}

} // verus!
