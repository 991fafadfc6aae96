//! A minimal modular ledger state machine.
//!
//! Independent pallets each own a slice of state — a balance ledger and a
//! content-claim registry — and a runtime composes them behind one dispatch
//! surface. A block executor applies ordered batches of caller-attributed
//! calls, with per-extrinsic failure isolation: a pallet-level failure is
//! recorded and the remaining extrinsics still run, while only a structural
//! block-number mismatch aborts a whole block.

use vstd::prelude::*;

pub mod balances;
pub mod proof_of_existence;
pub mod support;
pub mod system;

use crate::support::{DispatchError, DispatchResult, ExtrinsicFailure};
use crate::system::nonce_of;

verus! {

/// The account identity the runtime chooses: accounts are named by strings.
pub type AccountId = String;

/// The balance type the runtime chooses.
pub type Balance = u128;

/// The block number type the runtime chooses.
pub type BlockNumber = u32;

/// The per-account nonce type the runtime chooses.
pub type Nonce = u32;

/// The content key type the runtime chooses for claims.
pub type Content = String;

/// The header of a block in this runtime.
pub type Header = support::Header<BlockNumber>;

/// An extrinsic addressed to this runtime.
pub type Extrinsic = support::Extrinsic<AccountId, RuntimeCall>;

/// A block of extrinsics for this runtime.
pub type Block = support::Block<Header, Extrinsic>;

/// The tagged union over all pallet call types: one variant per pallet,
/// each wrapping that pallet's own call union.
pub enum RuntimeCall {
    Balances(balances::Call),
    ProofOfExistence(proof_of_existence::Call),
}

impl Clone for RuntimeCall {
    fn clone(&self) -> (result: Self)
        ensures
            result == *self,
    {
        match self {
            RuntimeCall::Balances(call) => RuntimeCall::Balances(call.clone()),
            RuntimeCall::ProofOfExistence(call) => RuntimeCall::ProofOfExistence(call.clone()),
        }
    }
}

impl Clone for Extrinsic {
    fn clone(&self) -> (result: Self)
        ensures
            result == *self,
    {
        support::Extrinsic { caller: self.caller.clone(), call: self.call.clone() }
    }
}

/// One dispatch step over the two dispatchable ledgers: the balance ledger
/// and the claim registry after routing `call` from `caller`, and the
/// result the owning pallet reports. A failing call changes neither ledger.
pub open spec fn spec_dispatch(
    bals: Map<Seq<char>, u128>,
    claims: Map<Seq<char>, Seq<char>>,
    caller: Seq<char>,
    call: RuntimeCall,
) -> (Map<Seq<char>, u128>, Map<Seq<char>, Seq<char>>, DispatchResult) {
    match call {
        RuntimeCall::Balances(c) => (
            balances::dispatch_effect(bals, caller, c),
            claims,
            balances::dispatch_check(bals, caller, c),
        ),
        RuntimeCall::ProofOfExistence(c) => (
            bals,
            proof_of_existence::dispatch_effect(claims, caller, c),
            proof_of_existence::dispatch_check(claims, caller, c),
        ),
    }
}

/// The state after applying a batch of extrinsics in order: for each one
/// the caller's nonce advances unconditionally, then the call is routed;
/// a failing call leaves the ledgers as they were and the batch goes on.
/// Returns the nonce map, the balance ledger and the claim registry.
pub open spec fn spec_apply_extrinsics(
    nonces: Map<Seq<char>, u32>,
    bals: Map<Seq<char>, u128>,
    claims: Map<Seq<char>, Seq<char>>,
    exs: Seq<Extrinsic>,
) -> (Map<Seq<char>, u32>, Map<Seq<char>, u128>, Map<Seq<char>, Seq<char>>)
    decreases exs.len(),
{
    if exs.len() == 0 {
        (nonces, bals, claims)
    } else {
        let ex = exs[0];
        let bumped = nonces.insert(ex.caller@, (nonce_of(nonces, ex.caller@) + 1) as u32);
        let step = spec_dispatch(bals, claims, ex.caller@, ex.call);
        spec_apply_extrinsics(bumped, step.0, step.1, exs.drop_first())
    }
}

/// The failure records a batch of extrinsics produces, in batch order:
/// one record per failing extrinsic, carrying the block number, the
/// extrinsic's position (counted from `index`) and the error.
pub open spec fn spec_failures(
    block_number: u32,
    index: int,
    bals: Map<Seq<char>, u128>,
    claims: Map<Seq<char>, Seq<char>>,
    exs: Seq<Extrinsic>,
) -> Seq<ExtrinsicFailure>
    decreases exs.len(),
{
    if exs.len() == 0 {
        Seq::<ExtrinsicFailure>::empty()
    } else {
        let step = spec_dispatch(bals, claims, exs[0].caller@, exs[0].call);
        let rest = spec_failures(block_number, index + 1, step.0, step.1, exs.drop_first());
        match step.2 {
            Ok(_) => rest,
            Err(e) => seq![
                ExtrinsicFailure { block_number, index: index as usize, error: e },
            ] + rest,
        }
    }
}

/// The composition of all pallets: one owned instance of each pallet's
/// state, plus the call-routing surface and the block executor.
pub struct Runtime {
    pub system: system::Pallet,
    pub balances: balances::Pallet,
    pub proof_of_existence: proof_of_existence::Pallet,
}

impl Runtime {
    /// Creates a runtime with every pallet in its initial state.
    pub fn new() -> (result: Self)
        ensures
            result.system.spec_block_number() == 0,
            result.system.nonces() == Map::<Seq<char>, u32>::empty(),
            result.balances@ == Map::<Seq<char>, u128>::empty(),
            result.proof_of_existence@ == Map::<Seq<char>, Seq<char>>::empty(),
    {
        Runtime {
            system: system::Pallet::new(),
            balances: balances::Pallet::new(),
            proof_of_existence: proof_of_existence::Pallet::new(),
        }
    }

    /// Routes `call` from `caller` to the owning pallet and propagates that
    /// pallet's result unchanged; the runtime adds no validation of its
    /// own. The system pallet is never touched by dispatch.
    pub fn dispatch(&mut self, caller: AccountId, runtime_call: RuntimeCall) -> (result:
        DispatchResult)
        ensures
            ({
                let step = spec_dispatch(
                    old(self).balances@,
                    old(self).proof_of_existence@,
                    caller@,
                    runtime_call,
                );
                &&& final(self).balances@ == step.0
                &&& final(self).proof_of_existence@ == step.1
                &&& result == step.2
            }),
            final(self).system == old(self).system,
    {
        match runtime_call {
            RuntimeCall::Balances(call) => self.balances.dispatch(caller, call),
            RuntimeCall::ProofOfExistence(call) => self.proof_of_existence.dispatch(caller, call),
        }
    }

    /// Executes one block: advances the block number, checks it against the
    /// header, then applies each extrinsic in order. The caller's nonce
    /// advances before every dispatch, whatever its outcome. A failing
    /// extrinsic is recorded and does not stop the block nor roll back
    /// earlier extrinsics; only a header number that is not the successor
    /// of the current block number aborts the block, before any extrinsic
    /// runs — the block number itself has advanced by then.
    pub fn execute_block(&mut self, block: Block) -> (result: Result<
        Vec<ExtrinsicFailure>,
        DispatchError,
    >)
        requires
            old(self).system.spec_block_number() < u32::MAX,
            forall|k: int|
                0 <= k < block.extrinsics@.len() ==> nonce_of(
                    old(self).system.nonces(),
                    #[trigger] block.extrinsics@[k].caller@,
                ) + block.extrinsics@.len() <= u32::MAX,
        ensures
            final(self).system.spec_block_number() == old(self).system.spec_block_number() + 1,
            block.header.block_number != old(self).system.spec_block_number() + 1 ==> {
                &&& result == Err::<Vec<ExtrinsicFailure>, DispatchError>(
                    DispatchError::InvalidBlockNumber,
                )
                &&& final(self).system.nonces() == old(self).system.nonces()
                &&& final(self).balances@ == old(self).balances@
                &&& final(self).proof_of_existence@ == old(self).proof_of_existence@
            },
            block.header.block_number == old(self).system.spec_block_number() + 1 ==> {
                let end = spec_apply_extrinsics(
                    old(self).system.nonces(),
                    old(self).balances@,
                    old(self).proof_of_existence@,
                    block.extrinsics@,
                );
                &&& final(self).system.nonces() == end.0
                &&& final(self).balances@ == end.1
                &&& final(self).proof_of_existence@ == end.2
                &&& result matches Ok(failures) && failures@ == spec_failures(
                    block.header.block_number,
                    0,
                    old(self).balances@,
                    old(self).proof_of_existence@,
                    block.extrinsics@,
                )
            },
    {
        let new_number = self.system.inc_block_number();
        if block.header.block_number != new_number {
            return Err(DispatchError::InvalidBlockNumber);
        }
        let ghost nonces0 = self.system.nonces();
        let ghost bals0 = self.balances@;
        let ghost claims0 = self.proof_of_existence@;
        let mut failures: Vec<ExtrinsicFailure> = Vec::new();
        let n = block.extrinsics.len();
        proof {
            assert(block.extrinsics@.skip(0) =~= block.extrinsics@);
        }
        let mut i: usize = 0;
        while i < n
            invariant
                i <= n,
                n == block.extrinsics@.len(),
                self.system.spec_block_number() == old(self).system.spec_block_number() + 1,
                spec_apply_extrinsics(
                    self.system.nonces(),
                    self.balances@,
                    self.proof_of_existence@,
                    block.extrinsics@.skip(i as int),
                ) == spec_apply_extrinsics(nonces0, bals0, claims0, block.extrinsics@),
                failures@ + spec_failures(
                    block.header.block_number,
                    i as int,
                    self.balances@,
                    self.proof_of_existence@,
                    block.extrinsics@.skip(i as int),
                ) == spec_failures(block.header.block_number, 0, bals0, claims0, block.extrinsics@),
                forall|k: int|
                    0 <= k < n ==> nonce_of(
                        nonces0,
                        #[trigger] block.extrinsics@[k].caller@,
                    ) + n <= u32::MAX,
                forall|k: int|
                    i <= k < n ==> nonce_of(
                        self.system.nonces(),
                        #[trigger] block.extrinsics@[k].caller@,
                    ) <= nonce_of(nonces0, block.extrinsics@[k].caller@) + i,
            decreases n - i,
        {
            let ex = block.extrinsics[i].clone();
            proof {
                assert(ex == block.extrinsics@[i as int]);
                assert(ex == block.extrinsics@.skip(i as int)[0]);
                assert(block.extrinsics@.skip(i as int).drop_first() =~= block.extrinsics@.skip(
                    i as int + 1,
                ));
            }
            let support::Extrinsic { caller, call } = ex;
            let ghost nonces_pre = self.system.nonces();
            let ghost caller_view = caller@;
            self.system.inc_nonce(&caller);
            proof {
                assert forall|k: int|
                    i + 1 <= k < n implies nonce_of(
                        self.system.nonces(),
                        #[trigger] block.extrinsics@[k].caller@,
                    ) <= nonce_of(nonces0, block.extrinsics@[k].caller@) + i + 1 by {
                    if block.extrinsics@[k].caller@ =~= caller_view {
                        assert(nonce_of(nonces_pre, caller_view) <= nonce_of(
                            nonces0,
                            block.extrinsics@[i as int].caller@,
                        ) + i);
                    } else {
                        assert(nonce_of(nonces_pre, block.extrinsics@[k].caller@) <= nonce_of(
                            nonces0,
                            block.extrinsics@[k].caller@,
                        ) + i);
                    }
                }
            }
            let ghost failures_before = failures@;
            match self.dispatch(caller, call) {
                Ok(_) => {},
                Err(e) => {
                    failures.push(
                        ExtrinsicFailure {
                            block_number: block.header.block_number,
                            index: i,
                            error: e,
                        },
                    );
                    proof {
                        assert(failures@ + spec_failures(
                            block.header.block_number,
                            i as int + 1,
                            self.balances@,
                            self.proof_of_existence@,
                            block.extrinsics@.skip(i as int + 1),
                        ) =~= failures_before + spec_failures(
                            block.header.block_number,
                            i as int,
                            self.balances@,
                            self.proof_of_existence@,
                            block.extrinsics@.skip(i as int),
                        ));
                    }
                },
            }
            i = i + 1;
        }
        proof {
            assert(block.extrinsics@.skip(n as int) =~= Seq::<Extrinsic>::empty());
            assert(failures@ + Seq::<ExtrinsicFailure>::empty() =~= failures@);
        }
        Ok(failures)
    }
}

/// A failing dispatch mutates nothing: whenever routing a call reports an
/// error, the balance ledger and the claim registry both come back
/// unchanged.
pub proof fn lemma_failed_dispatch_leaves_state(
    bals: Map<Seq<char>, u128>,
    claims: Map<Seq<char>, Seq<char>>,
    caller: Seq<char>,
    call: RuntimeCall,
)
    requires
        spec_dispatch(bals, claims, caller, call).2 is Err,
    ensures
        spec_dispatch(bals, claims, caller, call).0 == bals,
        spec_dispatch(bals, claims, caller, call).1 == claims,
{
}

/// Applying a batch of extrinsics equals applying a prefix of it and then
/// the remainder, starting from the state the prefix produced.
pub proof fn lemma_apply_extrinsics_split(
    nonces: Map<Seq<char>, u32>,
    bals: Map<Seq<char>, u128>,
    claims: Map<Seq<char>, Seq<char>>,
    exs: Seq<Extrinsic>,
    i: int,
)
    requires
        0 <= i <= exs.len(),
    ensures
        ({
            let mid = spec_apply_extrinsics(nonces, bals, claims, exs.take(i));
            spec_apply_extrinsics(nonces, bals, claims, exs) == spec_apply_extrinsics(
                mid.0,
                mid.1,
                mid.2,
                exs.skip(i),
            )
        }),
    decreases i,
{
    if i == 0 {
        assert(exs.take(0) =~= Seq::<Extrinsic>::empty());
        assert(exs.skip(0) =~= exs);
    } else {
        let ex = exs[0];
        let bumped = nonces.insert(ex.caller@, (nonce_of(nonces, ex.caller@) + 1) as u32);
        let step = spec_dispatch(bals, claims, ex.caller@, ex.call);
        assert(exs.take(i)[0] == ex);
        assert(exs.take(i).drop_first() =~= exs.drop_first().take(i - 1));
        assert(exs.skip(i) =~= exs.drop_first().skip(i - 1));
        lemma_apply_extrinsics_split(bumped, step.0, step.1, exs.drop_first(), i - 1);
    }
}

/// Per-extrinsic failure isolation: when the first extrinsic of a batch
/// fails, the batch's outcome is the outcome of the remaining extrinsics
/// alone, run from the same ledgers — only the failing caller's nonce has
/// advanced.
pub proof fn lemma_failed_extrinsic_is_isolated(
    nonces: Map<Seq<char>, u32>,
    bals: Map<Seq<char>, u128>,
    claims: Map<Seq<char>, Seq<char>>,
    exs: Seq<Extrinsic>,
)
    requires
        exs.len() > 0,
        spec_dispatch(bals, claims, exs[0].caller@, exs[0].call).2 is Err,
    ensures
        spec_apply_extrinsics(nonces, bals, claims, exs) == spec_apply_extrinsics(
            nonces.insert(exs[0].caller@, (nonce_of(nonces, exs[0].caller@) + 1) as u32),
            bals,
            claims,
            exs.drop_first(),
        ),
{
    lemma_failed_dispatch_leaves_state(bals, claims, exs[0].caller@, exs[0].call);
}

/// Per-extrinsic failure isolation at any position: when the extrinsic at
/// position `i` of a batch fails against the state the preceding
/// extrinsics produced, the batch's outcome is that state, with only the
/// failing caller's nonce advanced, carried through the remaining
/// extrinsics — the failure neither rolls back the prefix nor stops the
/// remainder.
pub proof fn lemma_failed_extrinsic_anywhere_is_isolated(
    nonces: Map<Seq<char>, u32>,
    bals: Map<Seq<char>, u128>,
    claims: Map<Seq<char>, Seq<char>>,
    exs: Seq<Extrinsic>,
    i: int,
)
    requires
        0 <= i < exs.len(),
        ({
            let mid = spec_apply_extrinsics(nonces, bals, claims, exs.take(i));
            spec_dispatch(mid.1, mid.2, exs[i].caller@, exs[i].call).2 is Err
        }),
    ensures
        ({
            let mid = spec_apply_extrinsics(nonces, bals, claims, exs.take(i));
            spec_apply_extrinsics(nonces, bals, claims, exs) == spec_apply_extrinsics(
                mid.0.insert(exs[i].caller@, (nonce_of(mid.0, exs[i].caller@) + 1) as u32),
                mid.1,
                mid.2,
                exs.skip(i + 1),
            )
        }),
{
    lemma_apply_extrinsics_split(nonces, bals, claims, exs, i);
    let mid = spec_apply_extrinsics(nonces, bals, claims, exs.take(i));
    assert(exs.skip(i)[0] == exs[i]);
    assert(exs.skip(i).drop_first() =~= exs.skip(i + 1));
    lemma_failed_extrinsic_is_isolated(mid.0, mid.1, mid.2, exs.skip(i));
}

} // verus!
