//! The shared rate register: one word, written by the input task and read
//! by the blink task, with no lock.
//!
//! Beside the running value the register carries the ghost history of every
//! value ever stored, so that the contracts can say which values a load may
//! observe: a load returns the argument of a completed store, never a torn
//! or uninitialized word.  An interleaving of the single writer and the
//! single reader is modelled as a sequence of operations, and the laws about
//! every such interleaving are proved over that model.

use vstd::prelude::*;

verus! {

/// The single shared cell holding the current blink half-period in
/// milliseconds.  Initialized before either task runs, so a reader never
/// sees an unset word.
pub struct RateRegister {
    value: u32,
    history: Ghost<Seq<u32>>,
}

impl RateRegister {
    /// Every value ever stored, in store order, the initial value first.
    pub closed spec fn writes(self) -> Seq<u32> {
        self.history@
    }

    /// The value the cell holds now: the newest completed store.
    pub closed spec fn current(self) -> u32 {
        self.value
    }

    /// The register was initialized, holds its newest store, and every
    /// stored value is positive.
    pub closed spec fn wf(self) -> bool {
        &&& self.history@.len() > 0
        &&& self.history@.last() == self.value
        &&& forall|i: int| 0 <= i < self.history@.len() ==> self.history@[i] > 0
    }

    /// Set up the register before either task can run.
    pub fn new(v: u32) -> (r: RateRegister)
        requires
            v > 0,
        ensures
            r.wf(),
            r.writes() == seq![v],
            r.current() == v,
    {
        let r = RateRegister { value: v, history: Ghost(Seq::empty().push(v)) };
        proof {
            assert(r.history@ =~= seq![v]);
        }
        r
    }

    /// Store a new period: non-blocking, atomic, whole-word.
    pub fn store(&mut self, v: u32)
        requires
            old(self).wf(),
            v > 0,
        ensures
            final(self).wf(),
            final(self).writes() == old(self).writes().push(v),
            final(self).current() == v,
    {
        self.value = v;
        self.history = Ghost(self.history@.push(v));
    }

    /// Load the period: non-blocking, atomic, whole-word.  The result is the
    /// argument of a completed store — here, of the newest one — and in
    /// particular positive.
    pub fn load(&self) -> (r: u32)
        requires
            self.wf(),
        ensures
            r == self.current(),
            self.writes().contains(r),
            r > 0,
    {
        proof {
            assert(self.writes()[self.writes().len() - 1] == self.value);
        }
        self.value
    }
}

/// One operation of an interleaving of the two tasks on the register.
#[derive(Clone, Copy, PartialEq, Eq, Structural, Debug)]
pub enum RegisterOp {
    /// The input task stores this value.
    Store(u32),
    /// The blink task loads the current value.
    Load,
}

/// A store's argument, if the operation is a store.
pub open spec fn spec_stored_value(op: RegisterOp) -> Option<u32> {
    match op {
        RegisterOp::Store(v) => Some(v),
        RegisterOp::Load => None,
    }
}

/// Whether every store of the interleaving stores a positive period.
pub open spec fn spec_positive_stores(ops: Seq<RegisterOp>) -> bool {
    forall|i: int|
        0 <= i < ops.len() ==> (#[trigger] spec_stored_value(ops[i]) matches Some(v) ==> v > 0)
}

/// The arguments of the stores completed among the first `k` operations,
/// the initial value counting as the first store.
pub open spec fn spec_stores_through(init: u32, ops: Seq<RegisterOp>, k: int) -> Seq<u32>
    decreases k,
{
    if k <= 0 {
        seq![init]
    } else {
        match ops[k - 1] {
            RegisterOp::Store(v) => spec_stores_through(init, ops, k - 1).push(v),
            RegisterOp::Load => spec_stores_through(init, ops, k - 1),
        }
    }
}

/// The value the cell holds once the first `k` operations have completed.
pub open spec fn spec_value_through(init: u32, ops: Seq<RegisterOp>, k: int) -> u32 {
    spec_stores_through(init, ops, k).last()
}

/// The results of the loads among the interleaving's first `k` operations,
/// in order.
pub open spec fn spec_loads_through(init: u32, ops: Seq<RegisterOp>, k: int) -> Seq<u32>
    decreases k,
{
    if k <= 0 {
        Seq::empty()
    } else {
        match ops[k - 1] {
            RegisterOp::Store(_) => spec_loads_through(init, ops, k - 1),
            RegisterOp::Load => spec_loads_through(init, ops, k - 1).push(
                spec_value_through(init, ops, k - 1),
            ),
        }
    }
}

/// The completed stores always include the initial one.
proof fn lemma_stores_through_nonempty(init: u32, ops: Seq<RegisterOp>, k: int)
    ensures
        spec_stores_through(init, ops, k).len() >= 1,
    decreases k,
{
    if k > 0 {
        lemma_stores_through_nonempty(init, ops, k - 1);
    }
}

/// Atomicity law: at every point of every interleaving of the one writer
/// and the one reader, the value a load returns is the argument of some
/// completed store — never a bit-mixed or uninitialized value.
pub proof fn lemma_atomic_reads(init: u32, ops: Seq<RegisterOp>, k: int)
    ensures
        spec_stores_through(init, ops, k).contains(spec_value_through(init, ops, k)),
{
    lemma_stores_through_nonempty(init, ops, k);
    let stores = spec_stores_through(init, ops, k);
    assert(stores[stores.len() - 1] == spec_value_through(init, ops, k));
}

/// No-lost-update law: once a store completes, every load that completes
/// before the next store returns exactly the stored value.  A press
/// registered while the reader is mid-sleep is therefore visible on the
/// reader's very next load, never skipped.
pub proof fn lemma_store_visible(init: u32, ops: Seq<RegisterOp>, k: int, m: int, v: u32)
    requires
        0 <= k < m <= ops.len(),
        ops[k] == RegisterOp::Store(v),
        forall|j: int| k < j < m ==> spec_stored_value(ops[j]) is None,
    ensures
        spec_value_through(init, ops, m) == v,
    decreases m - k,
{
    if m == k + 1 {
        assert(spec_stores_through(init, ops, m)
            == spec_stores_through(init, ops, k).push(v));
    } else {
        lemma_store_visible(init, ops, k, m - 1, v);
        assert(spec_stored_value(ops[m - 1]) is None);
        assert(spec_stores_through(init, ops, m) == spec_stores_through(init, ops, m - 1));
    }
}

/// Run an arbitrary interleaving of the writer's stores and the reader's
/// loads against a fresh register, and return every loaded value.  The
/// loads come out exactly as the interleaving model predicts; with
/// [`lemma_atomic_reads`] each of them is the argument of a completed
/// store.
pub fn run_interleaving(init: u32, ops: &Vec<RegisterOp>) -> (loads: Vec<u32>)
    requires
        init > 0,
        spec_positive_stores(ops@),
    ensures
        loads@ == spec_loads_through(init, ops@, ops@.len() as int),
{
    let mut reg = RateRegister::new(init);
    let mut loads: Vec<u32> = Vec::new();
    let mut i: usize = 0;
    while i < ops.len()
        invariant
            0 <= i <= ops@.len(),
            spec_positive_stores(ops@),
            reg.wf(),
            reg.writes() == spec_stores_through(init, ops@, i as int),
            reg.current() == spec_value_through(init, ops@, i as int),
            loads@ == spec_loads_through(init, ops@, i as int),
        decreases ops@.len() - i,
    {
        match ops[i] {
            RegisterOp::Store(v) => {
                assert(spec_stored_value(ops@[i as int]) == Some(v));
                reg.store(v);
            },
            RegisterOp::Load => {
                let r = reg.load();
                loads.push(r);
            },
        }
        i = i + 1;
    }
    loads
}

} // verus!
