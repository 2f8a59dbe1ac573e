//! Bookkeeping for reliable sends: which sequence numbers are in flight, and
//! the single-use signal that tells each sender its packet was acknowledged.
//!
//! The coordinator only tracks presence.  Deadlines and retransmission belong
//! to the caller, who waits on the handle that `register` returns.

use vstd::prelude::*;
use std::collections::HashMap;
use tokio::sync::oneshot::{Receiver, Sender};
use crate::error::ConfigError;

verus! {

/// `tokio::sync::oneshot::Sender`, the half of a single-use channel that
/// signals.  Carried through as it is; nothing is known of its inside.
#[verifier::external_type_specification]
#[verifier::external_body]
#[verifier::reject_recursive_types(T)]
pub struct ExSender<T>(Sender<T>);

/// `tokio::sync::oneshot::Receiver`, the half that waits: the completion
/// handle of a reliable send.  Carried through as it is.
#[verifier::external_type_specification]
#[verifier::external_body]
#[verifier::reject_recursive_types(T)]
pub struct ExReceiver<T>(Receiver<T>);

/// `tokio::sync::oneshot::error::RecvError`, which a receiver yields when
/// its sender is gone.  Named here because the receiver's type mentions it.
#[verifier::external_type_specification]
#[verifier::external_body]
pub struct ExRecvError(tokio::sync::oneshot::error::RecvError);

/// `tokio::sync::oneshot::channel` makes the two halves of a single-use
/// channel.  Nothing is claimed of them.
pub assume_specification<T>[ tokio::sync::oneshot::channel::<T> ]() -> (halves: (
    Sender<T>,
    Receiver<T>,
));

/// `tokio::sync::oneshot::Sender::send` uses the sender up and returns at
/// once; it gives the value back where the receiver is gone.  Nothing is
/// claimed of which of the two happens.
pub assume_specification<T>[ Sender::<T>::send ](sender: Sender<T>, value: T) -> (sent: Result<
    (),
    T,
>);

/// One step in a coordinator's life.
#[derive(Debug, Clone, Copy, PartialEq, Eq, Structural)]
pub enum CoordinatorOp {
    /// `register` with this sequence number.
    Register(u32),
    /// `resolve` with this sequence number.
    Resolve(u32),
}

/// The sequence numbers in flight after `op`, where `pending` were before.
pub open spec fn apply(pending: Set<u32>, op: CoordinatorOp) -> Set<u32> {
    match op {
        CoordinatorOp::Register(s) => pending.insert(s),
        CoordinatorOp::Resolve(s) => pending.remove(s),
    }
}

/// Whether `op` does its work on `pending`: a registration finds its number
/// free, a resolution finds its send in flight and completes its handle.
pub open spec fn takes_effect(pending: Set<u32>, op: CoordinatorOp) -> bool {
    match op {
        CoordinatorOp::Register(s) => !pending.contains(s),
        CoordinatorOp::Resolve(s) => pending.contains(s),
    }
}

/// The sequence numbers in flight after the steps `ops`, one after the other.
pub open spec fn run(pending: Set<u32>, ops: Seq<CoordinatorOp>) -> Set<u32>
    decreases ops.len(),
{
    if ops.len() == 0 {
        pending
    } else {
        apply(run(pending, ops.drop_last()), ops.last())
    }
}

/// The sequence number that a step speaks of.
pub open spec fn subject(op: CoordinatorOp) -> u32 {
    match op {
        CoordinatorOp::Register(s) => s,
        CoordinatorOp::Resolve(s) => s,
    }
}

/// Whether `op` is one of the first `k` steps of `ops`.
pub open spec fn occurs_before(ops: Seq<CoordinatorOp>, k: int, op: CoordinatorOp) -> bool {
    exists|i: int| 0 <= i < k && #[trigger] ops[i] == op
}

/// Whether `op` is one of the steps of `ops` after the first `k + 1`.
pub open spec fn occurs_after(ops: Seq<CoordinatorOp>, k: int, op: CoordinatorOp) -> bool {
    exists|j: int| k < j < ops.len() && #[trigger] ops[j] == op
}

/// A schedule of register/resolve pairs on distinct sequence numbers, in any
/// interleaving: no step occurs twice, every registration is resolved later,
/// and every resolution was registered earlier.
pub open spec fn is_paired_schedule(ops: Seq<CoordinatorOp>) -> bool {
    &&& forall|i: int, j: int| 0 <= i < j < ops.len() ==> #[trigger] ops[i] != #[trigger] ops[j]
    &&& forall|i: int|
        0 <= i < ops.len() && #[trigger] ops[i] is Register ==> occurs_after(
            ops,
            i,
            CoordinatorOp::Resolve(subject(ops[i])),
        )
    &&& forall|j: int|
        0 <= j < ops.len() && #[trigger] ops[j] is Resolve ==> occurs_before(
            ops,
            j,
            CoordinatorOp::Register(subject(ops[j])),
        )
}

/// The sequence numbers that the first `k` steps of `ops` registered and did
/// not resolve.
pub open spec fn unresolved(ops: Seq<CoordinatorOp>, k: int) -> Set<u32> {
    Set::new(
        |s: u32|
            occurs_before(ops, k, CoordinatorOp::Register(s)) && !occurs_before(
                ops,
                k,
                CoordinatorOp::Resolve(s),
            ),
    )
}

/// A registration followed by its resolution leaves in flight what was in
/// flight before, and both steps take effect; a second resolution finds
/// nothing and changes nothing, and so does the resolution of a number that
/// was never registered.
pub proof fn lemma_register_then_resolve(pending: Set<u32>, s: u32, other: u32)
    requires
        !pending.contains(s),
        !pending.contains(other),
    ensures
        takes_effect(pending, CoordinatorOp::Register(s)),
        takes_effect(apply(pending, CoordinatorOp::Register(s)), CoordinatorOp::Resolve(s)),
        run(pending, seq![CoordinatorOp::Register(s), CoordinatorOp::Resolve(s)]) == pending,
        !takes_effect(
            run(pending, seq![CoordinatorOp::Register(s), CoordinatorOp::Resolve(s)]),
            CoordinatorOp::Resolve(s),
        ),
        run(
            pending,
            seq![CoordinatorOp::Register(s), CoordinatorOp::Resolve(s), CoordinatorOp::Resolve(s)],
        ) == pending,
        !takes_effect(pending, CoordinatorOp::Resolve(other)),
        apply(pending, CoordinatorOp::Resolve(other)) == pending,
{
    let register = CoordinatorOp::Register(s);
    let resolve = CoordinatorOp::Resolve(s);
    let one = seq![register];
    let two = seq![register, resolve];
    let three = seq![register, resolve, resolve];
    assert(one.drop_last() =~= Seq::<CoordinatorOp>::empty());
    assert(two.drop_last() =~= one);
    assert(three.drop_last() =~= two);
    assert(run(pending, Seq::<CoordinatorOp>::empty()) == pending);
    assert(run(pending, one) == pending.insert(s));
    assert(run(pending, two) =~= pending);
    assert(run(pending, three) =~= pending);
    assert(apply(pending, CoordinatorOp::Resolve(other)) =~= pending);
}

/// One more step is among the first `k + 1` where it was among the first `k`
/// or is the step at `k`.
proof fn lemma_occurs_before_step(ops: Seq<CoordinatorOp>, k: int, op: CoordinatorOp)
    requires
        0 <= k < ops.len(),
    ensures
        occurs_before(ops, k + 1, op) <==> occurs_before(ops, k, op) || ops[k] == op,
{
    if occurs_before(ops, k + 1, op) {
        let i = choose|i: int| 0 <= i < k + 1 && #[trigger] ops[i] == op;
        if i < k {
            assert(occurs_before(ops, k, op));
        }
    }
    if occurs_before(ops, k, op) {
        let i = choose|i: int| 0 <= i < k && #[trigger] ops[i] == op;
        assert(0 <= i < k + 1 && ops[i] == op);
    }
    if ops[k] == op {
        assert(0 <= k < k + 1 && ops[k] == op);
    }
}

/// In a paired schedule the step at `k` did not occur before, a resolution
/// at `k` was registered before, and a registration at `k` was not resolved
/// before.
proof fn lemma_step_is_fresh(ops: Seq<CoordinatorOp>, k: int)
    requires
        is_paired_schedule(ops),
        0 <= k < ops.len(),
    ensures
        !occurs_before(ops, k, ops[k]),
        ops[k] is Resolve ==> occurs_before(ops, k, CoordinatorOp::Register(subject(ops[k]))),
        ops[k] is Register ==> !occurs_before(ops, k, CoordinatorOp::Resolve(subject(ops[k]))),
{
    if occurs_before(ops, k, ops[k]) {
        let i = choose|i: int| 0 <= i < k && #[trigger] ops[i] == ops[k];
        assert(ops[i] != ops[k]);
    }
    let s = subject(ops[k]);
    if ops[k] is Register && occurs_before(ops, k, CoordinatorOp::Resolve(s)) {
        let j = choose|j: int| 0 <= j < k && #[trigger] ops[j] == CoordinatorOp::Resolve(s);
        assert(ops[j] is Resolve);
        assert(occurs_before(ops, j, CoordinatorOp::Register(s)));
        let i = choose|i: int| 0 <= i < j && #[trigger] ops[i] == CoordinatorOp::Register(s);
        assert(ops[i] != ops[k]);
    }
}

/// After any number of steps of a paired schedule, what is in flight is what
/// was before and what the steps registered and did not resolve; and the
/// next step takes effect.
proof fn lemma_schedule_prefix(pending: Set<u32>, ops: Seq<CoordinatorOp>, k: int)
    requires
        is_paired_schedule(ops),
        forall|i: int| 0 <= i < ops.len() ==> !pending.contains(subject(#[trigger] ops[i])),
        0 <= k <= ops.len(),
    ensures
        run(pending, ops.take(k)) == pending.union(unresolved(ops, k)),
        k < ops.len() ==> takes_effect(run(pending, ops.take(k)), ops[k]),
    decreases k,
{
    if k == 0 {
        assert(run(pending, ops.take(0)) =~= pending.union(unresolved(ops, 0)));
    } else {
        lemma_schedule_prefix(pending, ops, k - 1);
        assert(ops.take(k).drop_last() =~= ops.take(k - 1));
        let before = run(pending, ops.take(k - 1));
        let op = ops[k - 1];
        let t = subject(op);
        assert(ops.take(k).last() == op);
        assert(run(pending, ops.take(k)) == apply(before, op));
        assert(!pending.contains(t));
        lemma_step_is_fresh(ops, k - 1);
        assert forall|s: u32|
            apply(before, op).contains(s) == pending.union(unresolved(ops, k)).contains(
                s,
            ) by {
            lemma_occurs_before_step(ops, k - 1, CoordinatorOp::Register(s));
            lemma_occurs_before_step(ops, k - 1, CoordinatorOp::Resolve(s));
        }
        assert(run(pending, ops.take(k)) =~= pending.union(unresolved(ops, k)));
    }
    if k < ops.len() {
        assert(!pending.contains(subject(ops[k])));
        lemma_step_is_fresh(ops, k);
    }
}

/// Register/resolve pairs on distinct sequence numbers, none of them in
/// flight before, all complete in whatever order their steps interleave:
/// every registration is accepted, every resolution finds its own send, and
/// at the end exactly the sends that were in flight before still are.  At no
/// point does a sequence number that the schedule does not speak of come or
/// go.
pub proof fn lemma_paired_schedule_completes(pending: Set<u32>, ops: Seq<CoordinatorOp>)
    requires
        is_paired_schedule(ops),
        forall|i: int| 0 <= i < ops.len() ==> !pending.contains(subject(#[trigger] ops[i])),
    ensures
        forall|k: int|
            0 <= k < ops.len() ==> takes_effect(run(pending, ops.take(k)), #[trigger] ops[k]),
        run(pending, ops) == pending,
        forall|k: int, other: u32|
            0 <= k <= ops.len() && (forall|i: int|
                0 <= i < ops.len() ==> subject(#[trigger] ops[i]) != other) ==> (#[trigger] run(
                pending,
                ops.take(k),
            ).contains(other)) == pending.contains(other),
{
    assert forall|k: int| 0 <= k < ops.len() implies takes_effect(
        run(pending, ops.take(k)),
        #[trigger] ops[k],
    ) by {
        lemma_schedule_prefix(pending, ops, k);
    }
    let n = ops.len() as int;
    lemma_schedule_prefix(pending, ops, n);
    assert(ops.take(n) =~= ops);
    assert forall|s: u32| !unresolved(ops, n).contains(s) by {
        if unresolved(ops, n).contains(s) {
            let i = choose|i: int| 0 <= i < n && #[trigger] ops[i] == CoordinatorOp::Register(s);
            assert(ops[i] is Register);
            assert(occurs_after(ops, i, CoordinatorOp::Resolve(s)));
            let j = choose|j: int|
                i < j < ops.len() && #[trigger] ops[j] == CoordinatorOp::Resolve(s);
            assert(0 <= j < n && ops[j] == CoordinatorOp::Resolve(s));
        }
    }
    assert(pending.union(unresolved(ops, n)) =~= pending);
    assert forall|k: int, other: u32|
        0 <= k <= ops.len() && (forall|i: int|
            0 <= i < ops.len() ==> subject(#[trigger] ops[i]) != other) implies (#[trigger] run(
        pending,
        ops.take(k),
    ).contains(other)) == pending.contains(other) by {
        lemma_schedule_prefix(pending, ops, k);
        if unresolved(ops, k).contains(other) {
            let i = choose|i: int|
                0 <= i < k && #[trigger] ops[i] == CoordinatorOp::Register(other);
            assert(subject(ops[i]) == other);
        }
    }
}

/// The reliable sends that wait for their acknowledgment.
pub struct ReliabilityCoordinator {
    waiting: HashMap<u32, Sender<()>>,
}

impl ReliabilityCoordinator {
    /// The sequence numbers in flight.
    pub closed spec fn pending(&self) -> Set<u32> {
        self.waiting@.dom()
    }

    /// A coordinator with nothing in flight.
    pub fn new() -> (coordinator: ReliabilityCoordinator)
        ensures
            coordinator.pending() == Set::<u32>::empty(),
    {
        ReliabilityCoordinator { waiting: HashMap::new() }
    }

    /// Whether a send with this sequence number is in flight.
    pub fn is_pending(&self, sequence_number: u32) -> (waiting: bool)
        ensures
            waiting == self.pending().contains(sequence_number),
    {
        self.waiting.contains_key(&sequence_number)
    }

    /// How many sends are in flight.
    pub fn len(&self) -> (n: usize)
        ensures
            n == self.pending().len(),
            self.pending().finite(),
    {
        self.waiting.len()
    }

    /// Records a reliable send and returns the handle that completes when its
    /// acknowledgment is processed.  A sequence number that is already in
    /// flight is refused, and nothing changes.
    pub fn register(&mut self, sequence_number: u32) -> (r: Result<Receiver<()>, ConfigError>)
        ensures
            r is Ok <==> !old(self).pending().contains(sequence_number),
            r is Ok ==> final(self).pending() == old(self).pending().insert(sequence_number),
            r matches Err(e) ==> e == (ConfigError::DuplicateSequence { sequence_number })
                && final(self).pending() == old(self).pending(),
            r is Ok <==> takes_effect(
                old(self).pending(),
                CoordinatorOp::Register(sequence_number),
            ),
            final(self).pending() == apply(
                old(self).pending(),
                CoordinatorOp::Register(sequence_number),
            ),
    {
        if self.waiting.contains_key(&sequence_number) {
            return Err(ConfigError::DuplicateSequence { sequence_number });
        }
        let (sender, receiver) = tokio::sync::oneshot::channel::<()>();
        self.waiting.insert(sequence_number, sender);
        Ok(receiver)
    }

    /// Processes an acknowledgment: where a send with this sequence number is
    /// in flight, signals its handle and forgets it; otherwise does nothing.
    /// Says whether there was such a send.  A handle whose waiting side has
    /// gone away takes the signal without effect.
    pub fn resolve(&mut self, sequence_number: u32) -> (found: bool)
        ensures
            found == old(self).pending().contains(sequence_number),
            final(self).pending() == old(self).pending().remove(sequence_number),
            !found ==> final(self).pending() == old(self).pending(),
            found == takes_effect(old(self).pending(), CoordinatorOp::Resolve(sequence_number)),
            final(self).pending() == apply(
                old(self).pending(),
                CoordinatorOp::Resolve(sequence_number),
            ),
    {
        match self.waiting.remove(&sequence_number) {
            Some(sender) => {
                let _ = sender.send(());
                true
            },
            None => false,
        }
    }
}

} // verus!
