//! Registry of in-flight acknowledgments: each submitted task gets a fresh id,
//! and the id can later be consumed exactly once, by a blocking take or by a
//! poll that finds the task finished.
use std::collections::HashMap;
use vstd::prelude::*;

verus! {

/// The id that is never handed out; the boundary returns it to signal failure.
pub const NO_ACK_ID: u64 = 0;

/// The abstract state of an [`AckRegistry`]: the next id to issue, and the
/// tasks that were submitted and not yet consumed.
pub ghost struct AckState<T> {
    pub next_id: nat,
    pub pending: Map<u64, T>,
}

impl<T> AckState<T> {
    /// Ids start at one, and only ids that were issued can be pending.
    pub open spec fn wf(self) -> bool {
        &&& self.next_id >= 1
        &&& forall|id: u64| #[trigger] self.pending.contains_key(id) ==> 1 <= id < self.next_id
    }

    /// An id can be awaited or polled exactly while this holds.
    pub open spec fn is_live(self, id: u64) -> bool {
        self.pending.contains_key(id)
    }

    /// The state after `task` is submitted under the id `self.next_id`.
    pub open spec fn after_submit(self, task: T) -> AckState<T> {
        AckState { next_id: self.next_id + 1, pending: self.pending.insert(self.next_id as u64, task) }
    }

    /// The state after `id` is consumed (a no-op where it is not live).
    pub open spec fn after_consume(self, id: u64) -> AckState<T> {
        AckState { next_id: self.next_id, pending: self.pending.remove(id) }
    }
}

/// One change of registry state: a submission, or the consumption of an id
/// by a blocking take or by a poll that found the task finished.
pub ghost enum AckOp<T> {
    Submit(T),
    Consume(u64),
}

impl<T> AckState<T> {
    pub open spec fn step(self, op: AckOp<T>) -> AckState<T> {
        match op {
            AckOp::Submit(task) => self.after_submit(task),
            AckOp::Consume(id) => self.after_consume(id),
        }
    }

    /// The state after the operations `ops`, in order.
    pub open spec fn run(self, ops: Seq<AckOp<T>>) -> AckState<T>
        decreases ops.len(),
    {
        if ops.len() == 0 {
            self
        } else {
            self.step(ops[0]).run(ops.drop_first())
        }
    }

    /// The ids that the submissions among `ops` return, in order.
    pub open spec fn issued(self, ops: Seq<AckOp<T>>) -> Seq<u64>
        decreases ops.len(),
    {
        if ops.len() == 0 {
            Seq::empty()
        } else {
            let rest = self.step(ops[0]).issued(ops.drop_first());
            match ops[0] {
                AckOp::Submit(_) => seq![self.next_id as u64] + rest,
                AckOp::Consume(_) => rest,
            }
        }
    }
}

/// Each operation keeps the registry well formed.
pub proof fn lemma_step_wf<T>(s: AckState<T>, op: AckOp<T>)
    requires
        s.wf(),
        op is Submit ==> s.next_id < u64::MAX,
    ensures
        s.step(op).wf(),
{
    match op {
        AckOp::Submit(task) => {
            let t = s.after_submit(task);
            assert forall|k: u64| #[trigger] t.pending.contains_key(k) implies 1 <= k < t.next_id by {
                if k != s.next_id as u64 {
                    assert(s.pending.contains_key(k));
                }
            }
        },
        AckOp::Consume(id) => {
            let t = s.after_consume(id);
            assert forall|k: u64| #[trigger] t.pending.contains_key(k) implies 1 <= k < t.next_id by {
                assert(s.pending.contains_key(k));
            }
        },
    }
}

/// Over any sequence of submissions and consumptions, the ids that the
/// submissions return are strictly increasing, so none is ever returned twice,
/// and each is at least the registry's next id before the sequence.
pub proof fn lemma_issued_ids_increase<T>(s: AckState<T>, ops: Seq<AckOp<T>>)
    requires
        s.wf(),
        s.next_id + ops.len() <= u64::MAX,
    ensures
        s.run(ops).wf(),
        s.run(ops).next_id >= s.next_id,
        forall|i: int| 0 <= i < s.issued(ops).len() ==> s.next_id <= #[trigger] s.issued(ops)[i] < s.run(ops).next_id,
        forall|i: int, j: int| 0 <= i < j < s.issued(ops).len() ==> #[trigger] s.issued(ops)[i] < #[trigger] s.issued(ops)[j],
    decreases ops.len(),
{
    if ops.len() > 0 {
        let t = s.step(ops[0]);
        let rest = ops.drop_first();
        lemma_step_wf(s, ops[0]);
        lemma_issued_ids_increase(t, rest);
        assert(s.run(ops) == t.run(rest));
        match ops[0] {
            AckOp::Submit(_) => {
                let iss = s.issued(ops);
                assert(iss == seq![s.next_id as u64] + t.issued(rest));
                assert forall|i: int| 0 <= i < iss.len() implies s.next_id <= #[trigger] iss[i] < s.run(ops).next_id by {
                    if i > 0 {
                        assert(iss[i] == t.issued(rest)[i - 1]);
                    }
                }
                assert forall|i: int, j: int| 0 <= i < j < iss.len() implies #[trigger] iss[i] < #[trigger] iss[j] by {
                    assert(iss[j] == t.issued(rest)[j - 1]);
                    if i > 0 {
                        assert(iss[i] == t.issued(rest)[i - 1]);
                    }
                }
            },
            AckOp::Consume(_) => {},
        }
    }
}

/// An id that was never issued is not live, and consuming it changes nothing,
/// so every attempt on it reports an invalid id.
pub proof fn lemma_unissued_id_invalid<T>(s: AckState<T>, id: u64)
    requires
        s.wf(),
        id == NO_ACK_ID || id >= s.next_id,
    ensures
        !s.is_live(id),
        s.after_consume(id) == s,
{
    assert(s.pending.remove(id) =~= s.pending);
}

/// Once an id has been consumed, it is not live again after any later
/// sequence of submissions and consumptions: a second take or poll on it,
/// immediate or not, reports an invalid id.
pub proof fn lemma_consumed_id_stays_invalid<T>(s: AckState<T>, id: u64, ops: Seq<AckOp<T>>)
    requires
        s.wf(),
        s.is_live(id),
        s.next_id + ops.len() <= u64::MAX,
    ensures
        !s.after_consume(id).run(ops).is_live(id),
    decreases ops.len(),
{
    let c = s.after_consume(id);
    lemma_step_wf(s, AckOp::Consume(id));
    lemma_consumed_stays_dead(c, id, ops);
}

proof fn lemma_consumed_stays_dead<T>(s: AckState<T>, id: u64, ops: Seq<AckOp<T>>)
    requires
        s.wf(),
        !s.is_live(id),
        1 <= id < s.next_id,
        s.next_id + ops.len() <= u64::MAX,
    ensures
        !s.run(ops).is_live(id),
    decreases ops.len(),
{
    if ops.len() > 0 {
        lemma_step_wf(s, ops[0]);
        lemma_consumed_stays_dead(s.step(ops[0]), id, ops.drop_first());
    }
}

/// What a non-blocking poll found.
#[derive(Debug)]
pub enum AckPoll<T> {
    /// The task is still running; its entry stays in the registry.
    Pending,
    /// The task has finished; its entry was removed and is handed back.
    Ready(T),
    /// No task is registered under the id: never issued, or already consumed.
    Invalid,
}

/// Maps acknowledgment ids to the tasks that will produce their results.
pub struct AckRegistry<T> {
    next_id: u64,
    entries: HashMap<u64, T>,
}

impl<T> View for AckRegistry<T> {
    type V = AckState<T>;

    closed spec fn view(&self) -> AckState<T> {
        AckState { next_id: self.next_id as nat, pending: self.entries@ }
    }
}

impl<T> AckRegistry<T> {
    /// An empty registry whose first id is one.
    pub fn new() -> (r: Self)
        ensures
            r@.next_id == 1,
            r@.pending == Map::<u64, T>::empty(),
            r@.wf(),
    {
        AckRegistry { next_id: 1, entries: HashMap::new() }
    }

    /// Whether another id can still be issued.
    pub fn can_issue(&self) -> (r: bool)
        ensures
            r == (self@.next_id < u64::MAX),
    {
        self.next_id < u64::MAX
    }

    /// Whether `id` is currently pending.
    pub fn contains(&self, id: u64) -> (r: bool)
        ensures
            r == self@.is_live(id),
    {
        self.entries.contains_key(&id)
    }

    /// Registers `task` under a fresh id and returns that id.
    pub fn submit(&mut self, task: T) -> (id: u64)
        requires
            old(self)@.wf(),
            old(self)@.next_id < u64::MAX,
        ensures
            id == old(self)@.next_id,
            id != NO_ACK_ID,
            !old(self)@.is_live(id),
            final(self)@ == old(self)@.after_submit(task),
            final(self)@.wf(),
    {
        let id = self.next_id;
        self.entries.insert(id, task);
        self.next_id = id + 1;
        proof {
            assert forall|k: u64| #[trigger] self.entries@.contains_key(k) implies 1 <= k
                < self.next_id by {
                if k != id {
                    assert(old(self)@.pending.contains_key(k));
                }
            }
        }
        id
    }

    /// Removes and returns the task under `id`, if it is pending.
    pub fn take(&mut self, id: u64) -> (r: Option<T>)
        requires
            old(self)@.wf(),
        ensures
            r is Some <==> old(self)@.is_live(id),
            r is Some ==> r->0 == old(self)@.pending[id],
            final(self)@ == old(self)@.after_consume(id),
            final(self)@.wf(),
    {
        let r = self.entries.remove(&id);
        proof {
            assert(self.entries@ =~= old(self)@.pending.remove(id));
        }
        r
    }

    /// Looks at the task under `id` without blocking: a finished task is
    /// removed and handed back, an unfinished one stays where it is.
    pub fn try_poll<F: Fn(&T) -> bool>(&mut self, id: u64, finished: F) -> (r: AckPoll<T>)
        requires
            old(self)@.wf(),
            forall|t: &T| #[trigger] finished.requires((t,)),
        ensures
            r is Invalid <==> !old(self)@.is_live(id),
            r is Pending ==> finished.ensures((&old(self)@.pending[id],), false),
            r is Ready ==> r->0 == old(self)@.pending[id] && finished.ensures((&r->0,), true),
            r is Ready ==> final(self)@ == old(self)@.after_consume(id),
            !(r is Ready) ==> final(self)@ == old(self)@,
            final(self)@.wf(),
    {
        let done = match self.entries.get(&id) {
            None => {
                return AckPoll::Invalid;
            },
            Some(task) => finished(task),
        };
        if !done {
            return AckPoll::Pending;
        }
        match self.take(id) {
            Some(task) => AckPoll::Ready(task),
            None => AckPoll::Invalid,
        }
    }
}

} // verus!
