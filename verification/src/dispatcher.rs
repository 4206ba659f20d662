//! The dispatcher: takes envelopes off the hand-off queue, in order, until it
//! meets the shutdown sentinel.

use crate::envelope::Envelope;
use crate::queue::HandoffQueue;
use vstd::prelude::*;

verus! {

/// How many envelopes stand at the head of `waiting` before the first
/// sentinel, or before the end where there is no sentinel.
pub open spec fn head_len(waiting: Seq<Option<Envelope>>) -> nat
    decreases waiting.len(),
{
    if waiting.len() > 0 && waiting[0] is Some {
        1 + head_len(waiting.drop_first())
    } else {
        0
    }
}

/// Whether a sentinel waits somewhere in `waiting`.
pub open spec fn has_sentinel(waiting: Seq<Option<Envelope>>) -> bool {
    head_len(waiting) < waiting.len()
}

/// The envelopes a running dispatcher hands out when it works through
/// `waiting`: those before the first sentinel, in their order.
pub open spec fn runnable(waiting: Seq<Option<Envelope>>) -> Seq<Envelope> {
    Seq::new(head_len(waiting), |i: int| waiting[i]->0)
}

/// What a running dispatcher leaves in the queue when it works through
/// `waiting`: everything behind the first sentinel.
pub open spec fn leftover(waiting: Seq<Option<Envelope>>) -> Seq<Option<Envelope>> {
    if has_sentinel(waiting) {
        waiting.skip(head_len(waiting) as int + 1)
    } else {
        Seq::empty()
    }
}

/// What one turn of the dispatcher loop came to.
#[derive(Debug)]
pub enum Step {
    /// An envelope left the queue; it is to be run, by a unit of concurrency of
    /// its own, while the dispatcher goes on.
    Run(Envelope),
    /// Nothing waits; the dispatcher is to wait for the next message.
    Idle,
    /// The sentinel was met, now or earlier; the loop is over.
    Exit,
}

/// The dispatcher loop's memory: whether it has met the sentinel.
#[derive(Debug)]
pub struct Dispatcher {
    stopped: bool,
}

impl Dispatcher {
    /// Whether the dispatcher has met the sentinel.
    pub closed spec fn stopped(&self) -> bool {
        self.stopped
    }

    /// A dispatcher that has not met the sentinel.
    pub fn new() -> (dispatcher: Self)
        ensures
            !dispatcher.stopped(),
    {
        Dispatcher { stopped: false }
    }

    /// Whether the dispatcher has met the sentinel.
    pub fn is_stopped(&self) -> (stopped: bool)
        ensures
            stopped == self.stopped(),
    {
        self.stopped
    }

    /// One turn of the loop. A stopped dispatcher leaves the queue alone. A
    /// running one takes the oldest message: an envelope is handed out to be
    /// run, the sentinel stops the dispatcher for good.
    pub fn step(&mut self, queue: &mut HandoffQueue) -> (step: Step)
        ensures
            old(self).stopped() ==> {
                &&& step is Exit
                &&& final(self).stopped()
                &&& final(queue)@ == old(queue)@
            },
            !old(self).stopped() && old(queue)@.len() == 0 ==> {
                &&& step is Idle
                &&& !final(self).stopped()
                &&& final(queue)@ == old(queue)@
            },
            !old(self).stopped() && old(queue)@.len() > 0 ==> {
                &&& final(queue)@ == old(queue)@.drop_first()
                &&& match old(queue)@.first() {
                    Some(envelope) => step == Step::Run(envelope) && !final(self).stopped(),
                    None => step is Exit && final(self).stopped(),
                }
            },
    {
        if self.stopped {
            return Step::Exit;
        }
        match queue.dequeue() {
            None => Step::Idle,
            Some(Some(envelope)) => Step::Run(envelope),
            Some(None) => {
                self.stopped = true;
                Step::Exit
            },
        }
    }
}

/// Unfolds `head_len` at a position inside the head: if the first `i`
/// messages are envelopes, the head is `i` plus the head of what follows.
pub proof fn lemma_head_len_skip(waiting: Seq<Option<Envelope>>, i: int)
    requires
        0 <= i <= waiting.len(),
        forall|j: int| 0 <= j < i ==> (#[trigger] waiting[j]) is Some,
    ensures
        head_len(waiting) == i + head_len(waiting.skip(i)),
    decreases i,
{
    if i == 0 {
        assert(waiting.skip(0) =~= waiting);
    } else {
        let rest = waiting.drop_first();
        assert forall|j: int| 0 <= j < i - 1 implies (#[trigger] rest[j]) is Some by {
            assert(rest[j] == waiting[j + 1]);
        }
        lemma_head_len_skip(rest, i - 1);
        assert(rest.skip(i - 1) =~= waiting.skip(i));
    }
}

/// The dispatcher loop over what waits in the queue. A running dispatcher
/// hands out, in their order, all envelopes before the first sentinel; it stops
/// for good if it met the sentinel and leaves behind what followed it. Without a
/// sentinel it empties the queue and stays running, to be called again when
/// more has arrived. A stopped dispatcher hands out nothing and leaves the queue
/// as it is.
pub fn callback_thread(
    dispatcher: &mut Dispatcher,
    queue: &mut HandoffQueue,
) -> (run: Vec<Envelope>)
    ensures
        old(dispatcher).stopped() ==> {
            &&& run@.len() == 0
            &&& final(dispatcher).stopped()
            &&& final(queue)@ == old(queue)@
        },
        !old(dispatcher).stopped() ==> {
            &&& run@ == runnable(old(queue)@)
            &&& final(dispatcher).stopped() == has_sentinel(old(queue)@)
            &&& final(queue)@ == leftover(old(queue)@)
        },
{
    let mut run: Vec<Envelope> = Vec::new();
    let ghost waiting = queue@;
    let ghost was_stopped = dispatcher.stopped();
    loop
        invariant_except_break
            !was_stopped ==> !dispatcher.stopped(),
        invariant
            was_stopped ==> dispatcher.stopped() && run@.len() == 0 && queue@ == waiting,
            0 <= run@.len() <= waiting.len(),
            !was_stopped ==> forall|j: int| 0 <= j < run@.len() ==> (#[trigger] waiting[j]) is Some,
            !was_stopped ==> forall|j: int| 0 <= j < run@.len() ==> run@[j] == waiting[j]->0,
            !was_stopped && !dispatcher.stopped() ==> queue@ == waiting.skip(run@.len() as int),
        ensures
            was_stopped ==> run@.len() == 0 && dispatcher.stopped() && queue@ == waiting,
            !was_stopped ==> {
                &&& run@ == runnable(waiting)
                &&& dispatcher.stopped() == has_sentinel(waiting)
                &&& queue@ == leftover(waiting)
            },
        decreases waiting.len() - run@.len(),
    {
        let ghost done = run@.len() as int;
        let step = dispatcher.step(queue);
        match step {
            Step::Run(envelope) => {
                proof {
                    assert(waiting.skip(done)[0] == waiting[done]);
                    assert(waiting.skip(done).drop_first() =~= waiting.skip(done + 1));
                }
                run.push(envelope);
            },
            Step::Idle => {
                proof {
                    lemma_head_len_skip(waiting, done);
                    assert(waiting.skip(done).len() == 0);
                    assert(head_len(waiting) == done);
                    assert(run@ =~= runnable(waiting));
                    assert(queue@ =~= leftover(waiting));
                }
                break ;
            },
            Step::Exit => {
                proof {
                    if !was_stopped {
                        lemma_head_len_skip(waiting, done);
                        assert(waiting.skip(done)[0] == waiting[done]);
                        assert(head_len(waiting.skip(done)) == 0);
                        assert(head_len(waiting) == done);
                        assert(run@ =~= runnable(waiting));
                        assert(waiting.skip(done).drop_first() =~= waiting.skip(done + 1));
                    }
                }
                break ;
            },
        }
    }
    run
}

/// The messages that enqueueing `envelopes` one after the other puts on the
/// queue.
pub open spec fn as_messages(envelopes: Seq<Envelope>) -> Seq<Option<Envelope>> {
    Seq::new(envelopes.len(), |i: int| Some(envelopes[i]))
}

/// The head of a queue reaches exactly to its first sentinel: every message
/// before position `head_len` is an envelope, and the message at that position,
/// if there is one, is the sentinel.
pub proof fn lemma_head_len_bounds(waiting: Seq<Option<Envelope>>)
    ensures
        head_len(waiting) <= waiting.len(),
        forall|j: int| 0 <= j < head_len(waiting) ==> (#[trigger] waiting[j]) is Some,
        head_len(waiting) < waiting.len() ==> waiting[head_len(waiting) as int] is None,
    decreases waiting.len(),
{
    if waiting.len() > 0 && waiting[0] is Some {
        let rest = waiting.drop_first();
        lemma_head_len_bounds(rest);
        assert forall|j: int| 0 <= j < head_len(waiting) implies (#[trigger] waiting[j]) is Some by {
            if j > 0 {
                assert(waiting[j] == rest[j - 1]);
            }
        }
        if head_len(waiting) < waiting.len() {
            assert(waiting[head_len(waiting) as int] == rest[head_len(rest) as int]);
        }
    }
}

/// First in, first out, each one once: when only envelopes wait, the
/// dispatcher hands out every one of them, in the order they were enqueued,
/// empties the queue and keeps running.
pub proof fn lemma_every_envelope_once_in_order(envelopes: Seq<Envelope>)
    ensures
        runnable(as_messages(envelopes)) == envelopes,
        !has_sentinel(as_messages(envelopes)),
        leftover(as_messages(envelopes)) == Seq::<Option<Envelope>>::empty(),
{
    let waiting = as_messages(envelopes);
    lemma_head_len_skip(waiting, waiting.len() as int);
    assert(waiting.skip(waiting.len() as int).len() == 0);
    assert(runnable(waiting) =~= envelopes);
}

/// Enqueueing changes nothing that waits: every message keeps its place, none
/// is removed or repeated, and the new envelope stands last. To a queue without
/// a sentinel it adds one envelope to hand out, behind all the others; behind a
/// sentinel it is never handed out and stays in the queue.
pub proof fn lemma_enqueue_goes_last(waiting: Seq<Option<Envelope>>, envelope: Envelope)
    ensures
        waiting.push(Some(envelope)).len() == waiting.len() + 1,
        forall|i: int|
            0 <= i < waiting.len() ==> (#[trigger] waiting.push(Some(envelope))[i]) == waiting[i],
        waiting.push(Some(envelope)).last() == Some(envelope),
        has_sentinel(waiting.push(Some(envelope))) == has_sentinel(waiting),
        runnable(waiting.push(Some(envelope))) == if has_sentinel(waiting) {
            runnable(waiting)
        } else {
            runnable(waiting).push(envelope)
        },
        leftover(waiting.push(Some(envelope))) == if has_sentinel(waiting) {
            leftover(waiting).push(Some(envelope))
        } else {
            Seq::empty()
        },
{
    lemma_head_len_bounds(waiting);
    let longer = waiting.push(Some(envelope));
    let k = head_len(waiting) as int;
    assert forall|j: int| 0 <= j < k implies (#[trigger] longer[j]) is Some by {
        assert(longer[j] == waiting[j]);
    }
    if has_sentinel(waiting) {
        lemma_head_len_skip(longer, k);
        assert(longer.skip(k)[0] == waiting[k]);
        assert(head_len(longer.skip(k)) == 0);
        assert(runnable(longer) =~= runnable(waiting));
        assert(longer.skip(k + 1) =~= waiting.skip(k + 1).push(Some(envelope)));
    } else {
        assert forall|j: int| 0 <= j < longer.len() implies (#[trigger] longer[j]) is Some by {
            if j < waiting.len() {
                assert(longer[j] == waiting[j]);
            }
        }
        lemma_head_len_skip(longer, longer.len() as int);
        assert(longer.skip(longer.len() as int).len() == 0);
        assert(runnable(longer) =~= runnable(waiting).push(envelope));
    }
}

/// Nothing behind the sentinel is run: when `before` was enqueued, then the
/// sentinel, then anything at all, the dispatcher hands out exactly `before`,
/// stops, and leaves what came behind the sentinel in the queue.
pub proof fn lemma_nothing_runs_behind_sentinel(before: Seq<Envelope>, behind: Seq<Option<Envelope>>)
    ensures
        runnable(as_messages(before).push(None) + behind) == before,
        has_sentinel(as_messages(before).push(None) + behind),
        leftover(as_messages(before).push(None) + behind) == behind,
{
    let waiting = as_messages(before).push(None) + behind;
    let k = before.len() as int;
    assert forall|j: int| 0 <= j < k implies (#[trigger] waiting[j]) is Some by {
        assert(waiting[j] == as_messages(before)[j]);
    }
    lemma_head_len_skip(waiting, k);
    assert(waiting.skip(k)[0] == waiting[k]);
    assert(waiting[k] == as_messages(before).push(None)[k]);
    assert(head_len(waiting.skip(k)) == 0);
    assert(runnable(waiting) =~= before);
    assert(waiting.skip(k + 1) =~= behind);
}

} // verus!
