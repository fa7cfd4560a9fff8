//! The image-fetch task for one selected card, as a state machine.
//!
//! The task walks a printing set in order. For each printing with image
//! links it asks for one download, keeping at least `MIN_SPACING_MS`
//! between the completion of one download and the start of the next.
//! A failed download is counted and the walk goes on. Whoever drives the
//! task performs the waits and downloads and reports back.
use vstd::prelude::*;
use crate::models::{Card, has_image};

verus! {

/// Least time, in milliseconds, between the completion of a download and
/// the start of the next one.
pub const MIN_SPACING_MS: u64 = 100;

/// What the driver of a task must do next.
pub enum FetchStep {
    /// Sleep this many milliseconds, then ask again.
    Wait(u64),
    /// Download the image at this link, then report the outcome.
    Download(String),
    /// Nothing is left to do.
    Finished,
}

/// What a task hands to the consumer after a download.
pub enum FetchEvent {
    /// The printing's image arrived; the card is tagged with the task's generation.
    Loaded(u64, Card),
    /// The printing's image could not be fetched; its id is given.
    Failed(u64, String),
}

/// The printings, in order, whose download succeeded, given one outcome
/// per printing.
pub open spec fn delivered_of(ps: Seq<Card>, ok: Seq<bool>) -> Seq<Card>
    decreases ps.len(),
{
    if ps.len() == 0 || ok.len() == 0 {
        Seq::empty()
    } else {
        let rest = delivered_of(ps.drop_last(), ok.drop_last());
        if ok.last() {
            rest.push(ps.last())
        } else {
            rest
        }
    }
}

/// Number of printings with image links: the work a task schedules.
pub open spec fn scheduled_count(ps: Seq<Card>) -> nat
    decreases ps.len(),
{
    if ps.len() == 0 {
        0
    } else {
        scheduled_count(ps.drop_last()) + if has_image(ps.last()) {
            1nat
        } else {
            0nat
        }
    }
}

/// Two completion times, the earlier first, are spaced by at least
/// `MIN_SPACING_MS`; the first completion of a task has nothing to keep
/// apart from.
pub open spec fn paced(before: Option<u64>, after: Option<u64>) -> bool {
    match after {
        Some(a) => match before {
            Some(b) => a >= b + MIN_SPACING_MS,
            None => true,
        },
        None => false,
    }
}

/// The fetch of one printing set's images, tagged with the generation of
/// the selection that started it.
pub struct FetchTask {
    generation: u64,
    printings: Vec<Card>,
    next: usize,
    in_flight: bool,
    issued_at: u64,
    last_completed: Option<u64>,
    failed: usize,
    ok: Ghost<Seq<bool>>,
}

impl FetchTask {
    pub closed spec fn spec_generation(&self) -> u64 {
        self.generation
    }

    pub closed spec fn spec_printings(&self) -> Seq<Card> {
        self.printings@
    }

    /// Index of the printing the task is at.
    pub closed spec fn spec_next(&self) -> nat {
        self.next as nat
    }

    /// A download has been asked for and its outcome not yet reported.
    pub closed spec fn spec_in_flight(&self) -> bool {
        self.in_flight
    }

    /// Completion time of the last reported download.
    pub closed spec fn spec_last_completed(&self) -> Option<u64> {
        self.last_completed
    }

    pub closed spec fn spec_failed(&self) -> nat {
        self.failed as nat
    }

    /// The printings handed over so far, in order.
    pub closed spec fn delivered(&self) -> Seq<Card> {
        delivered_of(self.printings@.take(self.next as int), self.ok@)
    }

    pub closed spec fn wf(&self) -> bool {
        &&& self.next <= self.printings@.len()
        &&& self.ok@.len() == self.next
        &&& self.failed <= self.next
        &&& self.in_flight ==> self.next < self.printings@.len() && has_image(
            self.printings@[self.next as int],
        )
        &&& self.in_flight ==> match self.last_completed {
            Some(t) => self.issued_at >= t + MIN_SPACING_MS,
            None => true,
        }
        &&& forall|i: int| 0 <= i < self.next && #[trigger] self.ok@[i] ==> has_image(self.printings@[i])
        &&& self.failed == 0 ==> forall|i: int|
            0 <= i < self.next && has_image(#[trigger] self.printings@[i]) ==> self.ok@[i]
    }

    pub open spec fn is_done(&self) -> bool {
        self.spec_next() == self.spec_printings().len()
    }

    /// A task for the given printing set, tagged with `generation`.
    pub fn new(generation: u64, printings: Vec<Card>) -> (r: Self)
        ensures
            r.wf(),
            r.spec_generation() == generation,
            r.spec_printings() == printings@,
            r.spec_next() == 0,
            !r.spec_in_flight(),
            r.spec_last_completed() is None,
            r.spec_failed() == 0,
            r.delivered() == Seq::<Card>::empty(),
    {
        FetchTask {
            generation,
            printings,
            next: 0,
            in_flight: false,
            issued_at: 0,
            last_completed: None,
            failed: 0,
            ok: Ghost(Seq::empty()),
        }
    }

    pub fn generation(&self) -> (r: u64)
        ensures
            r == self.spec_generation(),
    {
        self.generation
    }

    /// Whether a download was asked for and its outcome is still to be
    /// reported.
    pub fn is_in_flight(&self) -> (r: bool)
        ensures
            r == self.spec_in_flight(),
    {
        self.in_flight
    }

    /// How many downloads failed so far.
    pub fn failed_count(&self) -> (r: usize)
        ensures
            r == self.spec_failed(),
    {
        self.failed
    }

    /// How many downloads the task schedules in all.
    pub fn expected_count(&self) -> (r: usize)
        ensures
            r == scheduled_count(self.spec_printings()),
    {
        count_scheduled(&self.printings)
    }

    /// Decides what to do at time `now_ms`. Printings without image links
    /// are passed over. A cancelled task, or one at the end of its set, is
    /// finished. A download starts only once `MIN_SPACING_MS` have passed
    /// since the last one completed.
    pub fn next_step(&mut self, now_ms: u64, cancelled: bool) -> (r: FetchStep)
        requires
            old(self).wf(),
            !old(self).spec_in_flight(),
        ensures
            final(self).wf(),
            final(self).spec_generation() == old(self).spec_generation(),
            final(self).spec_printings() == old(self).spec_printings(),
            final(self).spec_failed() == old(self).spec_failed(),
            final(self).spec_last_completed() == old(self).spec_last_completed(),
            final(self).delivered() == old(self).delivered(),
            old(self).spec_next() <= final(self).spec_next(),
            forall|i: int|
                old(self).spec_next() <= i < final(self).spec_next() ==> !has_image(
                    #[trigger] old(self).spec_printings()[i],
                ),
            cancelled ==> r is Finished,
            r is Finished ==> cancelled || final(self).is_done(),
            r is Finished || r is Wait ==> !final(self).spec_in_flight(),
            match r {
                FetchStep::Wait(ms) => match old(self).spec_last_completed() {
                    Some(t) => {
                        &&& now_ms < t + MIN_SPACING_MS
                        &&& 0 < ms <= MIN_SPACING_MS
                        &&& ms == if now_ms < t {
                            MIN_SPACING_MS as int
                        } else {
                            t + MIN_SPACING_MS - now_ms
                        }
                    },
                    None => false,
                },
                FetchStep::Download(uri) => {
                    &&& final(self).spec_in_flight()
                    &&& final(self).spec_next() < final(self).spec_printings().len()
                    &&& match final(self).spec_printings()[final(self).spec_next() as int].image_uris {
                        Some(u) => u.normal == uri,
                        None => false,
                    }
                    &&& match old(self).spec_last_completed() {
                        Some(t) => now_ms >= t + MIN_SPACING_MS,
                        None => true,
                    }
                },
                FetchStep::Finished => true,
            },
    {
        let n = self.printings.len();
        while self.next < n && !cancelled && self.printings[self.next].image_uris.is_none()
            invariant
                self.wf(),
                !self.in_flight,
                n == self.printings@.len(),
                self.generation == old(self).generation,
                self.printings@ == old(self).printings@,
                self.failed == old(self).failed,
                self.last_completed == old(self).last_completed,
                self.delivered() == old(self).delivered(),
                old(self).next <= self.next,
                forall|i: int|
                    old(self).next <= i < self.next ==> !has_image(#[trigger] self.printings@[i]),
            decreases n - self.next,
        {
            proof {
                let ps = self.printings@;
                let k = self.next as int;
                assert(ps.take(k + 1).drop_last() =~= ps.take(k));
                assert((self.ok@.push(false)).drop_last() =~= self.ok@);
            }
            self.ok = Ghost(self.ok@.push(false));
            self.next = self.next + 1;
        }
        if cancelled || self.next == n {
            return FetchStep::Finished;
        }
        if let Some(t) = self.last_completed {
            if now_ms < t || now_ms - t < MIN_SPACING_MS {
                if now_ms < t {
                    return FetchStep::Wait(MIN_SPACING_MS);
                }
                return FetchStep::Wait(MIN_SPACING_MS - (now_ms - t));
            }
        }
        let uri = match &self.printings[self.next].image_uris {
            Some(u) => u.normal.clone(),
            None => String::new(),
        };
        self.in_flight = true;
        self.issued_at = now_ms;
        FetchStep::Download(uri)
    }

    /// Time at which a download reported at `now_ms` counts as completed:
    /// never before it was issued.
    fn completion_time(&self, now_ms: u64) -> (r: u64)
        ensures
            r >= self.issued_at,
            r >= now_ms,
            r == if now_ms < self.issued_at { self.issued_at } else { now_ms },
    {
        if now_ms < self.issued_at {
            self.issued_at
        } else {
            now_ms
        }
    }

    /// Reports that the pending download succeeded at `now_ms`. The printing
    /// is handed over for display and the task moves on.
    pub fn record_success(&mut self, now_ms: u64) -> (r: FetchEvent)
        requires
            old(self).wf(),
            old(self).spec_in_flight(),
        ensures
            final(self).wf(),
            !final(self).spec_in_flight(),
            final(self).spec_generation() == old(self).spec_generation(),
            final(self).spec_printings() == old(self).spec_printings(),
            final(self).spec_failed() == old(self).spec_failed(),
            final(self).spec_next() == old(self).spec_next() + 1,
            r == FetchEvent::Loaded(
                old(self).spec_generation(),
                old(self).spec_printings()[old(self).spec_next() as int],
            ),
            final(self).delivered() == old(self).delivered().push(
                old(self).spec_printings()[old(self).spec_next() as int],
            ),
            paced(old(self).spec_last_completed(), final(self).spec_last_completed()),
    {
        let done = self.completion_time(now_ms);
        let n = self.printings.len();
        let card = self.printings[self.next].clone();
        proof {
            let ps = self.printings@;
            let k = self.next as int;
            assert(ps.take(k + 1).drop_last() =~= ps.take(k));
            assert((self.ok@.push(true)).drop_last() =~= self.ok@);
        }
        self.ok = Ghost(self.ok@.push(true));
        self.next = self.next + 1;
        self.in_flight = false;
        self.last_completed = Some(done);
        FetchEvent::Loaded(self.generation, card)
    }

    /// Reports that the pending download failed at `now_ms`. The failure is
    /// counted, reported by id, and the task moves on to the next printing.
    pub fn record_failure(&mut self, now_ms: u64) -> (r: FetchEvent)
        requires
            old(self).wf(),
            old(self).spec_in_flight(),
        ensures
            final(self).wf(),
            !final(self).spec_in_flight(),
            final(self).spec_generation() == old(self).spec_generation(),
            final(self).spec_printings() == old(self).spec_printings(),
            final(self).spec_failed() == old(self).spec_failed() + 1,
            final(self).spec_next() == old(self).spec_next() + 1,
            r == FetchEvent::Failed(
                old(self).spec_generation(),
                old(self).spec_printings()[old(self).spec_next() as int].id,
            ),
            final(self).delivered() == old(self).delivered(),
            paced(old(self).spec_last_completed(), final(self).spec_last_completed()),
    {
        let done = self.completion_time(now_ms);
        let n = self.printings.len();
        let id = self.printings[self.next].id.clone();
        proof {
            let ps = self.printings@;
            let k = self.next as int;
            assert(ps.take(k + 1).drop_last() =~= ps.take(k));
            assert((self.ok@.push(false)).drop_last() =~= self.ok@);
        }
        self.ok = Ghost(self.ok@.push(false));
        self.next = self.next + 1;
        self.failed = self.failed + 1;
        self.in_flight = false;
        self.last_completed = Some(done);
        FetchEvent::Failed(self.generation, id)
    }
}

proof fn lemma_delivered_when_all_ok(ps: Seq<Card>, ok: Seq<bool>)
    requires
        ok.len() == ps.len(),
        forall|i: int| 0 <= i < ok.len() ==> #[trigger] ok[i],
    ensures
        delivered_of(ps, ok) == ps,
    decreases ps.len(),
{
    if ps.len() > 0 {
        lemma_delivered_when_all_ok(ps.drop_last(), ok.drop_last());
        assert(ok[ok.len() - 1]);
        assert(ps.drop_last().push(ps.last()) =~= ps);
    }
}

/// A task over a printing set whose printings all have image links, run to
/// its end without a failed download, hands over every printing, in the
/// set's order.
pub proof fn lemma_complete_run_delivers_all(task: FetchTask)
    requires
        task.wf(),
        task.is_done(),
        task.spec_failed() == 0,
        forall|i: int|
            0 <= i < task.spec_printings().len() ==> has_image(#[trigger] task.spec_printings()[i]),
    ensures
        task.delivered() == task.spec_printings(),
{
    let ps = task.printings@;
    assert(ps.take(task.next as int) =~= ps);
    assert forall|i: int| 0 <= i < task.ok@.len() implies #[trigger] task.ok@[i] by {
        assert(has_image(ps[i]));
    }
    lemma_delivered_when_all_ok(ps, task.ok@);
}

/// Counts the printings with image links.
pub fn count_scheduled(ps: &Vec<Card>) -> (r: usize)
    ensures
        r == scheduled_count(ps@),
{
    let mut count: usize = 0;
    let mut i: usize = 0;
    while i < ps.len()
        invariant
            i <= ps@.len(),
            count == scheduled_count(ps@.take(i as int)),
            count <= i,
        decreases ps@.len() - i,
    {
        proof {
            assert(ps@.take(i + 1).drop_last() =~= ps@.take(i as int));
        }
        if ps[i].image_uris.is_some() {
            count = count + 1;
        }
        i = i + 1;
    }
    proof {
        assert(ps@.take(i as int) =~= ps@);
    }
    count
}

} // verus!
