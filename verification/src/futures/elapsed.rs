use vstd::prelude::*;

verus! {

/// What is handed out when the work is done: the inspector to call, and the
/// two times to call it with, in nanoseconds.
pub struct ElapsedReport<F> {
    /// The inspector that was given when the tracking started.
    pub inspector: F,
    /// The time from the first poll to the end of the work.
    pub total: u128,
    /// The time spent inside polls.
    pub busy: u128,
}

/// The mathematical content of an [`ElapsedFuture`].
pub struct ElapsedView<F> {
    /// The time spent inside polls so far, in nanoseconds.
    pub busy: nat,
    /// When the first poll began, once it has.
    pub start: Option<nat>,
    /// The total time below which nothing is reported.
    pub threshold: nat,
    /// The inspector, until the work is done.
    pub inspector: Option<F>,
}

impl<F> ElapsedView<F> {
    /// The state before the first poll.
    pub open spec fn fresh(threshold: nat, inspector: F) -> ElapsedView<F> {
        ElapsedView { busy: 0, start: None, threshold, inspector: Some(inspector) }
    }

    /// The state after a poll has begun at `now`: the first poll of work that is
    /// still inspected sets the start.
    pub open spec fn poll_begin(self, now: nat) -> ElapsedView<F> {
        if self.start is None && self.inspector is Some {
            ElapsedView { start: Some(now), ..self }
        } else {
            self
        }
    }

    /// The total time at `now`: what has passed since the start, and nothing
    /// if there was no start or the clock is behind it.
    pub open spec fn total(self, now: nat) -> nat {
        match self.start {
            Some(start) => if now >= start {
                (now - start) as nat
            } else {
                0
            },
            None => 0,
        }
    }

    /// The state after a poll that took `spent`. A poll that found the work
    /// done gives the inspector away.
    pub open spec fn poll_end(self, spent: nat, ready_at: Option<nat>) -> ElapsedView<F> {
        ElapsedView {
            busy: self.busy + spent,
            inspector: if ready_at is Some {
                None
            } else {
                self.inspector
            },
            ..self
        }
    }

    /// What a poll that took `spent` reports: nothing while the work goes on,
    /// nothing if it was reported before, nothing if the total time stays below
    /// the threshold; else the inspector with the total and the busy time.
    pub open spec fn report(self, spent: nat, ready_at: Option<nat>) -> Option<(F, nat, nat)> {
        if ready_at is Some && self.inspector is Some && self.total(ready_at->0)
            >= self.threshold {
            Some((self.inspector->0, self.total(ready_at->0), self.busy + spent))
        } else {
            None
        }
    }
}

impl<F> ElapsedView<F> {
    /// The work is reported once at most: after a poll has found it done, no
    /// later poll reports anything, whatever the clock says.
    pub proof fn law_reports_once(
        self,
        spent: nat,
        ready_at: nat,
        now: nat,
        later_spent: nat,
        later_ready_at: Option<nat>,
    )
        ensures
            self.poll_end(spent, Some(ready_at)).inspector is None,
            self.poll_end(spent, Some(ready_at)).poll_begin(now).report(later_spent, later_ready_at)
                is None,
            self.poll_end(spent, Some(ready_at)).poll_begin(now).poll_end(
                later_spent,
                later_ready_at,
            ).inspector is None,
    {
    }

    /// The busy time is the sum of what the polls took, and the total time runs
    /// from the begin of the first poll.
    pub proof fn law_first_poll_starts_the_clock(
        threshold: nat,
        inspector: F,
        first: nat,
        second: nat,
        spent_first: nat,
        spent_second: nat,
        ready_at: nat,
    )
        requires
            first <= ready_at,
            ready_at - first >= threshold,
        ensures
            Self::fresh(threshold, inspector).poll_begin(first).poll_end(spent_first, None).poll_begin(
                second,
            ).report(spent_second, Some(ready_at)) == Some(
                (inspector, (ready_at - first) as nat, spent_first + spent_second),
            ),
    {
    }
}

/// Keeps the time that a piece of polled work takes: the total time from its
/// first poll to its completion, and the busy time spent inside its polls.
///
/// All times are nanoseconds on one clock that the caller reads. The caller
/// tells when a poll begins and when it ends; when the work is done, it is
/// handed the inspector to call.
#[must_use]
pub struct ElapsedFuture<F> {
    busy: u128,
    start: Option<u128>,
    threshold: u128,
    inspector: Option<F>,
}

impl<F> View for ElapsedFuture<F> {
    type V = ElapsedView<F>;

    closed spec fn view(&self) -> ElapsedView<F> {
        ElapsedView {
            busy: self.busy as nat,
            start: match self.start {
                Some(start) => Some(start as nat),
                None => None,
            },
            threshold: self.threshold as nat,
            inspector: self.inspector,
        }
    }
}

/// The mathematical content of a report that may be missing.
pub open spec fn report_view<F>(report: Option<ElapsedReport<F>>) -> Option<(F, nat, nat)> {
    match report {
        Some(r) => Some((r.inspector, r.total as nat, r.busy as nat)),
        None => None,
    }
}

impl<F> ElapsedFuture<F> {
    /// Starts tracking. `inspector` is handed back when the work is done.
    pub fn new(inspector: F) -> (tracker: Self)
        ensures
            tracker@ == ElapsedView::fresh(0, inspector),
    {
        ElapsedFuture { busy: 0, start: None, threshold: 0, inspector: Some(inspector) }
    }

    /// Starts tracking. `inspector` is handed back when the work is done, if
    /// its total time has reached `threshold` by then.
    pub fn over(threshold: u128, inspector: F) -> (tracker: Self)
        ensures
            tracker@ == ElapsedView::fresh(threshold as nat, inspector),
    {
        ElapsedFuture { busy: 0, start: None, threshold, inspector: Some(inspector) }
    }

    /// The time spent inside polls so far, in nanoseconds.
    pub fn busy(&self) -> (busy: u128)
        ensures
            busy == self@.busy,
    {
        self.busy
    }

    /// Whether the work is still inspected: it has not been found done.
    pub fn is_inspected(&self) -> (inspected: bool)
        ensures
            inspected == self@.inspector is Some,
    {
        self.inspector.is_some()
    }

    /// Takes note that a poll begins at `now`.
    pub fn poll_begin(&mut self, now: u128)
        ensures
            final(self)@ == old(self)@.poll_begin(now as nat),
    {
        if self.start.is_none() && self.inspector.is_some() {
            self.start = Some(now);
        }
    }

    /// Takes note that the poll that began last has ended after `spent`, and
    /// that it found the work done at `ready_at`, or not done.
    ///
    /// The busy time has to stay within what a `u128` holds.
    pub fn poll_end(&mut self, spent: u128, ready_at: Option<u128>) -> (report: Option<
        ElapsedReport<F>,
    >)
        requires
            old(self)@.busy + spent <= u128::MAX,
        ensures
            final(self)@ == old(self)@.poll_end(
                spent as nat,
                match ready_at {
                    Some(now) => Some(now as nat),
                    None => None,
                },
            ),
            report_view(report) == old(self)@.report(
                spent as nat,
                match ready_at {
                    Some(now) => Some(now as nat),
                    None => None,
                },
            ),
    {
        self.busy = self.busy + spent;
        match ready_at {
            Some(now) => {
                let mut taken: Option<F> = None;
                std::mem::swap(&mut self.inspector, &mut taken);
                match taken {
                    Some(inspector) => {
                        let total = match self.start {
                            Some(start) => if now >= start {
                                now - start
                            } else {
                                0
                            },
                            None => 0,
                        };
                        if total >= self.threshold {
                            Some(ElapsedReport { inspector, total, busy: self.busy })
                        } else {
                            None
                        }
                    },
                    None => None,
                }
            },
            None => None,
        }
    }
}

} // verus!
