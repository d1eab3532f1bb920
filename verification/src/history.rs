//! All that happens to the machines that are followed, over any number of rounds.
use crate::client::VmStatusView;
use crate::deployment::{PhaseTimingsView, VmPollingRequestView, VmPollingResponseView};
use crate::polling::{positions, timed_out, without, PollActionView, PollSettings, PollerView};
use vstd::prelude::*;

verus! {

/// What the poller is told.
pub enum PollEvent<T> {
    /// A machine is to be followed.
    Added { request: VmPollingRequestView, reply_to: T, now: int },
    /// It is asked what there is to do.
    Stepped { now: int },
    /// The API has answered about the machine that is next.
    Answered { answer: Result<VmStatusView, Seq<char>>, now: int },
}

/// What the poller does that is seen from outside. A request is known by its number: the first
/// one that was added has the number 0.
pub enum PollFact {
    /// The API is asked about the machine of a request.
    Asked { number: nat, vm_id: Seq<char> },
    /// Word of the machine of a request is sent.
    Replied { number: nat, response: VmPollingResponseView },
}

/// The request that something happened to.
pub open spec fn number_of(fact: PollFact) -> nat {
    match fact {
        PollFact::Asked { number, .. } => number,
        PollFact::Replied { number, .. } => number,
    }
}

/// Everything up to now.
pub struct PollHistory<T> {
    pub poller: PollerView<T>,
    /// The requests, by their number.
    pub requests: Seq<VmPollingRequestView>,
    /// The numbers of the requests that are followed, in the poller's order.
    pub numbers: Seq<nat>,
    /// What the poller has done.
    pub facts: Seq<PollFact>,
}

impl<T> PollHistory<T> {
    /// Nothing has happened.
    pub open spec fn start(settings: PollSettings, now: int) -> PollHistory<T> {
        PollHistory {
            poller: PollerView {
                settings,
                active: Seq::empty(),
                last_poll_time: now,
                cursor: None,
                completed: Seq::empty(),
            },
            requests: Seq::empty(),
            numbers: Seq::empty(),
            facts: Seq::empty(),
        }
    }

    /// Whether the poller may be told this now: machines are added between rounds, and an answer
    /// is about the machine that is next in a round.
    pub open spec fn allowed(self, event: PollEvent<T>) -> bool {
        match event {
            PollEvent::Added { .. } => self.poller.cursor is None && self.poller.active.len()
                < usize::MAX,
            PollEvent::Stepped { .. } => true,
            PollEvent::Answered { .. } => self.poller.cursor is Some && self.poller.cursor->0
                < self.poller.active.len(),
        }
    }

    /// After the poller was asked what there is to do.
    pub open spec fn stepped(self, now: int) -> PollHistory<T> {
        let (poller, _, action) = self.poller.next(now);
        let over = self.poller.cursor is Some && self.poller.cursor->0
            >= self.poller.active.len();
        PollHistory {
            poller,
            requests: self.requests,
            numbers: if over {
                without(self.numbers, positions(self.poller.completed))
            } else {
                self.numbers
            },
            facts: match action {
                PollActionView::Ask { vm_id } => self.facts.push(
                    PollFact::Asked { number: self.numbers[self.poller.cursor->0 as int], vm_id },
                ),
                PollActionView::Reply { index, response } => self.facts.push(
                    PollFact::Replied { number: self.numbers[index], response },
                ),
                _ => self.facts,
            },
        }
    }

    /// After an event. One that is not allowed does not happen.
    pub open spec fn after(self, event: PollEvent<T>) -> PollHistory<T> {
        if !self.allowed(event) {
            self
        } else {
            match event {
                PollEvent::Added { request, reply_to, now } => PollHistory {
                    poller: self.poller.added(request, reply_to, now),
                    requests: self.requests.push(request),
                    numbers: self.numbers.push(self.requests.len()),
                    facts: self.facts,
                },
                PollEvent::Stepped { now } => self.stepped(now),
                PollEvent::Answered { answer, now } => PollHistory {
                    poller: self.poller.answered(answer, now),
                    facts: match self.poller.verdict(answer, now).response {
                        Some(response) => self.facts.push(
                            PollFact::Replied {
                                number: self.numbers[self.poller.cursor->0 as int],
                                response,
                            },
                        ),
                        None => self.facts,
                    },
                    ..self
                },
            }
        }
    }

    /// After a list of events.
    pub open spec fn after_all(self, events: Seq<PollEvent<T>>) -> PollHistory<T>
        decreases events.len(),
    {
        if events.len() == 0 {
            self
        } else {
            self.after_all(events.drop_last()).after(events.last())
        }
    }

    /// Whether word has been sent on a request.
    pub open spec fn replied(self, number: nat) -> bool {
        exists|i: int|
            0 <= i < self.facts.len() && #[trigger] self.facts[i] is Replied && number_of(
                self.facts[i],
            ) == number
    }

    /// Once word has been sent on a request, it is not sent again and the API is not asked about
    /// the request any more.
    pub open spec fn answered_once(self) -> bool {
        forall|i: int, j: int|
            #![trigger self.facts[i], self.facts[j]]
            0 <= i < j < self.facts.len() && self.facts[i] is Replied ==> number_of(self.facts[i])
                != number_of(self.facts[j])
    }

    /// Whatever is asked or sent is about the machine of the request.
    pub open spec fn about_its_request(self) -> bool {
        forall|i: int|
            0 <= i < self.facts.len() ==> {
                &&& number_of(#[trigger] self.facts[i]) < self.requests.len()
                &&& match self.facts[i] {
                    PollFact::Asked { number, vm_id } => vm_id == self.requests[number as int].vm_id,
                    PollFact::Replied { number, response } => response.vm_id
                        == self.requests[number as int].vm_id,
                }
            }
    }

    /// Every request on which no word has been sent is followed.
    pub open spec fn none_dropped(self) -> bool {
        forall|number: nat|
            number < self.requests.len() && !#[trigger] self.replied(number)
                ==> self.numbers.contains(number)
    }

    /// The numbers belong to the machines that the poller follows, no number stands twice, and
    /// word has been sent on a request that is followed exactly if it was settled in this round.
    spec fn consistent(self) -> bool {
        &&& self.poller.wf()
        &&& self.numbers.len() == self.poller.active.len()
        &&& forall|k: int|
            #![trigger self.numbers[k]]
            #![trigger self.poller.active[k]]
            0 <= k < self.numbers.len() ==> self.numbers[k] < self.requests.len()
                && self.poller.active[k].request == self.requests[self.numbers[k] as int]
        &&& forall|k: int, l: int|
            0 <= k < l < self.numbers.len() ==> self.numbers[k] < self.numbers[l]
        &&& forall|k: int|
            0 <= k < self.numbers.len() ==> (self.replied(#[trigger] self.numbers[k])
                <==> positions(self.poller.completed).contains(k))
        &&& self.about_its_request()
        &&& self.none_dropped()
        &&& self.answered_once()
    }
}

/// Two lists keep together when the same positions are taken out of both.
proof fn lemma_kept_together<A, B>(a: Seq<A>, b: Seq<B>, gone: Set<int>)
    requires
        a.len() == b.len(),
    ensures
        without(a, gone).len() == without(b, gone).len() <= a.len(),
        forall|j: int|
            #![trigger without(a, gone)[j]]
            #![trigger without(b, gone)[j]]
            0 <= j < without(a, gone).len() ==> exists|i: int|
                0 <= i < a.len() && !gone.contains(i) && #[trigger] a[i] == without(a, gone)[j]
                    && b[i] == without(b, gone)[j],
        forall|i: int|
            #![trigger a[i]]
            0 <= i < a.len() && !gone.contains(i) ==> without(a, gone).contains(a[i]),
    decreases a.len(),
{
    if a.len() > 0 {
        let fa = a.drop_last();
        let fb = b.drop_last();
        let wa = without(a, gone);
        let wb = without(b, gone);
        let va = without(fa, gone);
        let vb = without(fb, gone);
        lemma_kept_together(fa, fb, gone);
        assert forall|j: int|
            #![trigger wa[j]]
            #![trigger wb[j]]
            0 <= j < wa.len() implies exists|i: int|
            0 <= i < a.len() && !gone.contains(i) && #[trigger] a[i] == wa[j] && b[i] == wb[j] by {
            if j < va.len() {
                assert(wa[j] == va[j] && wb[j] == vb[j]);
                let i = choose|i: int|
                    0 <= i < fa.len() && !gone.contains(i) && #[trigger] fa[i] == va[j] && fb[i]
                        == vb[j];
                assert(a[i] == fa[i] && b[i] == fb[i]);
            } else {
                assert(a[a.len() - 1] == wa[j]);
            }
        }
        assert forall|i: int|
            #![trigger a[i]]
            0 <= i < a.len() && !gone.contains(i) implies wa.contains(a[i]) by {
            if i < fa.len() {
                assert(fa[i] == a[i]);
                let j = choose|j: int| 0 <= j < va.len() && va[j] == fa[i];
                assert(wa[j] == a[i]);
            } else {
                assert(wa[wa.len() - 1] == a[i]);
            }
        }
    }
}

proof fn lemma_still_rising(s: Seq<nat>, gone: Set<int>)
    requires
        forall|k: int, l: int| 0 <= k < l < s.len() ==> s[k] < s[l],
    ensures
        forall|k: int, l: int|
            0 <= k < l < without(s, gone).len() ==> without(s, gone)[k] < without(s, gone)[l],
    decreases s.len(),
{
    if s.len() > 0 {
        let front = s.drop_last();
        lemma_still_rising(front, gone);
        lemma_kept_together(front, front, gone);
        let w = without(s, gone);
        let v = without(front, gone);
        assert forall|k: int, l: int| 0 <= k < l < w.len() implies w[k] < w[l] by {
            if l < v.len() {
                assert(w[k] == v[k] && w[l] == v[l]);
            } else {
                assert(w[k] == v[k]);
                let i = choose|i: int|
                    0 <= i < front.len() && !gone.contains(i) && #[trigger] front[i] == v[k]
                        && front[i] == v[k];
                assert(s[i] == front[i]);
                assert(w[l] == s[s.len() - 1]);
            }
        }
    }
}

/// What a new fact changes.
proof fn lemma_fact_added<T>(before: PollHistory<T>, after: PollHistory<T>, fact: PollFact)
    requires
        after.facts == before.facts.push(fact),
    ensures
        forall|number: nat| #[trigger]
            after.replied(number) <==> before.replied(number) || (fact is Replied && number_of(fact)
                == number),
{
    assert forall|number: nat| #[trigger]
        after.replied(number) <==> before.replied(number) || (fact is Replied && number_of(fact)
            == number) by {
        if before.replied(number) {
            let i = choose|i: int|
                0 <= i < before.facts.len() && #[trigger] before.facts[i] is Replied && number_of(
                    before.facts[i],
                ) == number;
            assert(after.facts[i] == before.facts[i]);
        }
        if fact is Replied && number_of(fact) == number {
            assert(after.facts[before.facts.len() as int] == fact);
        }
        if after.replied(number) {
            let i = choose|i: int|
                0 <= i < after.facts.len() && #[trigger] after.facts[i] is Replied && number_of(
                    after.facts[i],
                ) == number;
            if i < before.facts.len() {
                assert(before.facts[i] == after.facts[i]);
            }
        }
    }
}

/// The machine that is next has not been settled in this round.
proof fn lemma_next_is_open<T>(h: PollHistory<T>)
    requires
        h.consistent(),
        h.poller.cursor is Some,
        h.poller.cursor->0 < h.poller.active.len(),
    ensures
        !h.replied(h.numbers[h.poller.cursor->0 as int]),
{
    let i = h.poller.cursor->0 as int;
    if positions(h.poller.completed).contains(i) {
        let j = choose|j: int|
            0 <= j < h.poller.completed.len() && #[trigger] h.poller.completed[j] == i;
        assert(h.poller.completed[j] < i);
    }
}

/// The machine that is next has been looked at, and word of it has been sent or not.
proof fn lemma_look<T>(before: PollHistory<T>, after: PollHistory<T>, done: bool, fact: PollFact)
    requires
        before.consistent(),
        before.poller.cursor is Some,
        before.poller.cursor->0 < before.poller.active.len(),
        exists|timings: PhaseTimingsView| #[trigger]
            before.poller.looked_at(timings, done) == after.poller,
        after.requests == before.requests,
        after.numbers == before.numbers,
        !done ==> after.facts == before.facts,
        done ==> after.facts == before.facts.push(fact),
        done ==> fact is Replied,
        done ==> fact->Replied_number == before.numbers[before.poller.cursor->0 as int],
        done ==> fact->response.vm_id
            == before.poller.active[before.poller.cursor->0 as int].request.vm_id,
    ensures
        after.consistent(),
{
    let c = before.poller.cursor->0;
    let number = before.numbers[c as int];
    lemma_next_is_open(before);
    let old_done = before.poller.completed;
    let new_done = after.poller.completed;
    if done {
        lemma_fact_added(before, after, fact);
        assert(new_done == old_done.push(c));
        assert forall|k: int| positions(new_done).contains(k) <==> positions(old_done).contains(k)
            || k == c by {
            if positions(old_done).contains(k) {
                let j = choose|j: int| 0 <= j < old_done.len() && #[trigger] old_done[j] == k;
                assert(new_done[j] == k);
            }
            if k == c {
                assert(new_done[old_done.len() as int] == k);
            }
            if positions(new_done).contains(k) {
                let j = choose|j: int| 0 <= j < new_done.len() && #[trigger] new_done[j] == k;
                if j < old_done.len() {
                    assert(old_done[j] == k);
                }
            }
        }
        assert forall|k: int| 0 <= k < after.numbers.len() implies (after.replied(
            #[trigger] after.numbers[k],
        ) <==> positions(new_done).contains(k)) by {
            if k != c {
                assert(before.numbers[k] != number);
            }
        }
        assert forall|i: int, j: int|
            #![trigger after.facts[i], after.facts[j]]
            0 <= i < j < after.facts.len() && after.facts[i] is Replied implies number_of(
            after.facts[i],
        ) != number_of(after.facts[j]) by {
            assert(before.facts[i] == after.facts[i]);
            if j < before.facts.len() {
                assert(before.facts[j] == after.facts[j]);
            } else if number_of(after.facts[i]) == number {
                assert(before.replied(number));
            }
        }
        assert forall|i: int| 0 <= i < after.facts.len() implies {
            &&& number_of(#[trigger] after.facts[i]) < after.requests.len()
            &&& match after.facts[i] {
                PollFact::Asked { number, vm_id } => vm_id == after.requests[number as int].vm_id,
                PollFact::Replied { number, response } => response.vm_id
                    == after.requests[number as int].vm_id,
            }
        } by {
            if i < before.facts.len() {
                assert(after.facts[i] == before.facts[i]);
            }
        }
        assert forall|n: nat| n < after.requests.len() && !#[trigger] after.replied(
            n,
        ) implies after.numbers.contains(n) by {
            assert(!before.replied(n));
        }
    } else {
        assert forall|n: nat| after.replied(n) == #[trigger] before.replied(n) by {}
        assert forall|k: int| 0 <= k < after.numbers.len() implies (after.replied(
            #[trigger] after.numbers[k],
        ) <==> positions(new_done).contains(k)) by {
            assert(before.replied(before.numbers[k]) == after.replied(after.numbers[k]));
        }
        assert forall|n: nat| n < after.requests.len() && !#[trigger] after.replied(
            n,
        ) implies after.numbers.contains(n) by {
            assert(!before.replied(n));
        }
    }
}

/// The API is asked about the machine that is next.
proof fn lemma_ask<T>(before: PollHistory<T>, after: PollHistory<T>)
    requires
        before.consistent(),
        before.poller.cursor is Some,
        before.poller.cursor->0 < before.poller.active.len(),
        after.poller == before.poller,
        after.requests == before.requests,
        after.numbers == before.numbers,
        after.facts == before.facts.push(
            PollFact::Asked {
                number: before.numbers[before.poller.cursor->0 as int],
                vm_id: before.poller.active[before.poller.cursor->0 as int].request.vm_id,
            },
        ),
    ensures
        after.consistent(),
{
    let number = before.numbers[before.poller.cursor->0 as int];
    lemma_next_is_open(before);
    lemma_fact_added(before, after, after.facts.last());
    assert forall|i: int, j: int|
        #![trigger after.facts[i], after.facts[j]]
        0 <= i < j < after.facts.len() && after.facts[i] is Replied implies number_of(
        after.facts[i],
    ) != number_of(after.facts[j]) by {
        assert(before.facts[i] == after.facts[i]);
        if j < before.facts.len() {
            assert(before.facts[j] == after.facts[j]);
        } else if number_of(after.facts[i]) == number {
            assert(before.replied(number));
        }
    }
    assert forall|i: int| 0 <= i < after.facts.len() implies {
        &&& number_of(#[trigger] after.facts[i]) < after.requests.len()
        &&& match after.facts[i] {
            PollFact::Asked { number, vm_id } => vm_id == after.requests[number as int].vm_id,
            PollFact::Replied { number, response } => response.vm_id
                == after.requests[number as int].vm_id,
        }
    } by {
        if i < before.facts.len() {
            assert(after.facts[i] == before.facts[i]);
        }
    }
}

/// The round is over.
proof fn lemma_round_over<T>(before: PollHistory<T>, after: PollHistory<T>, now: int)
    requires
        before.consistent(),
        before.poller.cursor is Some,
        after.poller == before.poller.round_over(now),
        after.requests == before.requests,
        after.numbers == without(before.numbers, positions(before.poller.completed)),
        after.facts == before.facts,
    ensures
        after.consistent(),
{
    let gone = positions(before.poller.completed);
    lemma_kept_together(before.numbers, before.poller.active, gone);
    lemma_still_rising(before.numbers, gone);
    assert(forall|n: nat| after.replied(n) == #[trigger] before.replied(n));
    assert forall|k: int|
        #![trigger after.numbers[k]]
        #![trigger after.poller.active[k]]
        0 <= k < after.numbers.len() implies after.numbers[k] < after.requests.len()
        && after.poller.active[k].request == after.requests[after.numbers[k] as int]
        && !before.replied(after.numbers[k]) by {
        let i = choose|i: int|
            0 <= i < before.numbers.len() && !gone.contains(i) && #[trigger] before.numbers[i]
                == after.numbers[k] && before.poller.active[i] == after.poller.active[k];
        assert(before.numbers[i] < before.requests.len());
    }
    assert forall|k: int| 0 <= k < after.numbers.len() implies (after.replied(
        #[trigger] after.numbers[k],
    ) <==> positions(after.poller.completed).contains(k)) by {
        assert(!before.replied(after.numbers[k]));
    }
    assert forall|n: nat| n < after.requests.len() && !#[trigger] after.replied(
        n,
    ) implies after.numbers.contains(n) by {
        assert(!before.replied(n));
        let k = choose|k: int| 0 <= k < before.numbers.len() && before.numbers[k] == n;
        assert(!gone.contains(k));
    }
}

/// A machine is added.
proof fn lemma_added<T>(before: PollHistory<T>, request: VmPollingRequestView, reply_to: T, now: int)
    requires
        before.consistent(),
        before.allowed(PollEvent::Added { request, reply_to, now }),
    ensures
        before.after(PollEvent::Added { request, reply_to, now }).consistent(),
{
    let after = before.after(PollEvent::Added { request, reply_to, now });
    let new = before.requests.len();
    assert(forall|n: nat| after.replied(n) == #[trigger] before.replied(n));
    if before.replied(new) {
        let i = choose|i: int|
            0 <= i < before.facts.len() && #[trigger] before.facts[i] is Replied && number_of(
                before.facts[i],
            ) == new;
        assert(number_of(before.facts[i]) < before.requests.len());
    }
    assert forall|k: int| 0 <= k < after.numbers.len() implies (after.replied(
        #[trigger] after.numbers[k],
    ) <==> positions(after.poller.completed).contains(k)) by {
        if k < before.numbers.len() {
            assert(after.numbers[k] == before.numbers[k]);
        } else {
            assert(!before.replied(new));
        }
    }
    assert forall|n: nat| n < after.requests.len() && !#[trigger] after.replied(
        n,
    ) implies after.numbers.contains(n) by {
        if n < new {
            assert(!before.replied(n));
            let k = choose|k: int| 0 <= k < before.numbers.len() && before.numbers[k] == n;
            assert(after.numbers[k] == n);
        } else {
            assert(after.numbers[before.numbers.len() as int] == n);
        }
    }
}

proof fn lemma_event<T>(before: PollHistory<T>, event: PollEvent<T>)
    requires
        before.consistent(),
    ensures
        before.after(event).consistent(),
{
    let after = before.after(event);
    if before.allowed(event) {
        match event {
            PollEvent::Added { request, reply_to, now } => {
                lemma_added(before, request, reply_to, now);
            },
            PollEvent::Stepped { now } => {
                if before.poller.cursor is Some {
                    let c = before.poller.cursor->0;
                    if c >= before.poller.active.len() {
                        lemma_round_over(before, after, now);
                    } else if timed_out(
                        before.poller.active[c as int].timings,
                        before.poller.settings.timeout_seconds,
                        now,
                    ) {
                        assert(before.poller.looked_at(
                            before.poller.active[c as int].timings,
                            true,
                        ) == after.poller);
                        lemma_look(before, after, true, after.facts.last());
                    } else {
                        lemma_ask(before, after);
                    }
                } else {
                    assert(forall|n: nat| after.replied(n) == #[trigger] before.replied(n));
                    assert forall|k: int| 0 <= k < after.numbers.len() implies (after.replied(
                        #[trigger] after.numbers[k],
                    ) <==> positions(after.poller.completed).contains(k)) by {
                        assert(after.replied(after.numbers[k]) == before.replied(
                            before.numbers[k],
                        ));
                    }
                    assert forall|n: nat| n < after.requests.len() && !#[trigger] after.replied(
                        n,
                    ) implies after.numbers.contains(n) by {
                        assert(!before.replied(n));
                    }
                }
            },
            PollEvent::Answered { answer, now } => {
                let v = before.poller.verdict(answer, now);
                assert(before.poller.looked_at(v.timings, v.response is Some) == after.poller);
                let fact = if v.response is Some {
                    after.facts.last()
                } else {
                    PollFact::Asked { number: 0, vm_id: Seq::empty() }
                };
                lemma_look(before, after, v.response is Some, fact);
            },
        }
    }
}

proof fn lemma_events<T>(settings: PollSettings, now: int, events: Seq<PollEvent<T>>)
    ensures
        PollHistory::<T>::start(settings, now).after_all(events).consistent(),
    decreases events.len(),
{
    let start = PollHistory::<T>::start(settings, now);
    if events.len() > 0 {
        lemma_events(settings, now, events.drop_last());
        lemma_event(start.after_all(events.drop_last()), events.last());
    }
}

/// Whatever happens, and in whatever order: word of a machine is sent at most once for each
/// request, the API is not asked about the request after that, and what is asked and sent is
/// about the machine of the request.
pub proof fn law_one_response_for_each_request<T>(
    settings: PollSettings,
    now: int,
    events: Seq<PollEvent<T>>,
)
    ensures
        PollHistory::<T>::start(settings, now).after_all(events).answered_once(),
        PollHistory::<T>::start(settings, now).after_all(events).about_its_request(),
{
    lemma_events(settings, now, events);
}

/// Whatever happens, and in whatever order: a request is followed until word has been sent on it.
pub proof fn law_requests_are_followed_until_answered<T>(
    settings: PollSettings,
    now: int,
    events: Seq<PollEvent<T>>,
)
    ensures
        PollHistory::<T>::start(settings, now).after_all(events).none_dropped(),
{
    lemma_events(settings, now, events);
}

/// A machine that still has time is asked after when it is next. If it is launching then, no word
/// is sent in this round, and at its end the machine is followed on.
pub proof fn law_launching_machines_stay<T>(
    settings: PollSettings,
    start: int,
    events: Seq<PollEvent<T>>,
    now: int,
    later: int,
    s: VmStatusView,
)
    requires
        ({
            let h = PollHistory::<T>::start(settings, start).after_all(events);
            &&& h.allowed(PollEvent::Answered { answer: Ok(s), now: later })
            &&& !timed_out(
                h.poller.active[h.poller.cursor->0 as int].timings,
                settings.timeout_seconds,
                now,
            )
            &&& s.status == "Launching"@
        }),
    ensures
        ({
            let h = PollHistory::<T>::start(settings, start).after_all(events);
            let number = h.numbers[h.poller.cursor->0 as int];
            let asked = h.after(PollEvent::Stepped { now });
            let told = asked.after(PollEvent::Answered { answer: Ok(s), now: later });
            &&& asked.facts.last() is Asked && number_of(asked.facts.last()) == number
            &&& told.facts == asked.facts
            &&& !told.replied(number)
            &&& !positions(told.poller.completed).contains(h.poller.cursor->0 as int)
            &&& told.numbers.contains(number)
        }),
{
    let h = PollHistory::<T>::start(settings, start).after_all(events);
    let c = h.poller.cursor->0;
    let number = h.numbers[c as int];
    lemma_events(settings, start, events);
    lemma_settings(settings, start, events);
    let asked = h.after(PollEvent::Stepped { now });
    let told = asked.after(PollEvent::Answered { answer: Ok(s), now: later });
    lemma_event(h, PollEvent::Stepped { now });
    lemma_event(asked, PollEvent::Answered { answer: Ok(s), now: later });
    lemma_next_is_open(h);
    lemma_fact_added(h, asked, asked.facts.last());
    assert(told.replied(number) == asked.replied(number));
    assert(told.numbers[c as int] == number);
}

proof fn lemma_settings<T>(settings: PollSettings, now: int, events: Seq<PollEvent<T>>)
    ensures
        PollHistory::<T>::start(settings, now).after_all(events).poller.settings == settings,
    decreases events.len(),
{
    if events.len() > 0 {
        lemma_settings(settings, now, events.drop_last());
    }
}

} // verus!
