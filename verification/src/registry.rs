//! The subscriber broadcast registry.
//!
//! Clients that issue `listen` are enrolled here and from then on
//! receive every line the daemon logs. The driver performs the socket
//! writes and reports, per subscriber, whether the write succeeded; the
//! registry records the broadcast, keeps exactly the subscribers whose
//! write succeeded, and drops the rest in the same pass. The ghost
//! broadcast history proves the delivery guarantee: each enrolled
//! subscriber has received exactly the lines broadcast since it joined,
//! in issuance order.

use vstd::prelude::*;

verus! {

/// One enrolled `listen` connection. The `id` is the driver's handle
/// for the underlying stream; the ghost fields carry the subscriber's
/// delivery record.
pub struct Subscriber {
    pub id: u64,
    /// Length of the broadcast history when this subscriber joined.
    pub joined_at: Ghost<nat>,
    /// Every line delivered to this subscriber, in delivery order.
    pub delivered: Ghost<Seq<Seq<char>>>,
}

/// The mathematical value of one subscriber.
pub struct SubModel {
    pub id: u64,
    pub joined_at: nat,
    pub delivered: Seq<Seq<char>>,
}

/// A subscriber after one more line was delivered to it.
pub open spec fn spec_delivered_to(s: SubModel, line: Seq<char>) -> SubModel {
    SubModel { id: s.id, joined_at: s.joined_at, delivered: s.delivered.push(line) }
}

/// The subscribers that survive one broadcast pass: those whose write
/// succeeded, in their old order, each with the line appended to its
/// delivery record.
pub open spec fn spec_surviving(
    subs: Seq<SubModel>,
    outcomes: Seq<bool>,
    line: Seq<char>,
) -> Seq<SubModel>
    decreases subs.len(),
{
    if subs.len() == 0 {
        Seq::empty()
    } else {
        let rest = spec_surviving(subs.skip(1), outcomes.skip(1), line);
        if outcomes.len() > 0 && outcomes[0] {
            seq![spec_delivered_to(subs[0], line)] + rest
        } else {
            rest
        }
    }
}

/// The registry: the enrolled subscribers and, as ghost state, every
/// line broadcast so far.
pub struct Registry {
    pub subs: Vec<Subscriber>,
    pub history: Ghost<Seq<Seq<char>>>,
}

impl Registry {
    /// The mathematical value of the subscriber list.
    pub open spec fn model(self) -> Seq<SubModel> {
        self.subs@.map_values(
            |s: Subscriber| SubModel { id: s.id, joined_at: s.joined_at@, delivered: s.delivered@ },
        )
    }

    /// Well-formedness: every subscriber joined at some point of the
    /// history and has been delivered exactly the lines broadcast since.
    pub open spec fn wf(self) -> bool {
        forall|i: int|
            0 <= i < self.model().len() ==> {
                let s = #[trigger] self.model()[i];
                s.joined_at <= self.history@.len() && s.delivered == self.history@.skip(
                    s.joined_at as int,
                )
            }
    }

    /// An empty registry with no broadcast history.
    pub fn new() -> (r: Registry)
        ensures
            r.wf(),
            r.model().len() == 0,
            r.history@.len() == 0,
    {
        Registry { subs: Vec::new(), history: Ghost(Seq::empty()) }
    }

    /// How many subscribers are enrolled.
    pub fn len(&self) -> (n: usize)
        ensures
            n == self.model().len(),
    {
        self.subs.len()
    }

    /// Enrolls a connection. The new subscriber starts with an empty
    /// delivery record; everyone already enrolled is untouched.
    pub fn subscribe(&mut self, id: u64)
        requires
            old(self).wf(),
        ensures
            final(self).wf(),
            final(self).history@ == old(self).history@,
            final(self).model().len() == old(self).model().len() + 1,
            forall|i: int|
                0 <= i < old(self).model().len() ==> final(self).model()[i] == old(self).model()[i],
            final(self).model().last().id == id,
            final(self).model().last().joined_at == old(self).history@.len(),
            final(self).model().last().delivered == Seq::<Seq<char>>::empty(),
    {
        let sub = Subscriber {
            id,
            joined_at: Ghost(self.history@.len()),
            delivered: Ghost(Seq::empty()),
        };
        self.subs.push(sub);
        proof {
            assert(self.history@.skip(self.history@.len() as int) =~= Seq::<Seq<char>>::empty());
            assert(self.model() =~= old(self).model().push(
                SubModel { id, joined_at: self.history@.len(), delivered: Seq::empty() },
            ));
        }
    }

    /// Records one broadcast pass. `outcomes[i]` says whether the write
    /// of `line` to subscriber `i` succeeded; the pass appends the line
    /// to the history, keeps exactly the subscribers written to
    /// successfully, and drops the failed ones in this same pass.
    pub fn record_broadcast(&mut self, line: &str, outcomes: &Vec<bool>)
        requires
            old(self).wf(),
            outcomes@.len() == old(self).model().len(),
        ensures
            final(self).wf(),
            final(self).history@ == old(self).history@.push(line@),
            final(self).model() == spec_surviving(old(self).model(), outcomes@, line@),
    {
        let ghost old_model = self.model();
        let n = self.subs.len();
        let mut kept: Vec<Subscriber> = Vec::new();
        let mut i: usize = 0;
        proof {
            assert(old_model.skip(0) =~= old_model);
            assert(outcomes@.skip(0) =~= outcomes@);
        }
        while i < n
            invariant
                n == self.subs@.len(),
                old_model == self.model(),
                outcomes@.len() == n,
                i <= n,
                spec_surviving(old_model, outcomes@, line@) =~~= kept@.map_values(
                    |s: Subscriber| SubModel {
                        id: s.id,
                        joined_at: s.joined_at@,
                        delivered: s.delivered@,
                    },
                ) + spec_surviving(old_model.skip(i as int), outcomes@.skip(i as int), line@),
            decreases n - i,
        {
            let ghost pre_kept = kept@;
            if outcomes[i] {
                let s = &self.subs[i];
                let updated = Subscriber {
                    id: s.id,
                    joined_at: s.joined_at,
                    delivered: Ghost(s.delivered@.push(line@)),
                };
                kept.push(updated);
            }
            proof {
                assert(old_model.skip(i as int).skip(1) =~= old_model.skip(i + 1));
                assert(outcomes@.skip(i as int).skip(1) =~= outcomes@.skip(i + 1));
                assert(old_model.skip(i as int)[0] == old_model[i as int]);
                assert(outcomes@.skip(i as int)[0] == outcomes@[i as int]);
            }
            i = i + 1;
        }
        proof {
            assert(old_model.skip(n as int) =~= Seq::<SubModel>::empty());
            assert(outcomes@.skip(n as int) =~= Seq::<bool>::empty());
        }
        self.subs = kept;
        self.history = Ghost(self.history@.push(line@));
        proof {
            let h = self.history@;
            assert forall|j: int| 0 <= j < self.model().len() implies {
                let s = #[trigger] self.model()[j];
                s.joined_at <= h.len() && s.delivered == h.skip(s.joined_at as int)
            } by {
                lemma_surviving_wf(old_model, outcomes@, line@, old(self).history@, j);
            }
        }
    }
}

/// A surviving subscriber's delivery record is still the history suffix
/// from its join point, once the broadcast line is appended to both.
proof fn lemma_surviving_wf(
    subs: Seq<SubModel>,
    outcomes: Seq<bool>,
    line: Seq<char>,
    history: Seq<Seq<char>>,
    j: int,
)
    requires
        forall|i: int|
            0 <= i < subs.len() ==> {
                let s = #[trigger] subs[i];
                s.joined_at <= history.len() && s.delivered == history.skip(s.joined_at as int)
            },
        0 <= j < spec_surviving(subs, outcomes, line).len(),
    ensures
        ({
            let s = spec_surviving(subs, outcomes, line)[j];
            s.joined_at <= history.push(line).len() && s.delivered == history.push(line).skip(
                s.joined_at as int,
            )
        }),
    decreases subs.len(),
{
    if subs.len() > 0 {
        let rest = spec_surviving(subs.skip(1), outcomes.skip(1), line);
        if outcomes.len() > 0 && outcomes[0] {
            if j == 0 {
                let s0 = subs[0];
                assert(s0.joined_at <= history.len() && s0.delivered == history.skip(
                    s0.joined_at as int,
                ));
                assert(history.push(line).skip(s0.joined_at as int) =~= history.skip(
                    s0.joined_at as int,
                ).push(line));
            } else {
                lemma_surviving_wf(subs.skip(1), outcomes.skip(1), line, history, j - 1);
            }
        } else {
            lemma_surviving_wf(subs.skip(1), outcomes.skip(1), line, history, j);
        }
    }
}

/// LAW — delivery guarantee. In any well-formed registry, every
/// enrolled subscriber has received exactly the lines broadcast after
/// its subscription completed, in issuance order: its delivery record
/// is the broadcast history from its join point on.
pub proof fn lemma_subscriber_receives_suffix(r: Registry, i: int)
    requires
        r.wf(),
        0 <= i < r.model().len(),
    ensures
        r.model()[i].delivered == r.history@.skip(r.model()[i].joined_at as int),
        r.model()[i].joined_at <= r.history@.len(),
{
}

/// When every write succeeds, a broadcast pass keeps every subscriber,
/// in order, and delivers the line to each.
pub proof fn lemma_surviving_all_ok(subs: Seq<SubModel>, outcomes: Seq<bool>, line: Seq<char>)
    requires
        outcomes.len() == subs.len(),
        forall|j: int| 0 <= j < outcomes.len() ==> outcomes[j],
    ensures
        spec_surviving(subs, outcomes, line) =~= subs.map_values(
            |s: SubModel| spec_delivered_to(s, line),
        ),
    decreases subs.len(),
{
    if subs.len() > 0 {
        lemma_surviving_all_ok(subs.skip(1), outcomes.skip(1), line);
        assert(spec_surviving(subs, outcomes, line) =~= seq![spec_delivered_to(subs[0], line)]
            + subs.skip(1).map_values(|s: SubModel| spec_delivered_to(s, line)));
    }
}

/// LAW — failure isolation. When exactly one write fails, the pass
/// removes exactly that subscriber: the count drops by one, everyone
/// before the failed one keeps its place, everyone after moves up by
/// one, and all of them are delivered the line.
pub proof fn lemma_failed_write_removes_exactly_one(
    subs: Seq<SubModel>,
    outcomes: Seq<bool>,
    line: Seq<char>,
    k: int,
)
    requires
        outcomes.len() == subs.len(),
        0 <= k < subs.len(),
        !outcomes[k],
        forall|j: int| 0 <= j < outcomes.len() && j != k ==> outcomes[j],
    ensures
        spec_surviving(subs, outcomes, line).len() == subs.len() - 1,
        forall|j: int|
            0 <= j < k ==> spec_surviving(subs, outcomes, line)[j] == spec_delivered_to(
                subs[j],
                line,
            ),
        forall|j: int|
            k <= j < subs.len() - 1 ==> spec_surviving(subs, outcomes, line)[j]
                == spec_delivered_to(subs[j + 1], line),
    decreases subs.len(),
{
    if k == 0 {
        lemma_surviving_all_ok(subs.skip(1), outcomes.skip(1), line);
        assert(spec_surviving(subs, outcomes, line) =~= subs.skip(1).map_values(
            |s: SubModel| spec_delivered_to(s, line),
        ));
    } else {
        lemma_failed_write_removes_exactly_one(subs.skip(1), outcomes.skip(1), line, k - 1);
        let rest = spec_surviving(subs.skip(1), outcomes.skip(1), line);
        assert(spec_surviving(subs, outcomes, line) =~= seq![spec_delivered_to(subs[0], line)]
            + rest);
    }
}

} // verus!
