//! The failover state machine of one request.
//!
//! A `Dispatch` holds the candidates that are left, the instances already
//! attempted and the attempt budget. `advance` asks a policy for a candidate:
//! either one is to be contacted or the request has failed. The caller
//! forwards the request to that instance and reports how it went to `settle`,
//! which relays, retries or fails.
use crate::status::{
    is_server_error, Classification, Outcome, BAD_GATEWAY, GATEWAY_TIMEOUT,
    INTERNAL_SERVER_ERROR, SERVICE_UNAVAILABLE,
};
use crate::strategy::{BalancingStrategy, InstanceSnapshot};
use vstd::prelude::*;

verus! {

/// The two kinds of traffic. They differ in the port of the upstream that is
/// contacted, and in that gRPC is sent as HTTP/2 without negotiation.
#[derive(Debug, Clone, Copy, PartialEq, Eq)]
pub enum Protocol {
    Rest,
    Grpc,
}

/// What a `Dispatch` stands for.
pub struct DispatchView {
    /// The kind of traffic that the request belongs to.
    pub protocol: Protocol,
    /// The candidates left, each with its index in the fleet.
    pub alive: Seq<(usize, InstanceSnapshot)>,
    /// The fleet indices attempted so far, in order.
    pub tried: Seq<usize>,
    /// The number of attempts already used up.
    pub attempt: nat,
    /// The number of the last attempt that is allowed, counting from 0.
    pub limit: nat,
    /// The number of candidates at the start.
    pub total: nat,
    /// The size of the fleet that the indices refer to.
    pub fleet: nat,
}

impl DispatchView {
    /// No attempt is left: no candidate remains. The budget itself never
    /// runs out between attempts, since a failure of the last allowed attempt
    /// ends the request.
    pub open spec fn exhausted(self) -> bool {
        self.alive.len() == 0
    }

    /// What holds of every dispatch, between attempts and during one: no
    /// instance was attempted twice, no two candidates are the same instance,
    /// every attempt used up took a candidate from the list, the attempts
    /// used up are within the budget, and all indices are indices of the
    /// fleet.
    pub open spec fn consistent(self) -> bool {
        &&& self.tried.no_duplicates()
        &&& self.limit <= self.total
        &&& self.total <= self.fleet
        &&& self.attempt <= self.limit
        &&& self.attempt + self.alive.len() == self.total
        &&& forall|i: int, j: int|
            0 <= i < j < self.alive.len() ==> (#[trigger] self.alive[i]).0 != (
            #[trigger] self.alive[j]).0
        &&& forall|i: int| 0 <= i < self.alive.len() ==> (#[trigger] self.alive[i]).0 < self.fleet
        &&& forall|i: int| 0 <= i < self.tried.len() ==> #[trigger] self.tried[i] < self.fleet
    }

    /// What holds of every dispatch between attempts: each attempt made is
    /// used up, and no candidate was attempted before.
    pub open spec fn selecting(self) -> bool {
        &&& self.consistent()
        &&& self.tried.len() == self.attempt
        &&& forall|i: int|
            0 <= i < self.alive.len() ==> !self.tried.contains((#[trigger] self.alive[i]).0)
    }

    /// What holds of every dispatch while the candidate at `position` is
    /// being contacted: it is the last one attempted, its attempt is not used
    /// up yet, and no other candidate was attempted before.
    pub open spec fn forwarding(self, position: nat) -> bool {
        &&& self.consistent()
        &&& self.tried.len() == self.attempt + 1
        &&& position < self.alive.len()
        &&& self.tried.last() == self.alive[position as int].0
        &&& forall|i: int|
            0 <= i < self.alive.len() && i != position ==> !self.tried.contains(
                (#[trigger] self.alive[i]).0,
            )
    }
}

/// The alive members of a fleet in fleet order, each with its index.
pub open spec fn alive_candidates(fleet: Seq<InstanceSnapshot>) -> Seq<(usize, InstanceSnapshot)>
    decreases fleet.len(),
{
    if fleet.len() == 0 {
        Seq::empty()
    } else {
        let last = fleet.len() - 1;
        let rest = alive_candidates(fleet.drop_last());
        if fleet[last].is_alive {
            rest.push((last as usize, fleet[last]))
        } else {
            rest
        }
    }
}

/// The number of retries configured, capped by the number of candidates; the
/// number of candidates where none is configured.
pub open spec fn attempt_limit(max_retries: Option<u32>, alive: nat) -> nat {
    match max_retries {
        Some(k) => if (k as nat) < alive {
            k as nat
        } else {
            alive
        },
        None => alive,
    }
}

/// The snapshots of a candidate list, in its order.
pub open spec fn snapshots_of(alive: Seq<(usize, InstanceSnapshot)>) -> Seq<InstanceSnapshot> {
    Seq::new(alive.len(), |i: int| alive[i].1)
}

/// The state of one request between attempts.
pub struct Dispatch {
    protocol: Protocol,
    alive: Vec<(usize, InstanceSnapshot)>,
    tried: Vec<usize>,
    attempt: usize,
    limit: usize,
    total: usize,
    fleet: usize,
}

/// The state of one request while an instance is being contacted.
pub struct Attempt {
    dispatch: Dispatch,
    position: usize,
}

/// What to do next for a request.
pub enum Step {
    /// Contact the instance of this attempt.
    Forward(Attempt),
    /// The request fails with this status.
    Fail(u16),
}

/// What the end of one attempt leads to.
pub enum Verdict<R> {
    /// Hand the upstream's response to the client.
    Relay { status: u16, payload: R },
    /// Go on with the candidates that are left.
    Retry(Dispatch),
    /// The request fails with this status.
    Fail(u16),
}

impl Dispatch {
    pub closed spec fn view(&self) -> DispatchView {
        DispatchView {
            protocol: self.protocol,
            alive: self.alive@,
            tried: self.tried@,
            attempt: self.attempt as nat,
            limit: self.limit as nat,
            total: self.total as nat,
            fleet: self.fleet as nat,
        }
    }

    /// The invariant of a dispatch between attempts.
    pub open spec fn wf(&self) -> bool {
        self@.selecting()
    }

    /// Begins a request of the given kind on a snapshot of the whole fleet,
    /// one entry per instance in fleet order. The candidates are the alive
    /// entries; the last attempt allowed is `max_retries`, capped by their
    /// number, or their number where `max_retries` is absent.
    pub fn start(fleet: &[InstanceSnapshot], max_retries: Option<u32>, protocol: Protocol) -> (d:
        Dispatch)
        ensures
            d.wf(),
            d@.protocol == protocol,
            d@.alive == alive_candidates(fleet@),
            d@.tried == Seq::<usize>::empty(),
            d@.attempt == 0,
            d@.total == d@.alive.len(),
            d@.limit == attempt_limit(max_retries, d@.alive.len()),
            d@.fleet == fleet@.len(),
    {
        let mut alive: Vec<(usize, InstanceSnapshot)> = Vec::new();
        let mut i: usize = 0;
        while i < fleet.len()
            invariant
                i <= fleet@.len(),
                alive@ == alive_candidates(fleet@.take(i as int)),
                alive@.len() <= i,
                forall|j: int| 0 <= j < alive@.len() ==> (#[trigger] alive@[j]).0 < i,
                forall|j: int, k: int|
                    0 <= j < k < alive@.len() ==> (#[trigger] alive@[j]).0 < (
                    #[trigger] alive@[k]).0,
            decreases fleet@.len() - i,
        {
            let snapshot = fleet[i];
            proof {
                assert(fleet@.take(i + 1).drop_last() =~= fleet@.take(i as int));
            }
            if snapshot.is_alive {
                alive.push((i, snapshot));
            }
            i = i + 1;
        }
        proof {
            assert(fleet@.take(i as int) =~= fleet@);
        }
        let total = alive.len();
        let limit = match max_retries {
            Some(k) => if (k as usize) < total {
                k as usize
            } else {
                total
            },
            None => total,
        };
        Dispatch { protocol, alive, tried: Vec::new(), attempt: 0, limit, total, fleet: fleet.len() }
    }

    /// Whether no attempt is left.
    pub fn is_exhausted(&self) -> (b: bool)
        ensures
            b == self@.exhausted(),
    {
        self.alive.len() == 0
    }

    /// The size of the fleet that this request was begun on.
    pub fn fleet_size(&self) -> (n: usize)
        ensures
            n == self@.fleet,
    {
        self.fleet
    }

    /// The kind of traffic that the request belongs to.
    pub fn protocol(&self) -> (protocol: Protocol)
        ensures
            protocol == self@.protocol,
    {
        self.protocol
    }

    /// The number of candidates left.
    pub fn remaining(&self) -> (n: usize)
        ensures
            n == self@.alive.len(),
    {
        self.alive.len()
    }

    /// The fleet indices attempted so far, in order.
    pub fn tried(&self) -> (t: &Vec<usize>)
        ensures
            t@ == self@.tried,
    {
        &self.tried
    }

    /// The snapshots of the candidates left, in their order: what a policy is
    /// asked to select from.
    pub fn snapshots(&self) -> (s: Vec<InstanceSnapshot>)
        ensures
            s@ == snapshots_of(self@.alive),
    {
        let mut s: Vec<InstanceSnapshot> = Vec::new();
        let mut i: usize = 0;
        while i < self.alive.len()
            invariant
                i <= self.alive@.len(),
                s@ == snapshots_of(self.alive@.take(i as int)),
            decreases self.alive@.len() - i,
        {
            s.push(self.alive[i].1);
            proof {
                assert(s@ =~= snapshots_of(self.alive@.take(i + 1)));
            }
            i = i + 1;
        }
        proof {
            assert(self.alive@.take(i as int) =~= self.alive@);
        }
        s
    }

    /// Takes the position `pick` that a policy returned for `snapshots()`.
    /// A position outside the list fails the request with 500. Otherwise the
    /// instance of that candidate is recorded as attempted and is to be
    /// contacted. No candidate was attempted before, so none is turned down.
    pub fn select(self, pick: usize) -> (step: Step)
        requires
            self.wf(),
        ensures
            selected(self@, pick, step),
    {
        let mut d = self;
        if pick >= d.alive.len() {
            return Step::Fail(INTERNAL_SERVER_ERROR);
        }
        let actual = d.alive[pick].0;
        proof {
            let before = d.tried@;
            let after = before.push(actual);
            assert forall|i: int, j: int|
                0 <= i < after.len() && 0 <= j < after.len() && i != j implies after[i]
                != after[j] by {
                if i < before.len() {
                    assert(before.contains(before[i]));
                }
                if j < before.len() {
                    assert(before.contains(before[j]));
                }
            }
            assert forall|i: int| 0 <= i < d.alive@.len() && i != pick implies !after.contains(
                (#[trigger] d.alive@[i]).0,
            ) by {
                if after.contains(d.alive@[i].0) {
                    let k = choose|k: int| 0 <= k < after.len() && after[k] == d.alive@[i].0;
                    if k < before.len() {
                        assert(before.contains(before[k]));
                    }
                }
            }
        }
        d.tried.push(actual);
        Step::Forward(Attempt { dispatch: d, position: pick })
    }

    /// Asks the policy once, unless no candidate is left, and takes its answer
    /// as `select` does. With no candidate left the request fails with 503
    /// and the policy is not asked.
    pub fn advance<S: BalancingStrategy>(self, strategy: &mut S) -> (step: Step)
        requires
            self.wf(),
        ensures
            advanced(self@, *old(strategy), *final(strategy), step),
            step matches Step::Forward(a) ==> a.wf() && a@.fleet == self@.fleet && a@.protocol
                == self@.protocol,
    {
        if self.is_exhausted() {
            return Step::Fail(SERVICE_UNAVAILABLE);
        }
        let snapshots = self.snapshots();
        let pick = strategy.select_instance(snapshots.as_slice());
        self.select(pick)
    }
}

impl Attempt {
    /// The dispatch as it stands during the attempt.
    pub closed spec fn view(&self) -> DispatchView {
        self.dispatch@
    }

    /// The position in the candidate list of the instance being contacted.
    pub closed spec fn position(&self) -> nat {
        self.position as nat
    }

    /// The invariant of a dispatch during an attempt.
    pub open spec fn wf(&self) -> bool {
        self@.forwarding(self.position())
    }

    /// The fleet index of the instance being contacted.
    pub open spec fn instance_index(&self) -> usize
        recommends
            self.wf(),
    {
        self@.alive[self.position() as int].0
    }

    /// The fleet index of the instance to contact.
    pub fn instance(&self) -> (index: usize)
        requires
            self.wf(),
        ensures
            index == self.instance_index(),
            index < self@.fleet,
            index == self@.tried.last(),
    {
        self.dispatch.alive[self.position].0
    }

    /// The fleet indices attempted so far, this attempt's last.
    pub fn tried(&self) -> (t: &Vec<usize>)
        ensures
            t@ == self@.tried,
    {
        &self.dispatch.tried
    }

    /// The size of the fleet that this request was begun on.
    pub fn fleet_size(&self) -> (n: usize)
        ensures
            n == self@.fleet,
    {
        self.dispatch.fleet
    }

    /// The kind of traffic that the request belongs to.
    pub fn protocol(&self) -> (protocol: Protocol)
        ensures
            protocol == self@.protocol,
    {
        self.dispatch.protocol
    }

    /// Takes the outcome of the attempt. A response that is no 5xx is relayed.
    /// A terminal failure fails the request with its status. A retryable
    /// failure removes the candidate and uses up the attempt while an attempt
    /// is left after this one, and fails the request with its status on the
    /// last one.
    pub fn settle<R>(self, outcome: Outcome<R>) -> (verdict: Verdict<R>)
        requires
            self.wf(),
        ensures
            settled(self, outcome, verdict),
            verdict matches Verdict::Retry(d) ==> d.wf() && d@.fleet == self@.fleet && d@.protocol
                == self@.protocol,
    {
        match outcome {
            Outcome::Response { status, payload } => {
                if is_server_error(status) {
                    self.retry_or_fail(status)
                } else {
                    Verdict::Relay { status, payload }
                }
            },
            Outcome::TransportError => self.retry_or_fail(BAD_GATEWAY),
            Outcome::Timeout => self.retry_or_fail(GATEWAY_TIMEOUT),
            Outcome::Internal => Verdict::Fail(INTERNAL_SERVER_ERROR),
        }
    }

    /// After a retryable failure with status `code`: the candidate leaves the
    /// list and the attempt is used up while an attempt is left after this
    /// one; on the last one the request fails with `code`.
    fn retry_or_fail<R>(self, code: u16) -> (verdict: Verdict<R>)
        requires
            self.wf(),
        ensures
            if self@.attempt < self@.limit {
                verdict matches Verdict::Retry(d) && d.wf() && d@ == (DispatchView {
                    alive: self@.alive.remove(self.position() as int),
                    attempt: self@.attempt + 1,
                    ..self@
                })
            } else {
                verdict matches Verdict::Fail(status) && status == code
            },
    {
        let mut d = self.dispatch;
        if d.attempt < d.limit {
            d.alive.remove(self.position);
            d.attempt = d.attempt + 1;
            Verdict::Retry(d)
        } else {
            Verdict::Fail(code)
        }
    }
}

/// How `step` follows from the position `pick` that a policy returned for
/// the candidates of `before`: a position outside the list fails the request
/// with 500; any other makes its candidate the one being contacted and the
/// last one attempted.
pub open spec fn selected(before: DispatchView, pick: usize, step: Step) -> bool {
    match step {
        Step::Forward(a) => {
            &&& pick < before.alive.len()
            &&& a.wf()
            &&& a.position() == pick
            &&& a@ == (DispatchView {
                tried: before.tried.push(before.alive[pick as int].0),
                ..before
            })
        },
        Step::Fail(status) => pick >= before.alive.len() && status == INTERNAL_SERVER_ERROR,
    }
}

/// How `step` follows from a dispatch and a policy. With no candidate left
/// the request fails with 503 and the policy stays as it is. Otherwise the policy
/// made one selection on the snapshots of the candidates, and `step` follows
/// from the position it returned.
pub open spec fn advanced<S: BalancingStrategy>(
    before: DispatchView,
    policy: S,
    policy_after: S,
    step: Step,
) -> bool {
    if before.exhausted() {
        step == Step::Fail(SERVICE_UNAVAILABLE) && policy_after == policy
    } else {
        exists|pick: usize|
            #![trigger selected(before, pick, step)]
            policy.selects(snapshots_of(before.alive), policy_after, pick) && selected(
                before,
                pick,
                step,
            )
    }
}

/// How `verdict` follows from the outcome of `attempt`. A response that is
/// no 5xx is relayed as it is. A terminal failure fails the request with its
/// status. A retryable failure removes the candidate and uses up the attempt
/// while an attempt is left after this one, and fails the request with its
/// status on the last one.
pub open spec fn settled<R>(attempt: Attempt, outcome: Outcome<R>, verdict: Verdict<R>) -> bool {
    match crate::status::classification(outcome) {
        Classification::Relay => verdict matches Verdict::Relay { status, payload }
            && outcome == (Outcome::Response { status, payload }),
        Classification::Terminal(code) => verdict matches Verdict::Fail(status) && status
            == code,
        Classification::Retryable(code) => if attempt@.attempt < attempt@.limit {
            verdict matches Verdict::Retry(d) && d.wf() && d@ == (DispatchView {
                alive: attempt@.alive.remove(attempt.position() as int),
                attempt: attempt@.attempt + 1,
                ..attempt@
            })
        } else {
            verdict matches Verdict::Fail(status) && status == code
        },
    }
}

/// The candidates of a fleet are its alive members: each candidate is alive
/// and is the fleet's entry at its index, the indices rise along the list,
/// and every alive member is among them.
pub proof fn lemma_alive_candidates(fleet: Seq<InstanceSnapshot>)
    requires
        fleet.len() <= usize::MAX,
    ensures
        alive_candidates(fleet).len() <= fleet.len(),
        forall|i: int|
            0 <= i < alive_candidates(fleet).len() ==> {
                let c = #[trigger] alive_candidates(fleet)[i];
                c.0 < fleet.len() && fleet[c.0 as int] == c.1 && c.1.is_alive
            },
        forall|i: int, k: int|
            0 <= i < k < alive_candidates(fleet).len() ==> (#[trigger] alive_candidates(fleet)[i]).0
                < (#[trigger] alive_candidates(fleet)[k]).0,
        forall|j: int|
            0 <= j < fleet.len() && (#[trigger] fleet[j]).is_alive ==> exists|i: int|
                0 <= i < alive_candidates(fleet).len() && (#[trigger] alive_candidates(fleet)[i]).0
                    == j,
    decreases fleet.len(),
{
    if fleet.len() > 0 {
        let rest = fleet.drop_last();
        let last = fleet.len() - 1;
        lemma_alive_candidates(rest);
        let before = alive_candidates(rest);
        let all = alive_candidates(fleet);
        assert forall|j: int| 0 <= j < fleet.len() && (#[trigger] fleet[j]).is_alive implies exists|
            i: int,
        |
            0 <= i < all.len() && (#[trigger] all[i]).0 == j by {
            if j < last {
                assert(rest[j].is_alive);
                let i = choose|i: int| 0 <= i < before.len() && (#[trigger] before[i]).0 == j;
                assert(all[i].0 == j);
            } else {
                assert(all[all.len() - 1].0 == j);
            }
        }
    }
}

/// A request contacts no instance twice.
pub proof fn lemma_no_double_try(a: Attempt, i: int, j: int)
    requires
        a.wf(),
        0 <= i < j < a@.tried.len(),
    ensures
        a@.tried[i] != a@.tried[j],
{
}

/// No candidate of a dispatch between attempts was attempted before.
pub proof fn lemma_candidates_untried(d: Dispatch, i: int)
    requires
        d.wf(),
        0 <= i < d@.alive.len(),
    ensures
        !d@.tried.contains(d@.alive[i].0),
{
}

/// A request that began with `total` candidates and whose last allowed attempt
/// is number `limit` contacts at most `limit + 1` instances, and at most
/// `total`.
pub proof fn lemma_attempts_bounded(a: Attempt)
    requires
        a.wf(),
    ensures
        a@.tried.len() <= a@.limit + 1,
        a@.tried.len() <= a@.total,
{
}

/// Between attempts the same bounds hold of the instances contacted so far.
pub proof fn lemma_attempts_bounded_between(d: Dispatch)
    requires
        d.wf(),
    ensures
        d@.tried.len() <= d@.limit + 1,
        d@.tried.len() <= d@.total,
{
}

/// A request on `alive` candidates with `retries` retries configured contacts
/// at most `retries + 1` instances, and at most `alive`.
pub proof fn lemma_failover_bounded(a: Attempt, retries: u32)
    requires
        a.wf(),
        a@.limit == attempt_limit(Some(retries), a@.total),
    ensures
        a@.tried.len() <= retries + 1,
        a@.tried.len() <= a@.total,
{
}

/// With `retries` retries configured on `alive` candidates, the last allowed
/// attempt has a number of at most `retries` and at most `alive`: a request
/// makes at most the smaller of `retries + 1` and `alive` attempts. With
/// none configured it may make `alive` attempts.
pub proof fn lemma_limit_bounded(retries: u32, alive: nat)
    ensures
        attempt_limit(Some(retries), alive) <= retries,
        attempt_limit(Some(retries), alive) <= alive,
        attempt_limit(None, alive) == alive,
{
}

} // verus!
