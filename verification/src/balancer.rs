//! The balancer: a fleet of instances, a selection policy and the retry
//! budget. It begins the dispatch of a request, counts the requests in flight
//! around each attempt, and takes the results of the health probes.
use crate::config::Config;
use crate::dispatch::{
    advanced, alive_candidates, attempt_limit, lemma_alive_candidates, settled, Attempt, Dispatch,
    Protocol, Step, Verdict,
};
use crate::instance::{
    after_probe, decremented, incremented, probe_succeeded, stale, transition, Instance,
    InstanceView, Probe, Transition,
};
use crate::relay::{compose, header_views, relayed_headers, Outbound, Request};
use crate::status::{Outcome, OK, PAYLOAD_TOO_LARGE, SERVICE_UNAVAILABLE};
use crate::strategy::{kind_of_name, InstanceSnapshot, Strategy};
use crate::text::{base_url, decimal, outbound_url, push_decimal};
use vstd::prelude::*;
use vstd::string::StringExecFns;

verus! {

/// What the instances of a fleet stand for, in fleet order.
pub open spec fn views_of(instances: Seq<Instance>) -> Seq<InstanceView> {
    Seq::new(instances.len(), |i: int| instances[i]@)
}

/// The snapshot of a whole fleet, one entry per instance.
pub open spec fn snapshot_of(fleet: Seq<InstanceView>) -> Seq<InstanceSnapshot> {
    Seq::new(
        fleet.len(),
        |i: int| InstanceSnapshot { con_count: fleet[i].in_flight, is_alive: fleet[i].is_alive },
    )
}

/// The number of alive instances of a fleet.
pub open spec fn alive_count(fleet: Seq<InstanceView>) -> nat {
    alive_candidates(snapshot_of(fleet)).len()
}

/// The fleet after one more request is in flight to instance `index`.
pub open spec fn with_begun(fleet: Seq<InstanceView>, index: int) -> Seq<InstanceView>
    recommends
        0 <= index < fleet.len(),
{
    fleet.update(
        index,
        InstanceView { in_flight: incremented(fleet[index].in_flight), ..fleet[index] },
    )
}

/// The fleet after one request in flight to instance `index` has ended.
pub open spec fn with_ended(fleet: Seq<InstanceView>, index: int) -> Seq<InstanceView>
    recommends
        0 <= index < fleet.len(),
{
    fleet.update(
        index,
        InstanceView { in_flight: decremented(fleet[index].in_flight), ..fleet[index] },
    )
}

/// The fleet after a probe sweep: instance `i` has taken the result and the
/// time at entry `i` of `results`; instances without an entry are as before.
pub open spec fn after_sweep(fleet: Seq<InstanceView>, results: Seq<(Probe, u64)>) -> Seq<
    InstanceView,
> {
    Seq::new(
        fleet.len(),
        |i: int|
            if i < results.len() {
                after_probe(fleet[i], results[i].0, results[i].1)
            } else {
                fleet[i]
            },
    )
}

/// The port of an instance that serves `protocol`.
pub open spec fn port_for(v: InstanceView, protocol: Protocol) -> u16 {
    match protocol {
        Protocol::Rest => v.rest_port,
        Protocol::Grpc => v.grpc_port,
    }
}

/// The status of the balancer's own health answer: 200 while an instance is
/// alive, else 503.
pub open spec fn health_status(alive: nat) -> u16 {
    if alive > 0 {
        OK
    } else {
        SERVICE_UNAVAILABLE
    }
}

/// The body of the balancer's own health answer.
pub open spec fn health_body(alive: nat, total: nat) -> Seq<char> {
    "{\"status\":\""@ + (if alive > 0 {
        "healthy"@
    } else {
        "unhealthy"@
    }) + "\",\"alive_instances\":"@ + decimal(alive) + ",\"total_instances\":"@ + decimal(total)
        + "}"@
}

pub struct LoadBalancer {
    pub instances: Vec<Instance>,
    pub health_check_interval: u64,
    pub con_timeout: u64,
    pub max_retries: Option<u32>,
    pub strategy: Strategy,
}

impl LoadBalancer {
    /// What the fleet stands for.
    pub open spec fn fleet(&self) -> Seq<InstanceView> {
        views_of(self.instances@)
    }

    /// The settings, which are everything but the state of the fleet and of
    /// the policy, are as in `other`.
    pub open spec fn same_settings(&self, other: &LoadBalancer) -> bool {
        &&& self.health_check_interval == other.health_check_interval
        &&& self.con_timeout == other.con_timeout
        &&& self.max_retries == other.max_retries
    }

    /// A balancer over `instances` with the policy that the configuration
    /// names, fresh.
    pub fn new(instances: Vec<Instance>, cfg: &Config) -> (balancer: Self)
        ensures
            balancer.instances == instances,
            balancer.health_check_interval == cfg.health_check_interval,
            balancer.con_timeout == cfg.connection_timeout,
            balancer.max_retries == cfg.max_retries,
            balancer.strategy.kind() == kind_of_name(cfg.strategy@),
            balancer.strategy.cursor() == 0,
    {
        let strategy = Strategy::from_name(&cfg.strategy);
        LoadBalancer {
            instances,
            health_check_interval: cfg.health_check_interval,
            con_timeout: cfg.connection_timeout,
            max_retries: cfg.max_retries,
            strategy,
        }
    }

    /// The snapshot of the whole fleet.
    pub fn snapshot(&self) -> (s: Vec<InstanceSnapshot>)
        ensures
            s@ == snapshot_of(self.fleet()),
    {
        let mut s: Vec<InstanceSnapshot> = Vec::new();
        let mut i: usize = 0;
        while i < self.instances.len()
            invariant
                i <= self.instances@.len(),
                s@.len() == i,
                forall|j: int| 0 <= j < i ==> s@[j] == snapshot_of(self.fleet())[j],
            decreases self.instances@.len() - i,
        {
            s.push(self.instances[i].snapshot());
            i = i + 1;
        }
        proof {
            assert(s@ =~= snapshot_of(self.fleet()));
        }
        s
    }

    /// The number of alive instances and the number of all instances.
    pub fn get_health_status(&self) -> (counts: (usize, usize))
        ensures
            counts.0 == alive_count(self.fleet()),
            counts.1 == self.instances@.len(),
    {
        let ghost snapshot = snapshot_of(self.fleet());
        let mut alive: usize = 0;
        let mut i: usize = 0;
        while i < self.instances.len()
            invariant
                i <= self.instances@.len(),
                snapshot == snapshot_of(self.fleet()),
                alive == alive_candidates(snapshot.take(i as int)).len(),
                alive <= i,
            decreases self.instances@.len() - i,
        {
            proof {
                assert(snapshot.take(i + 1).drop_last() =~= snapshot.take(i as int));
            }
            if self.instances[i].is_alive() {
                alive = alive + 1;
            }
            i = i + 1;
        }
        proof {
            assert(snapshot.take(i as int) =~= snapshot);
        }
        (alive, self.instances.len())
    }

    /// The balancer's own health answer: status and body.
    pub fn health_response(&self) -> (answer: (u16, String))
        ensures
            answer.0 == health_status(alive_count(self.fleet())),
            answer.1@ == health_body(alive_count(self.fleet()), self.instances@.len() as nat),
    {
        let (alive, total) = self.get_health_status();
        let status = if alive > 0 {
            OK
        } else {
            SERVICE_UNAVAILABLE
        };
        let mut body = String::from_str("{\"status\":\"");
        body.append(
            if alive > 0 {
                "healthy"
            } else {
                "unhealthy"
            },
        );
        body.append("\",\"alive_instances\":");
        push_decimal(&mut body, alive as u64);
        body.append(",\"total_instances\":");
        push_decimal(&mut body, total as u64);
        body.append("}");
        (status, body)
    }

    /// How the dispatch of a request of the given kind begins on this
    /// balancer: with no alive instance it fails with 503; otherwise the
    /// candidates are the alive instances, none is attempted yet, and the
    /// attempt budget is the configured one.
    pub open spec fn begins(&self, protocol: Protocol, begun: Result<Dispatch, u16>) -> bool {
        match begun {
            Ok(d) => {
                &&& alive_count(self.fleet()) > 0
                &&& d.wf()
                &&& d@.protocol == protocol
                &&& d@.alive == alive_candidates(snapshot_of(self.fleet()))
                &&& d@.tried == Seq::<usize>::empty()
                &&& d@.attempt == 0
                &&& d@.total == alive_count(self.fleet())
                &&& d@.limit == attempt_limit(self.max_retries, alive_count(self.fleet()))
                &&& d@.fleet == self.instances@.len()
            },
            Err(status) => status == SERVICE_UNAVAILABLE && alive_count(self.fleet()) == 0,
        }
    }

    fn begin(&self, protocol: Protocol) -> (begun: Result<Dispatch, u16>)
        ensures
            self.begins(protocol, begun),
    {
        let snapshot = self.snapshot();
        let dispatch = Dispatch::start(snapshot.as_slice(), self.max_retries, protocol);
        if dispatch.remaining() == 0 {
            Err(SERVICE_UNAVAILABLE)
        } else {
            Ok(dispatch)
        }
    }

    /// Begins the dispatch of one REST request on the fleet as it is now.
    pub fn forward_request(&self) -> (begun: Result<Dispatch, u16>)
        ensures
            self.begins(Protocol::Rest, begun),
    {
        self.begin(Protocol::Rest)
    }

    /// Begins the dispatch of one gRPC request on the fleet as it is now.
    pub fn forward_grpc_request(&self) -> (begun: Result<Dispatch, u16>)
        ensures
            self.begins(Protocol::Grpc, begun),
    {
        self.begin(Protocol::Grpc)
    }

    /// Selects the next instance for a request of this balancer, as
    /// `Dispatch::advance` does with the balancer's policy, and counts the
    /// request as in flight to that instance. Where the request fails
    /// instead, the fleet stays as it is.
    pub fn next_attempt(&mut self, dispatch: Dispatch) -> (step: Step)
        requires
            dispatch.wf(),
            dispatch@.fleet == old(self).instances@.len(),
        ensures
            final(self).same_settings(old(self)),
            final(self).instances@.len() == old(self).instances@.len(),
            advanced(dispatch@, old(self).strategy, final(self).strategy, step),
            step matches Step::Forward(a) ==> a.wf() && a@.fleet == dispatch@.fleet && a@.protocol
                == dispatch@.protocol,
            match step {
                Step::Forward(a) => final(self).fleet() == with_begun(
                    old(self).fleet(),
                    a.instance_index() as int,
                ),
                Step::Fail(_) => final(self).fleet() == old(self).fleet(),
            },
    {
        let step = dispatch.advance(&mut self.strategy);
        match &step {
            Step::Forward(a) => {
                let index = a.instance();
                self.instances[index].begin_forward();
                proof {
                    assert(self.fleet() =~= with_begun(old(self).fleet(), index as int));
                }
            },
            Step::Fail(_) => {
                proof {
                    assert(self.fleet() =~= old(self).fleet());
                }
            },
        }
        step
    }

    /// Counts the request as no longer in flight to the instance of the
    /// attempt, and takes the outcome of the attempt as `Attempt::settle`
    /// does.
    pub fn finish_attempt<R>(&mut self, attempt: Attempt, outcome: Outcome<R>) -> (verdict: Verdict<R>)
        requires
            attempt.wf(),
            attempt@.fleet == old(self).instances@.len(),
        ensures
            final(self).same_settings(old(self)),
            final(self).strategy == old(self).strategy,
            final(self).instances@.len() == old(self).instances@.len(),
            final(self).fleet() == with_ended(old(self).fleet(), attempt.instance_index() as int),
            settled(attempt, outcome, verdict),
            verdict matches Verdict::Retry(d) ==> d.wf() && d@.fleet == attempt@.fleet
                && d@.protocol == attempt@.protocol,
    {
        let index = attempt.instance();
        self.instances[index].end_forward();
        proof {
            assert(self.fleet() =~= with_ended(old(self).fleet(), index as int));
        }
        attempt.settle(outcome)
    }

    /// Takes the result of a probe of instance `index` made at `now`. There is
    /// no such instance where `index` is not below the size of the fleet;
    /// then nothing changes.
    pub fn record_probe(&mut self, index: usize, probe: Probe, now: u64) -> (change: Option<
        Transition,
    >)
        ensures
            final(self).same_settings(old(self)),
            final(self).strategy == old(self).strategy,
            final(self).instances@.len() == old(self).instances@.len(),
            index >= old(self).instances@.len() ==> change is None && final(self).instances
                == old(self).instances,
            index < old(self).instances@.len() ==> final(self).fleet() == old(self).fleet().update(
                index as int,
                after_probe(old(self).fleet()[index as int], probe, now),
            ) && change == Some(
                transition(old(self).fleet()[index as int], final(self).fleet()[index as int]),
            ),
    {
        if index >= self.instances.len() {
            return None;
        }
        let change = self.instances[index].health_check(probe, now);
        proof {
            assert(self.fleet() =~= old(self).fleet().update(
                index as int,
                after_probe(old(self).fleet()[index as int], probe, now),
            ));
        }
        Some(change)
    }

    /// Takes the results of one probe sweep: entry `i` of `results` is the
    /// result of probing instance `i` and the time of the probe. Instances
    /// without an entry stay as they are.
    pub fn health_check_all(&mut self, results: &[(Probe, u64)])
        ensures
            final(self).same_settings(old(self)),
            final(self).strategy == old(self).strategy,
            final(self).instances@.len() == old(self).instances@.len(),
            final(self).fleet() == after_sweep(old(self).fleet(), results@),
    {
        let mut i: usize = 0;
        while i < self.instances.len() && i < results.len()
            invariant
                self.same_settings(old(self)),
                self.strategy == old(self).strategy,
                self.instances@.len() == old(self).instances@.len(),
                i <= self.instances@.len(),
                i <= results@.len(),
                forall|j: int|
                    0 <= j < old(self).fleet().len() ==> #[trigger] self.fleet()[j] == (if j < i {
                        after_probe(old(self).fleet()[j], results@[j].0, results@[j].1)
                    } else {
                        old(self).fleet()[j]
                    }),
            decreases self.instances@.len() - i,
        {
            let ghost before = self.fleet();
            let (probe, now) = results[i];
            self.instances[i].health_check(probe, now);
            proof {
                assert(self.fleet() =~= before.update(
                    i as int,
                    after_probe(before[i as int], probe, now),
                ));
            }
            i = i + 1;
        }
        proof {
            assert(self.fleet() =~= after_sweep(old(self).fleet(), results@));
        }
    }

    /// The request that goes out on an attempt for an inbound request: sent
    /// to the instance of the attempt, on the port that serves the kind of
    /// traffic of the request, with the inbound path and query, method and
    /// body, and the inbound headers but `host`.
    pub fn outbound_request(&self, attempt: &Attempt, request: &Request) -> (out: Outbound)
        requires
            attempt.wf(),
            attempt@.fleet == self.instances@.len(),
        ensures
            out.url@ == base_url(
                self.fleet()[attempt.instance_index() as int].secure,
                self.fleet()[attempt.instance_index() as int].base_host,
                port_for(self.fleet()[attempt.instance_index() as int], attempt@.protocol),
            ) + request.path_and_query@,
            out.method@ == request.method@,
            out.body@ == request.body@,
            header_views(out.headers@) == relayed_headers(header_views(request.headers@)),
    {
        let index = attempt.instance();
        let base = match attempt.protocol() {
            Protocol::Rest => self.instances[index].get_rest_url(),
            Protocol::Grpc => self.instances[index].get_grpc_url(),
        };
        compose(request, base.as_str())
    }

    /// The URL to send a request with this path and query to on instance
    /// `index`; none where there is no such instance.
    pub fn target_url(&self, index: usize, protocol: Protocol, path_and_query: &str) -> (url:
        Option<String>)
        ensures
            index >= self.instances@.len() ==> url is None,
            index < self.instances@.len() ==> url is Some && url->0@ == base_url(
                self.fleet()[index as int].secure,
                self.fleet()[index as int].base_host,
                port_for(self.fleet()[index as int], protocol),
            ) + path_and_query@,
    {
        if index >= self.instances.len() {
            return None;
        }
        let base = match protocol {
            Protocol::Rest => self.instances[index].get_rest_url(),
            Protocol::Grpc => self.instances[index].get_grpc_url(),
        };
        Some(outbound_url(base.as_str(), path_and_query))
    }
}

/// Whether a request body of `len` bytes is within the configured cap. A
/// larger one is rejected with 413.
pub fn check_body_size(len: usize, max_body_bytes: Option<usize>) -> (admitted: Result<(), u16>)
    ensures
        admitted is Err <==> (max_body_bytes matches Some(cap) && len > cap),
        admitted matches Err(status) ==> status == PAYLOAD_TOO_LARGE,
{
    match max_body_bytes {
        Some(cap) => if len > cap {
            Err(PAYLOAD_TOO_LARGE)
        } else {
            Ok(())
        },
        None => Ok(()),
    }
}

/// The body sent to the client with a failure status.
pub fn failure_body() -> (body: String)
    ensures
        body@ == "Service unavailable (no alive servers)"@,
{
    String::from_str("Service unavailable (no alive servers)")
}

/// A fleet has no alive instance exactly if each of its instances is dead.
pub proof fn lemma_alive_count(fleet: Seq<InstanceView>)
    requires
        fleet.len() <= usize::MAX,
    ensures
        alive_count(fleet) <= fleet.len(),
        alive_count(fleet) == 0 <==> forall|i: int|
            0 <= i < fleet.len() ==> !(#[trigger] fleet[i]).is_alive,
{
    let snapshot = snapshot_of(fleet);
    let alive = alive_candidates(snapshot);
    lemma_alive_candidates(snapshot);
    if alive.len() == 0 {
        assert forall|i: int| 0 <= i < fleet.len() implies !(#[trigger] fleet[i]).is_alive by {
            if fleet[i].is_alive {
                assert(snapshot[i].is_alive);
            }
        }
    } else {
        let c = alive[0];
        assert(snapshot[c.0 as int].is_alive);
        assert(fleet[c.0 as int].is_alive);
    }
}

/// When every instance of a fleet fails a probe at a time at which it has
/// never been healthy or was last healthy more than its time limit ago, no
/// instance is alive after the sweep: a request begun then fails with 503.
pub proof fn lemma_sustained_failure_leaves_none_alive(
    fleet: Seq<InstanceView>,
    results: Seq<(Probe, u64)>,
)
    requires
        fleet.len() <= usize::MAX,
        results.len() == fleet.len(),
        forall|i: int|
            0 <= i < fleet.len() ==> !probe_succeeded((#[trigger] results[i]).0) && stale(
                fleet[i],
                results[i].1,
            ),
    ensures
        alive_count(after_sweep(fleet, results)) == 0,
{
    let swept = after_sweep(fleet, results);
    assert forall|i: int| 0 <= i < swept.len() implies !(#[trigger] swept[i]).is_alive by {
        assert(!probe_succeeded(results[i].0));
    }
    lemma_alive_count(swept);
}

/// The begin or the end of one forwarding attempt to the instance with the
/// given index.
pub enum FlightEvent {
    Begin(usize),
    End(usize),
}

/// The fleet after one event. An event for an index outside the fleet changes
/// nothing.
pub open spec fn after_event(fleet: Seq<InstanceView>, event: FlightEvent) -> Seq<InstanceView> {
    match event {
        FlightEvent::Begin(i) => if i < fleet.len() {
            with_begun(fleet, i as int)
        } else {
            fleet
        },
        FlightEvent::End(i) => if i < fleet.len() {
            with_ended(fleet, i as int)
        } else {
            fleet
        },
    }
}

/// The fleet after a sequence of events, in their order.
pub open spec fn after_events(fleet: Seq<InstanceView>, events: Seq<FlightEvent>) -> Seq<
    InstanceView,
>
    decreases events.len(),
{
    if events.len() == 0 {
        fleet
    } else {
        after_event(after_events(fleet, events.drop_last()), events.last())
    }
}

/// The number of attempts to instance `index` that `events` begin, less the
/// number that they end.
pub open spec fn open_attempts(events: Seq<FlightEvent>, index: int) -> int
    decreases events.len(),
{
    if events.len() == 0 {
        0
    } else {
        open_attempts(events.drop_last(), index) + match events.last() {
            FlightEvent::Begin(i) => if i == index {
                1int
            } else {
                0int
            },
            FlightEvent::End(i) => if i == index {
                -1int
            } else {
                0int
            },
        }
    }
}

/// The counter `c` moved by `by`, wrapping at both ends of its range.
pub open spec fn shifted(c: u32, by: int) -> u32 {
    ((c + by) % 0x1_0000_0000) as u32
}

/// Events change nothing of an instance but its counter, which moves by the
/// number of attempts begun less the number ended.
pub proof fn lemma_in_flight_follows_events(
    fleet: Seq<InstanceView>,
    events: Seq<FlightEvent>,
    index: int,
)
    requires
        0 <= index < fleet.len(),
    ensures
        after_events(fleet, events).len() == fleet.len(),
        after_events(fleet, events)[index] == (InstanceView {
            in_flight: shifted(fleet[index].in_flight, open_attempts(events, index)),
            ..fleet[index]
        }),
    decreases events.len(),
{
    if events.len() > 0 {
        lemma_in_flight_follows_events(fleet, events.drop_last(), index);
        let before = after_events(fleet, events.drop_last());
        let moved = open_attempts(events.drop_last(), index);
        let c = fleet[index].in_flight;
        assert(before[index].in_flight == shifted(c, moved));
        assert(incremented(shifted(c, moved)) == shifted(c, moved + 1));
        assert(decremented(shifted(c, moved)) == shifted(c, moved - 1));
    }
}

/// Whatever the order in which the attempts of any number of requests begin
/// and end: once every attempt begun has ended, each instance is as it was
/// before the first one. A fleet that started with no request in flight has
/// none in flight then.
pub proof fn lemma_in_flight_conservation(
    fleet: Seq<InstanceView>,
    events: Seq<FlightEvent>,
    index: int,
)
    requires
        0 <= index < fleet.len(),
        open_attempts(events, index) == 0,
    ensures
        after_events(fleet, events)[index] == fleet[index],
{
    lemma_in_flight_follows_events(fleet, events, index);
}

/// A request counted in to an instance and out again leaves the fleet as it
/// was.
pub proof fn lemma_in_flight_conserved(fleet: Seq<InstanceView>, index: int)
    requires
        0 <= index < fleet.len(),
    ensures
        with_ended(with_begun(fleet, index), index) == fleet,
{
    assert(with_ended(with_begun(fleet, index), index) =~= fleet);
}

} // verus!
