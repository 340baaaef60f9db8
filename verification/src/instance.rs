//! One upstream: its address, the number of requests in flight to it, and
//! its liveness, which follows the health probes with hysteresis.
use crate::config::{Config, InstanceConfig};
use crate::status::{is_success, success};
use crate::strategy::InstanceSnapshot;
use crate::text::{base_url, make_base_url};
use vstd::prelude::*;

verus! {

/// The result of one health probe.
#[derive(Debug, Clone, Copy)]
pub enum Probe {
    /// The upstream answered with this status.
    Status(u16),
    /// No answer: the connection failed or the deadline passed.
    Failed,
}

/// What a probe changed.
#[derive(Debug, Clone, Copy, PartialEq, Eq)]
pub enum Transition {
    Unchanged,
    /// A dead instance became alive.
    Restored,
    /// An alive instance became dead.
    Lost,
}

/// What an `Instance` stands for. Times are nanoseconds on a clock that
/// never goes back.
pub struct InstanceView {
    pub base_host: Seq<char>,
    pub rest_port: u16,
    pub grpc_port: u16,
    pub secure: bool,
    pub con_timeout: u64,
    pub health_check_time_limit: u64,
    pub in_flight: u32,
    pub is_alive: bool,
    pub last_healthy: Option<u64>,
}

/// The probe got an answer of the class 2xx.
pub open spec fn probe_succeeded(probe: Probe) -> bool {
    probe matches Probe::Status(code) && success(code)
}

/// At `now` the instance has never been healthy, or was last healthy more
/// than its time limit ago.
pub open spec fn stale(v: InstanceView, now: u64) -> bool {
    match v.last_healthy {
        None => true,
        Some(t) => now - t > v.health_check_time_limit,
    }
}

/// The instance after a failed probe at `now`: dead where it is stale,
/// unchanged otherwise.
pub open spec fn after_failure(v: InstanceView, now: u64) -> InstanceView {
    if stale(v, now) {
        InstanceView { is_alive: false, ..v }
    } else {
        v
    }
}

/// The instance after a probe at `now`: alive and last healthy at `now` where
/// the probe succeeded, else as after a failed probe.
pub open spec fn after_probe(v: InstanceView, probe: Probe, now: u64) -> InstanceView {
    if probe_succeeded(probe) {
        InstanceView { is_alive: true, last_healthy: Some(now), ..v }
    } else {
        after_failure(v, now)
    }
}

/// The change of liveness from `before` to `after`.
pub open spec fn transition(before: InstanceView, after: InstanceView) -> Transition {
    if before.is_alive && !after.is_alive {
        Transition::Lost
    } else if !before.is_alive && after.is_alive {
        Transition::Restored
    } else {
        Transition::Unchanged
    }
}

/// The counter after one more request is in flight. It wraps at the end of
/// its range.
pub open spec fn incremented(c: u32) -> u32 {
    if c == u32::MAX {
        0
    } else {
        (c + 1) as u32
    }
}

/// The counter after one request in flight has ended. It wraps at 0.
pub open spec fn decremented(c: u32) -> u32 {
    if c == 0 {
        u32::MAX
    } else {
        (c - 1) as u32
    }
}

#[derive(Debug)]
pub struct Instance {
    base_url: String,
    rest_port: u16,
    grpc_port: u16,
    secure: bool,
    con_timeout: u64,
    health_check_time_limit: u64,
    pub con_count: u32,
    is_alive: bool,
    last_healthy: Option<u64>,
}

impl Instance {
    pub closed spec fn view(&self) -> InstanceView {
        InstanceView {
            base_host: self.base_url@,
            rest_port: self.rest_port,
            grpc_port: self.grpc_port,
            secure: self.secure,
            con_timeout: self.con_timeout,
            health_check_time_limit: self.health_check_time_limit,
            in_flight: self.con_count,
            is_alive: self.is_alive,
            last_healthy: self.last_healthy,
        }
    }

    /// A new instance is alive, has never been probed and has no request in
    /// flight. It speaks HTTPS where the configuration holds TLS material.
    pub fn new(instance_config: &InstanceConfig, cfg: &Config) -> (instance: Self)
        ensures
            instance@ == (InstanceView {
                base_host: instance_config.base_url@,
                rest_port: instance_config.rest_port,
                grpc_port: instance_config.grpc_port,
                secure: cfg.tls is Some,
                con_timeout: cfg.connection_timeout,
                health_check_time_limit: cfg.health_check_time_limit,
                in_flight: 0,
                is_alive: true,
                last_healthy: None,
            }),
    {
        Self {
            base_url: instance_config.base_url.clone(),
            rest_port: instance_config.rest_port,
            grpc_port: instance_config.grpc_port,
            secure: cfg.tls.is_some(),
            con_timeout: cfg.connection_timeout,
            health_check_time_limit: cfg.health_check_time_limit,
            con_count: 0,
            is_alive: true,
            last_healthy: None,
        }
    }

    pub fn get_rest_url(&self) -> (url: String)
        ensures
            url@ == base_url(self@.secure, self@.base_host, self@.rest_port),
    {
        make_base_url(self.secure, self.base_url.as_str(), self.rest_port)
    }

    pub fn get_grpc_url(&self) -> (url: String)
        ensures
            url@ == base_url(self@.secure, self@.base_host, self@.grpc_port),
    {
        make_base_url(self.secure, self.base_url.as_str(), self.grpc_port)
    }

    pub fn is_alive(&self) -> (alive: bool)
        ensures
            alive == self@.is_alive,
    {
        self.is_alive
    }

    /// The deadline of one request to this instance.
    pub fn con_timeout(&self) -> (timeout: u64)
        ensures
            timeout == self@.con_timeout,
    {
        self.con_timeout
    }

    /// When a probe last succeeded.
    pub fn last_healthy(&self) -> (at: Option<u64>)
        ensures
            at == self@.last_healthy,
    {
        self.last_healthy
    }

    /// The number of requests in flight to this instance.
    pub fn in_flight(&self) -> (count: u32)
        ensures
            count == self@.in_flight,
    {
        self.con_count
    }

    /// The state that a selection policy sees.
    pub fn snapshot(&self) -> (s: InstanceSnapshot)
        ensures
            s.con_count == self@.in_flight,
            s.is_alive == self@.is_alive,
    {
        InstanceSnapshot { con_count: self.con_count, is_alive: self.is_alive }
    }

    /// Counts one more request in flight.
    pub fn begin_forward(&mut self)
        ensures
            final(self)@ == (InstanceView {
                in_flight: incremented(old(self)@.in_flight),
                ..old(self)@
            }),
    {
        self.con_count = self.con_count.wrapping_add(1);
    }

    /// Counts one request in flight less.
    pub fn end_forward(&mut self)
        ensures
            final(self)@ == (InstanceView {
                in_flight: decremented(old(self)@.in_flight),
                ..old(self)@
            }),
    {
        self.con_count = self.con_count.wrapping_sub(1);
    }

    /// Takes a failed probe at `now`: the instance becomes dead where it has
    /// never been healthy or was last healthy more than its time limit ago,
    /// and stays as it is otherwise.
    pub fn _handle_health_check_error(&mut self, now: u64) -> (change: Transition)
        ensures
            final(self)@ == after_failure(old(self)@, now),
            change == transition(old(self)@, final(self)@),
    {
        let is_stale = match self.last_healthy {
            None => true,
            Some(t) => now > t && now - t > self.health_check_time_limit,
        };
        if is_stale {
            let was_alive = self.is_alive;
            self.is_alive = false;
            if was_alive {
                Transition::Lost
            } else {
                Transition::Unchanged
            }
        } else {
            Transition::Unchanged
        }
    }

    /// Takes the result of a probe made at `now`. An answer of the class 2xx
    /// makes the instance alive and last healthy at `now`; anything else is a
    /// failed probe.
    pub fn health_check(&mut self, probe: Probe, now: u64) -> (change: Transition)
        ensures
            final(self)@ == after_probe(old(self)@, probe, now),
            change == transition(old(self)@, final(self)@),
    {
        match probe {
            Probe::Status(code) => {
                if is_success(code) {
                    let was_alive = self.is_alive;
                    self.is_alive = true;
                    self.last_healthy = Some(now);
                    if was_alive {
                        Transition::Unchanged
                    } else {
                        Transition::Restored
                    }
                } else {
                    self._handle_health_check_error(now)
                }
            },
            Probe::Failed => self._handle_health_check_error(now),
        }
    }
}

/// Counting a request in and out again leaves the counter as it was.
pub proof fn lemma_in_flight_balanced(c: u32)
    ensures
        decremented(incremented(c)) == c,
        incremented(decremented(c)) == c,
{
}

/// An alive instance that fails a probe within its time limit of the last
/// successful one, and then passes the next probe, is alive after each of the
/// two.
pub proof fn lemma_brief_failure_tolerated(
    v: InstanceView,
    healthy_at: u64,
    failed: Probe,
    failed_at: u64,
    passed: Probe,
    passed_at: u64,
)
    requires
        v.is_alive,
        v.last_healthy == Some(healthy_at),
        failed_at - healthy_at <= v.health_check_time_limit,
        !probe_succeeded(failed),
        probe_succeeded(passed),
    ensures
        after_probe(v, failed, failed_at).is_alive,
        after_probe(v, failed, failed_at) == v,
        after_probe(after_probe(v, failed, failed_at), passed, passed_at).is_alive,
{
}

/// Only a failed probe on a stale instance takes liveness away.
pub proof fn lemma_lost_only_when_stale(v: InstanceView, probe: Probe, now: u64)
    requires
        v.is_alive,
        !after_probe(v, probe, now).is_alive,
    ensures
        !probe_succeeded(probe),
        stale(v, now),
{
}

} // verus!
