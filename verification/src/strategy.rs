//! Selection policies: given the snapshots of the candidates of one dispatch
//! attempt, name the position of the one to contact.
use rand::Rng;
use vstd::prelude::*;
use vstd::string::StringExecFns;

verus! {

/// Selection-relevant state of one upstream, copied at one moment.
#[derive(Debug, Clone, Copy)]
pub struct InstanceSnapshot {
    pub con_count: u32,
    pub is_alive: bool,
}

/// A selection policy. An implementation sees only snapshots and may keep
/// state of its own between calls. What it returns is for each policy to
/// say: the dispatcher checks the position against the candidate list.
pub trait BalancingStrategy: Sized {
    /// A selection on `snapshots` by the policy `self` may return `idx` and
    /// leave the policy as `after`. A policy that does not say otherwise may
    /// return anything.
    open spec fn selects(self, snapshots: Seq<InstanceSnapshot>, after: Self, idx: usize) -> bool {
        true
    }

    fn select_instance(&mut self, snapshots: &[InstanceSnapshot]) -> (idx: usize)
        requires
            snapshots@.len() > 0,
        ensures
            (*old(self)).selects(snapshots@, *final(self), idx),
    ;
}

/// Some alive snapshot exists in `s`.
pub open spec fn has_alive(s: Seq<InstanceSnapshot>) -> bool {
    exists|j: int| 0 <= j < s.len() && (#[trigger] s[j]).is_alive
}

/// `i` is the position of an alive snapshot whose connection count is minimal
/// among the alive ones, and no alive snapshot before it has the same count.
pub open spec fn is_least_loaded(s: Seq<InstanceSnapshot>, i: int) -> bool {
    &&& 0 <= i < s.len()
    &&& s[i].is_alive
    &&& forall|j: int|
        0 <= j < s.len() && (#[trigger] s[j]).is_alive ==> s[i].con_count <= s[j].con_count
    &&& forall|j: int| 0 <= j < i && (#[trigger] s[j]).is_alive ==> s[i].con_count < s[j].con_count
}

/// The position the round-robin policy returns with cursor `cursor` on `len`
/// candidates.
pub open spec fn round_robin_pick(cursor: nat, len: nat) -> nat
    recommends
        len > 0,
{
    cursor % len
}

/// The cursor the round-robin policy keeps after one selection.
pub open spec fn round_robin_next(cursor: nat, len: nat) -> nat
    recommends
        len > 0,
{
    (cursor + 1) % len
}

/// The cursor after `count` selections on `len` candidates each.
pub open spec fn round_robin_after(cursor: nat, len: nat, count: nat) -> nat
    recommends
        len > 0,
    decreases count,
{
    if count == 0 {
        cursor
    } else {
        round_robin_next(round_robin_after(cursor, len, (count - 1) as nat), len)
    }
}

/// On a candidate list of constant length a fresh cursor hands out the
/// positions in cyclic order: the selection after `count` earlier ones returns
/// `count` modulo the length.
pub proof fn lemma_round_robin_rotation(len: nat, count: nat)
    requires
        len > 0,
    ensures
        round_robin_pick(round_robin_after(0, len, count), len) == count % len,
    decreases count,
{
    lemma_round_robin_after(len, count);
    vstd::arithmetic::div_mod::lemma_mod_twice(count as int, len as int);
}

proof fn lemma_round_robin_after(len: nat, count: nat)
    requires
        len > 0,
    ensures
        round_robin_after(0, len, count) == count % len,
    decreases count,
{
    if count > 0 {
        let prev = (count - 1) as nat;
        lemma_round_robin_after(len, prev);
        vstd::arithmetic::div_mod::lemma_add_mod_noop(prev as int, 1, len as int);
        vstd::arithmetic::div_mod::lemma_mod_twice(prev as int, len as int);
        vstd::arithmetic::div_mod::lemma_add_mod_noop((prev % len) as int, 1, len as int);
    } else {
        vstd::arithmetic::div_mod::lemma_small_mod(0, len);
    }
}

/// Hands out positions in cyclic order from a private cursor.
pub struct RoundRobin {
    idx_to_pick: usize,
}

impl RoundRobin {
    /// The cursor: the number that the next selection reduces modulo the
    /// length of its candidate list.
    pub closed spec fn cursor(&self) -> nat {
        self.idx_to_pick as nat
    }

    pub fn new() -> (r: Self)
        ensures
            r.cursor() == 0,
    {
        Self { idx_to_pick: 0 }
    }
}

impl BalancingStrategy for RoundRobin {
    /// The cursor modulo the number of candidates is returned, and the cursor
    /// moves on by one, modulo the same number.
    open spec fn selects(self, snapshots: Seq<InstanceSnapshot>, after: Self, idx: usize) -> bool {
        &&& idx == round_robin_pick(self.cursor(), snapshots.len())
        &&& after.cursor() == round_robin_next(self.cursor(), snapshots.len())
    }

    /// Returns the cursor modulo the number of candidates and advances the
    /// cursor by one, modulo the same number. The cursor is not reset when the
    /// list changes length.
    fn select_instance(&mut self, snapshots: &[InstanceSnapshot]) -> (idx: usize)
        ensures
            idx < snapshots@.len(),
    {
        let len = snapshots.len();
        let result = self.idx_to_pick % len;
        proof {
            vstd::arithmetic::div_mod::lemma_add_mod_noop(
                self.idx_to_pick as int,
                1,
                len as int,
            );
            if len > 1 {
                vstd::arithmetic::div_mod::lemma_small_mod(1, len as nat);
            }
        }
        self.idx_to_pick = (result + 1) % len;
        result
    }
}

/// Draws a position with `rand::Rng::random_range` over `0..n` on the
/// generator of the current thread, `rand::rng()`. The outside function
/// panics on an empty range, which the precondition leaves out, and returns a
/// value of the range; which one is left open.
#[verifier::external_body]
fn random_index(n: usize) -> (r: usize)
    requires
        n > 0,
    ensures
        r < n,
{
    rand::rng().random_range(0..n)
}

/// Picks a position at random. Keeps no state.
pub struct Random {}

impl Random {
    pub fn new() -> (r: Self) {
        Self {  }
    }
}

impl BalancingStrategy for Random {
    /// Any position of the list may be returned.
    open spec fn selects(self, snapshots: Seq<InstanceSnapshot>, after: Self, idx: usize) -> bool {
        idx < snapshots.len()
    }

    /// Returns some position of the candidate list.
    fn select_instance(&mut self, snapshots: &[InstanceSnapshot]) -> (idx: usize)
        ensures
            idx < snapshots@.len(),
    {
        random_index(snapshots.len())
    }
}

/// Picks the alive candidate with the fewest requests in flight. Keeps no
/// state.
pub struct LeastConnections {}

impl LeastConnections {
    pub fn new() -> (r: Self) {
        Self {  }
    }

    /// The position of the alive snapshot with the smallest connection count,
    /// the first of them where several share it; 0 where none is alive, the
    /// empty list included.
    pub fn least_loaded(snapshots: &[InstanceSnapshot]) -> (idx: usize)
        ensures
            has_alive(snapshots@) ==> is_least_loaded(snapshots@, idx as int),
            !has_alive(snapshots@) ==> idx == 0,
    {
        let mut found = false;
        let mut least_connections: u32 = u32::MAX;
        let mut idx: usize = 0;
        let mut i: usize = 0;
        while i < snapshots.len()
            invariant
                i <= snapshots@.len(),
                found ==> is_least_loaded(snapshots@.take(i as int), idx as int)
                    && least_connections == snapshots@[idx as int].con_count,
                !found ==> idx == 0 && !has_alive(snapshots@.take(i as int)),
            decreases snapshots@.len() - i,
        {
            let snapshot = snapshots[i];
            let ghost before = snapshots@.take(i as int);
            let ghost after = snapshots@.take(i + 1);
            assert(forall|j: int| 0 <= j < i ==> after[j] == before[j]);
            assert(after[i as int] == snapshots@[i as int]);
            if snapshot.is_alive && (!found || snapshot.con_count < least_connections) {
                proof {
                    if !found {
                        assert forall|j: int| 0 <= j < i implies !(#[trigger] after[j]).is_alive by {
                            assert(before[j] == after[j]);
                        }
                    } else {
                        assert forall|j: int| 0 <= j < i && (#[trigger] after[j]).is_alive implies snapshot.con_count
                            < after[j].con_count by {
                            assert(before[j].is_alive);
                        }
                    }
                }
                least_connections = snapshot.con_count;
                idx = i;
                found = true;
                assert(is_least_loaded(after, idx as int));
            } else {
                proof {
                    if found {
                        assert forall|j: int|
                            0 <= j < after.len() && (#[trigger] after[j]).is_alive implies after[idx as int].con_count
                            <= after[j].con_count by {
                            if j < i {
                                assert(before[j].is_alive);
                            }
                        }
                        assert forall|j: int|
                            0 <= j < idx && (#[trigger] after[j]).is_alive implies after[idx as int].con_count
                            < after[j].con_count by {
                            assert(before[j].is_alive);
                        }
                        assert(is_least_loaded(after, idx as int));
                    } else {
                        assert forall|j: int| 0 <= j < after.len() implies !(#[trigger] after[j]).is_alive by {
                            if j < i {
                                assert(before[j] == after[j]);
                            }
                        }
                    }
                }
            }
            i = i + 1;
        }
        assert(snapshots@.take(i as int) =~= snapshots@);
        idx
    }
}

impl BalancingStrategy for LeastConnections {
    /// The first least loaded alive snapshot is returned; position 0 where
    /// none is alive.
    open spec fn selects(self, snapshots: Seq<InstanceSnapshot>, after: Self, idx: usize) -> bool {
        &&& has_alive(snapshots) ==> is_least_loaded(snapshots, idx as int)
        &&& !has_alive(snapshots) ==> idx == 0
    }

    fn select_instance(&mut self, snapshots: &[InstanceSnapshot]) -> (idx: usize)
        ensures
            idx < snapshots@.len(),
    {
        LeastConnections::least_loaded(snapshots)
    }
}

/// The three policies as one type, for a balancer whose policy is chosen
/// when it is configured.
pub enum Strategy {
    RoundRobin(RoundRobin),
    LeastConnections(LeastConnections),
    Random(Random),
}

/// The policy that a configured name stands for.
pub enum StrategyKind {
    RoundRobin,
    LeastConnections,
    Random,
}

/// `round_robin` and `least_connections` name their policies; every other
/// name stands for the random policy.
pub open spec fn kind_of_name(name: Seq<char>) -> StrategyKind {
    if name == "round_robin"@ {
        StrategyKind::RoundRobin
    } else if name == "least_connections"@ {
        StrategyKind::LeastConnections
    } else {
        StrategyKind::Random
    }
}

impl Strategy {
    pub open spec fn kind(&self) -> StrategyKind {
        match self {
            Strategy::RoundRobin(_) => StrategyKind::RoundRobin,
            Strategy::LeastConnections(_) => StrategyKind::LeastConnections,
            Strategy::Random(_) => StrategyKind::Random,
        }
    }

    /// The cursor of the round-robin policy; 0 for the policies that keep
    /// none.
    pub open spec fn cursor(&self) -> nat {
        match self {
            Strategy::RoundRobin(r) => r.cursor(),
            _ => 0,
        }
    }

    /// A fresh policy of the kind that `name` stands for.
    pub fn from_name(name: &String) -> (s: Self)
        ensures
            s.kind() == kind_of_name(name@),
            s.cursor() == 0,
    {
        let round_robin = String::from_str("round_robin");
        let least_connections = String::from_str("least_connections");
        if *name == round_robin {
            Strategy::RoundRobin(RoundRobin::new())
        } else if *name == least_connections {
            Strategy::LeastConnections(LeastConnections::new())
        } else {
            Strategy::Random(Random::new())
        }
    }
}

impl BalancingStrategy for Strategy {
    /// The policy inside selects, and stays of its kind.
    open spec fn selects(self, snapshots: Seq<InstanceSnapshot>, after: Self, idx: usize) -> bool {
        match (self, after) {
            (Strategy::RoundRobin(r), Strategy::RoundRobin(q)) => r.selects(snapshots, q, idx),
            (Strategy::LeastConnections(l), Strategy::LeastConnections(m)) => l.selects(
                snapshots,
                m,
                idx,
            ),
            (Strategy::Random(r), Strategy::Random(q)) => r.selects(snapshots, q, idx),
            _ => false,
        }
    }

    /// Selects as the policy inside does.
    fn select_instance(&mut self, snapshots: &[InstanceSnapshot]) -> (idx: usize)
        ensures
            idx < snapshots@.len(),
    {
        match self {
            Strategy::RoundRobin(r) => r.select_instance(snapshots),
            Strategy::LeastConnections(l) => l.select_instance(snapshots),
            Strategy::Random(r) => r.select_instance(snapshots),
        }
    }
}

} // verus!
