//! Quality-of-service policies and the mutable policy block.
//!
//! Each logical policy value mirrors a native `(kind, optional parameter)`
//! pair. Encoding is total over the logical values; decoding is its strict
//! inverse and rejects every pair that corresponds to no logical value.
//! [`QoS`] is the builder over one exclusively owned policy block: setters
//! record one policy family each, and the block's state is a pure function
//! of the setter calls applied to it.

use crate::duration::{Duration, DURATION_INFINITE};
use vstd::prelude::*;
use vstd::slice::slice_index_get;

verus! {

/// The native history kind that keeps only the last samples.
pub const HISTORY_KEEP_LAST: u32 = 0;

/// The native history kind that keeps every sample.
pub const HISTORY_KEEP_ALL: u32 = 1;

/// The native durability kind for data that dies with its writer.
pub const DURABILITY_VOLATILE: u32 = 0;

/// The native durability kind for data kept by the local writer.
pub const DURABILITY_TRANSIENT_LOCAL: u32 = 1;

/// The native durability kind for data kept by the middleware.
pub const DURABILITY_TRANSIENT: u32 = 2;

/// The native durability kind for data kept beyond the middleware's life.
pub const DURABILITY_PERSISTENT: u32 = 3;

/// The native reliability kind for delivery without guarantees.
pub const RELIABILITY_BEST_EFFORT: u32 = 0;

/// The native reliability kind for guaranteed delivery.
pub const RELIABILITY_RELIABLE: u32 = 1;

/// A native `(kind, parameter)` pair that corresponds to no logical policy
/// value. Decoding must fail on such a pair rather than silently default.
#[derive(Debug, Clone, Copy, PartialEq, Eq, Structural, Hash)]
pub struct InvalidRawPolicy;

/// How many past samples are retained.
#[derive(Debug, Clone, Copy, PartialEq, Eq, Structural, Hash)]
pub enum History {
    /// Keep only the most recent `n` samples.
    KeepLast { n: usize },
    /// Keep every sample.
    KeepAll,
}

/// The logical history value, if any, that the native pair denotes: the
/// count is meaningful exactly for the keep-last kind.
pub open spec fn history_from_raw_spec(kind: u32, n: Option<usize>) -> Option<History> {
    match n {
        Some(count) => if kind == HISTORY_KEEP_LAST {
            Some(History::KeepLast { n: count })
        } else {
            None
        },
        None => if kind == HISTORY_KEEP_ALL {
            Some(History::KeepAll)
        } else {
            None
        },
    }
}

/// The native pair of a history value.
pub open spec fn history_to_raw_spec(h: History) -> (u32, Option<usize>) {
    match h {
        History::KeepLast { n } => (HISTORY_KEEP_LAST, Some(n)),
        History::KeepAll => (HISTORY_KEEP_ALL, None),
    }
}

impl History {
    /// Decodes a native `(kind, count)` pair; fails on any pair that is
    /// neither keep-last with a count nor keep-all without one.
    pub fn from_raw(kind: u32, n: Option<usize>) -> (r: Result<History, InvalidRawPolicy>)
        ensures
            match r {
                Ok(h) => history_from_raw_spec(kind, n) == Some(h),
                Err(_) => history_from_raw_spec(kind, n) is None,
            },
    {
        match n {
            Some(count) => if kind == HISTORY_KEEP_LAST {
                Ok(History::KeepLast { n: count })
            } else {
                Err(InvalidRawPolicy)
            },
            None => if kind == HISTORY_KEEP_ALL {
                Ok(History::KeepAll)
            } else {
                Err(InvalidRawPolicy)
            },
        }
    }

    /// Encodes this value as its native `(kind, count)` pair; the result
    /// always decodes back to the same value.
    pub fn to_raw(&self) -> (r: (u32, Option<usize>))
        ensures
            r == history_to_raw_spec(*self),
            history_from_raw_spec(r.0, r.1) == Some(*self),
    {
        match *self {
            History::KeepLast { n } => (HISTORY_KEEP_LAST, Some(n)),
            History::KeepAll => (HISTORY_KEEP_ALL, None),
        }
    }

    /// The arguments of the native history setter: the kind and the count
    /// narrowed to the native width, with zero standing in where no count
    /// is meaningful.
    pub fn native_args(&self) -> (r: (u32, i32))
        ensures
            (match *self {
                History::KeepLast { n } => r == (HISTORY_KEEP_LAST, n as i32),
                History::KeepAll => r == (HISTORY_KEEP_ALL, 0i32),
            }),
    {
        match *self {
            History::KeepLast { n } => (HISTORY_KEEP_LAST, #[verifier::truncate] (n as i32)),
            History::KeepAll => (HISTORY_KEEP_ALL, 0),
        }
    }
}

/// How long data outlives its producer.
#[derive(Debug, Clone, Copy, PartialEq, Eq, Structural, Hash)]
pub enum Durability {
    /// Data dies with its writer.
    Volatile,
    /// Data is kept by the local writer for late joiners.
    TransientLocal,
    /// Data is kept by the middleware.
    Transient,
    /// Data outlives the middleware itself.
    Persistent,
}

/// The logical durability value, if any, that the native kind denotes.
pub open spec fn durability_from_raw_spec(kind: u32) -> Option<Durability> {
    if kind == DURABILITY_VOLATILE {
        Some(Durability::Volatile)
    } else if kind == DURABILITY_TRANSIENT_LOCAL {
        Some(Durability::TransientLocal)
    } else if kind == DURABILITY_TRANSIENT {
        Some(Durability::Transient)
    } else if kind == DURABILITY_PERSISTENT {
        Some(Durability::Persistent)
    } else {
        None
    }
}

/// The native kind enumerator of a durability value.
pub open spec fn durability_to_raw_spec(d: Durability) -> u32 {
    match d {
        Durability::Volatile => DURABILITY_VOLATILE,
        Durability::TransientLocal => DURABILITY_TRANSIENT_LOCAL,
        Durability::Transient => DURABILITY_TRANSIENT,
        Durability::Persistent => DURABILITY_PERSISTENT,
    }
}

impl Durability {
    /// Decodes a native durability kind; fails on the values that name no
    /// durability variant.
    pub fn from_raw(kind: u32) -> (r: Result<Durability, InvalidRawPolicy>)
        ensures
            match r {
                Ok(d) => durability_from_raw_spec(kind) == Some(d),
                Err(_) => durability_from_raw_spec(kind) is None,
            },
    {
        if kind == DURABILITY_VOLATILE {
            Ok(Durability::Volatile)
        } else if kind == DURABILITY_TRANSIENT_LOCAL {
            Ok(Durability::TransientLocal)
        } else if kind == DURABILITY_TRANSIENT {
            Ok(Durability::Transient)
        } else if kind == DURABILITY_PERSISTENT {
            Ok(Durability::Persistent)
        } else {
            Err(InvalidRawPolicy)
        }
    }

    /// Encodes this value as its native kind enumerator; the result always
    /// decodes back to the same value.
    pub fn to_raw(&self) -> (r: u32)
        ensures
            r == durability_to_raw_spec(*self),
            durability_from_raw_spec(r) == Some(*self),
    {
        match *self {
            Durability::Volatile => DURABILITY_VOLATILE,
            Durability::TransientLocal => DURABILITY_TRANSIENT_LOCAL,
            Durability::Transient => DURABILITY_TRANSIENT,
            Durability::Persistent => DURABILITY_PERSISTENT,
        }
    }
}

/// The strength of the delivery guarantee.
#[derive(Debug, Clone, Copy, PartialEq, Eq, Structural, Hash)]
pub enum Reliability {
    /// Delivery without guarantees.
    BestEffort,
    /// Guaranteed delivery, blocking a writer at most this long.
    Reliable { max_blocking_time: Duration },
}

impl Reliability {
    /// A reliable value carries a well-formed blocking time.
    pub open spec fn wf(self) -> bool {
        self matches Reliability::Reliable { max_blocking_time } ==> max_blocking_time.wf()
    }
}

/// The logical reliability value, if any, that the native pair denotes:
/// the duration is meaningful exactly for the reliable kind.
pub open spec fn reliability_from_raw_spec(kind: u32, t: Option<i64>) -> Option<Reliability> {
    match t {
        Some(raw) => if kind == RELIABILITY_RELIABLE {
            Some(Reliability::Reliable { max_blocking_time: Duration::from_raw_spec(raw) })
        } else {
            None
        },
        None => if kind == RELIABILITY_BEST_EFFORT {
            Some(Reliability::BestEffort)
        } else {
            None
        },
    }
}

/// The native pair of a reliability value.
pub open spec fn reliability_to_raw_spec(r: Reliability) -> (u32, Option<i64>) {
    match r {
        Reliability::Reliable { max_blocking_time } => (
            RELIABILITY_RELIABLE,
            Some(max_blocking_time.to_raw_spec()),
        ),
        Reliability::BestEffort => (RELIABILITY_BEST_EFFORT, None),
    }
}

impl Reliability {
    /// Decodes a native `(kind, duration)` pair; fails on any pair that is
    /// neither reliable with a duration nor best-effort without one.
    pub fn from_raw_parts(kind: u32, t: Option<i64>) -> (r: Result<Reliability, InvalidRawPolicy>)
        ensures
            match r {
                Ok(rel) => reliability_from_raw_spec(kind, t) == Some(rel) && rel.wf(),
                Err(_) => reliability_from_raw_spec(kind, t) is None,
            },
    {
        match t {
            Some(raw) => if kind == RELIABILITY_RELIABLE {
                Ok(Reliability::Reliable { max_blocking_time: Duration::from_raw(raw) })
            } else {
                Err(InvalidRawPolicy)
            },
            None => if kind == RELIABILITY_BEST_EFFORT {
                Ok(Reliability::BestEffort)
            } else {
                Err(InvalidRawPolicy)
            },
        }
    }

    /// Encodes this value as its native `(kind, duration)` pair; the
    /// result always decodes back to the same value.
    pub fn to_raw_parts(&self) -> (r: (u32, Option<i64>))
        requires
            self.wf(),
        ensures
            r == reliability_to_raw_spec(*self),
            reliability_from_raw_spec(r.0, r.1) == Some(*self),
    {
        match *self {
            Reliability::Reliable { max_blocking_time } => (
                RELIABILITY_RELIABLE,
                Some(max_blocking_time.to_raw()),
            ),
            Reliability::BestEffort => (RELIABILITY_BEST_EFFORT, None),
        }
    }

    /// The arguments of the native reliability setter: the kind and a
    /// duration, with the infinite sentinel standing in where no blocking
    /// time is meaningful.
    pub fn native_args(&self) -> (r: (u32, i64))
        requires
            self.wf(),
        ensures
            (match *self {
                Reliability::Reliable { max_blocking_time } => r == (
                    RELIABILITY_RELIABLE,
                    max_blocking_time.to_raw_spec(),
                ),
                Reliability::BestEffort => r == (RELIABILITY_BEST_EFFORT, DURATION_INFINITE),
            }),
    {
        match *self {
            Reliability::Reliable { max_blocking_time } => (
                RELIABILITY_RELIABLE,
                max_blocking_time.to_raw(),
            ),
            Reliability::BestEffort => (RELIABILITY_BEST_EFFORT, DURATION_INFINITE),
        }
    }
}

/// The per-family state of a policy block: which policies have been set,
/// and to what. A family that was never set since the last reset is `None`.
#[verifier::ext_equal]
pub struct QosView {
    /// The history policy, if set.
    pub history: Option<History>,
    /// The durability policy, if set.
    pub durability: Option<Durability>,
    /// The reliability policy, if set.
    pub reliability: Option<Reliability>,
    /// The ordered partition-name list, if set.
    pub partitions: Option<Seq<Seq<char>>>,
}

/// The state of a freshly created policy block: no policy family set.
pub open spec fn qos_default_view() -> QosView {
    QosView { history: None, durability: None, reliability: None, partitions: None }
}

/// One builder step applied to a policy block.
pub enum Setting {
    /// Set the history policy.
    History(History),
    /// Set the durability policy.
    Durability(Durability),
    /// Set the reliability policy.
    Reliability(Reliability),
    /// Replace the whole partition-name list.
    Partitions(Seq<Seq<char>>),
    /// Return the block to its default state.
    Reset,
}

/// The block state that one builder step leaves behind: each setter
/// replaces its own policy family and keeps the others, and a reset
/// restores the default state.
pub open spec fn apply_setting(v: QosView, s: Setting) -> QosView {
    match s {
        Setting::History(h) => QosView { history: Some(h), ..v },
        Setting::Durability(d) => QosView { durability: Some(d), ..v },
        Setting::Reliability(r) => QosView { reliability: Some(r), ..v },
        Setting::Partitions(ps) => QosView { partitions: Some(ps), ..v },
        Setting::Reset => qos_default_view(),
    }
}

/// The block state after a whole sequence of builder steps.
pub open spec fn apply_settings(v: QosView, steps: Seq<Setting>) -> QosView
    decreases steps.len(),
{
    if steps.len() == 0 {
        v
    } else {
        apply_settings(apply_setting(v, steps[0]), steps.drop_first())
    }
}

/// A mutable builder over one exclusively owned policy block. Every
/// setter records exactly one policy family; the block's state is the
/// pure function [`apply_settings`] of the steps taken since creation,
/// and two blocks compare equal exactly when their states agree.
#[derive(Debug)]
pub struct QoS {
    history: Option<History>,
    durability: Option<Durability>,
    reliability: Option<Reliability>,
    partitions: Option<Vec<String>>,
}

impl View for QoS {
    type V = QosView;

    closed spec fn view(&self) -> QosView {
        QosView {
            history: self.history,
            durability: self.durability,
            reliability: self.reliability,
            partitions: match self.partitions {
                Some(ps) => Some(ps.deep_view()),
                None => None,
            },
        }
    }
}

impl QoS {
    /// A well-formed block carries only well-formed blocking times.
    pub open spec fn wf(self) -> bool {
        self@.reliability matches Some(r) ==> r.wf()
    }

    /// Returns the block to its default state, discarding every policy
    /// set so far.
    pub fn reset(&mut self)
        ensures
            final(self)@ == apply_setting(old(self)@, Setting::Reset),
            final(self).wf(),
    {
        self.history = None;
        self.durability = None;
        self.reliability = None;
        self.partitions = None;
    }

    /// Sets the history policy, leaving the other families unchanged.
    pub fn history(&mut self, h: History)
        requires
            old(self).wf(),
        ensures
            final(self)@ == apply_setting(old(self)@, Setting::History(h)),
            final(self).wf(),
    {
        self.history = Some(h);
    }

    /// Sets the durability policy, leaving the other families unchanged.
    pub fn durability(&mut self, d: Durability)
        requires
            old(self).wf(),
        ensures
            final(self)@ == apply_setting(old(self)@, Setting::Durability(d)),
            final(self).wf(),
    {
        self.durability = Some(d);
    }

    /// Sets the reliability policy, leaving the other families unchanged.
    pub fn reliability(&mut self, r: Reliability)
        requires
            old(self).wf(),
            r.wf(),
        ensures
            final(self)@ == apply_setting(old(self)@, Setting::Reliability(r)),
            final(self).wf(),
    {
        self.reliability = Some(r);
    }

    /// Replaces the whole partition-name list with a copy of `ps`, in
    /// order, leaving the other families unchanged. An empty list is a
    /// valid replacement.
    pub fn partitions(&mut self, ps: &[String])
        requires
            old(self).wf(),
        ensures
            final(self)@ == apply_setting(old(self)@, Setting::Partitions(ps.deep_view())),
            final(self).wf(),
    {
        let mut copied: Vec<String> = Vec::new();
        let n = ps.len();
        let mut i: usize = 0;
        while i < n
            invariant
                n == ps@.len(),
                i <= n,
                copied@.len() == i,
                forall|j: int| 0 <= j < i ==> copied@[j] == ps@[j],
            decreases n - i,
        {
            copied.push(slice_index_get(ps, i).clone());
            i = i + 1;
        }
        self.partitions = Some(copied);
        proof {
            assert(self@.partitions matches Some(p) && p =~~= ps.deep_view());
            assert(self@ =~~= (QosView { partitions: Some(ps.deep_view()), ..old(self)@ }));
        }
    }

    /// The history policy this block holds, if set.
    pub fn get_history(&self) -> (r: Option<History>)
        ensures
            r == self@.history,
    {
        self.history
    }

    /// The durability policy this block holds, if set.
    pub fn get_durability(&self) -> (r: Option<Durability>)
        ensures
            r == self@.durability,
    {
        self.durability
    }

    /// The reliability policy this block holds, if set.
    pub fn get_reliability(&self) -> (r: Option<Reliability>)
        ensures
            r == self@.reliability,
    {
        self.reliability
    }

    /// The partition-name list this block holds, if set.
    pub fn get_partitions(&self) -> (r: Option<&Vec<String>>)
        ensures
            (match r {
                Some(ps) => self@.partitions == Some(ps.deep_view()),
                None => self@.partitions is None,
            }),
    {
        self.partitions.as_ref()
    }
}

impl Default for QoS {
    /// A fresh block in the default state.
    fn default() -> (q: QoS)
        ensures
            q@ == qos_default_view(),
            q.wf(),
    {
        QoS { history: None, durability: None, reliability: None, partitions: None }
    }
}

/// Compares two partition-name lists by contents, in order.
fn partition_lists_eq(a: &Vec<String>, b: &Vec<String>) -> (r: bool)
    ensures
        r == (a.deep_view() == b.deep_view()),
{
    proof {
        assert(a.deep_view().len() == a@.len());
        assert(b.deep_view().len() == b@.len());
    }
    if a.len() != b.len() {
        return false;
    }
    let n = a.len();
    let mut i: usize = 0;
    while i < n
        invariant
            n == a@.len(),
            a@.len() == b@.len(),
            i <= n,
            forall|j: int| 0 <= j < i ==> a.deep_view()[j] == b.deep_view()[j],
        decreases n - i,
    {
        let sa = &a[i];
        let sb = &b[i];
        proof {
            assert(a.deep_view()[i as int] == a@[i as int]@);
            assert(b.deep_view()[i as int] == b@[i as int]@);
        }
        if !sa.eq(sb) {
            return false;
        }
        i = i + 1;
    }
    proof {
        assert(a.deep_view() =~~= b.deep_view());
    }
    true
}

impl PartialEq for QoS {
    /// Structural equality over the block's contents: two blocks are equal
    /// exactly when every policy family agrees, so independently built
    /// blocks with the same setter steps compare equal.
    fn eq(&self, other: &QoS) -> (r: bool) {
        let history_eq = match (self.history, other.history) {
            (None, None) => true,
            (Some(a), Some(b)) => a == b,
            _ => false,
        };
        let durability_eq = match (self.durability, other.durability) {
            (None, None) => true,
            (Some(a), Some(b)) => a == b,
            _ => false,
        };
        let reliability_eq = match (self.reliability, other.reliability) {
            (None, None) => true,
            (Some(a), Some(b)) => a == b,
            _ => false,
        };
        let partitions_eq = match (&self.partitions, &other.partitions) {
            (None, None) => true,
            (Some(a), Some(b)) => partition_lists_eq(a, b),
            _ => false,
        };
        let r = history_eq && durability_eq && reliability_eq && partitions_eq;
        proof {
            if r {
                assert(self@ =~~= other@);
            }
        }
        r
    }
}

impl vstd::std_specs::cmp::PartialEqSpecImpl for QoS {
    open spec fn obeys_eq_spec() -> bool {
        true
    }

    open spec fn eq_spec(&self, other: &QoS) -> bool {
        self@ == other@
    }
}

impl Eq for QoS {}

impl Clone for QoS {
    /// An explicit deep copy: the result is a fully independent second
    /// block holding the same policies.
    fn clone(&self) -> (r: QoS)
        ensures
            r@ == self@,
    {
        let partitions = match &self.partitions {
            Some(ps) => Some(clone_partition_list(ps)),
            None => None,
        };
        let r = QoS {
            history: self.history,
            durability: self.durability,
            reliability: self.reliability,
            partitions,
        };
        proof {
            assert(r@ =~~= self@);
        }
        r
    }
}

/// Copies a partition-name list entry by entry.
fn clone_partition_list(a: &Vec<String>) -> (r: Vec<String>)
    ensures
        r@ == a@,
{
    let mut r: Vec<String> = Vec::new();
    let n = a.len();
    let mut i: usize = 0;
    while i < n
        invariant
            n == a@.len(),
            i <= n,
            r@.len() == i,
            forall|j: int| 0 <= j < i ==> r@[j] == a@[j],
        decreases n - i,
    {
        r.push(a[i].clone());
        i = i + 1;
    }
    proof {
        assert(r@ =~= a@);
    }
    r
}

/// Two blocks that start in the same state and take the same builder
/// steps end in the same state: each step's outcome is a pure function of
/// the state before it and the step's argument.
pub proof fn lemma_same_steps_same_state(v1: QosView, v2: QosView, steps: Seq<Setting>)
    requires
        v1 == v2,
    ensures
        apply_settings(v1, steps) == apply_settings(v2, steps),
{
}

/// After a reset a block is in the state of a freshly created one,
/// whatever was set before.
pub proof fn lemma_reset_equals_fresh(v: QosView)
    ensures
        apply_setting(v, Setting::Reset) == qos_default_view(),
{
}

/// Every history value survives the trip through its native pair, and
/// every decoded pair re-encodes to itself: the mapping loses nothing.
pub proof fn lemma_history_round_trip(h: History, kind: u32, n: Option<usize>)
    ensures
        history_from_raw_spec(history_to_raw_spec(h).0, history_to_raw_spec(h).1) == Some(h),
        history_from_raw_spec(kind, n) == Some(h) ==> history_to_raw_spec(h) == (kind, n),
{
}

/// Every durability value survives the trip through its native kind, and
/// every decoded kind re-encodes to itself.
pub proof fn lemma_durability_round_trip(d: Durability, kind: u32)
    ensures
        durability_from_raw_spec(durability_to_raw_spec(d)) == Some(d),
        durability_from_raw_spec(kind) == Some(d) ==> durability_to_raw_spec(d) == kind,
{
}

/// Every well-formed reliability value survives the trip through its
/// native pair, and every decoded pair re-encodes to itself.
pub proof fn lemma_reliability_round_trip(r: Reliability, kind: u32, t: Option<i64>)
    requires
        r.wf(),
    ensures
        reliability_from_raw_spec(
            reliability_to_raw_spec(r).0,
            reliability_to_raw_spec(r).1,
        ) == Some(r),
        reliability_from_raw_spec(kind, t) == Some(r) ==> reliability_to_raw_spec(r) == (kind, t),
{
}

} // verus!
