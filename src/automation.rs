use vstd::prelude::*;
use crate::params::{CodecSettings, Parameter};

verus! {

/// One automation point: at `offset` frames into the block the parameter
/// takes the normalized value `value`.
#[derive(Clone, Copy, Debug, PartialEq, Eq, Structural)]
pub struct Breakpoint {
    pub offset: u32,
    pub value: u32,
}

/// The breakpoints of one parameter within one block, in offset order.
#[derive(Clone, Debug)]
pub struct ParamQueue {
    pub param: Parameter,
    pub points: Vec<Breakpoint>,
}

/// A horizon past every breakpoint of a block.
pub const END_OF_BLOCK: u64 = u64::MAX;

/// Number of leading breakpoints that lie strictly before `horizon`.
pub open spec fn due_len(s: Seq<Breakpoint>, horizon: u64) -> nat
    decreases s.len(),
{
    if s.len() == 0 {
        0
    } else if s[0].offset as u64 >= horizon {
        0
    } else {
        1 + due_len(s.drop_first(), horizon)
    }
}

/// The value of the last breakpoint due before `horizon`, if any is due.
pub open spec fn due_value(s: Seq<Breakpoint>, horizon: u64) -> Option<u32> {
    let k = due_len(s, horizon);
    if k == 0 {
        None
    } else {
        Some(s[k - 1].value)
    }
}

/// The settings after the due breakpoints of the first `n` queues are applied in order.
pub open spec fn apply_prefix(
    s: CodecSettings,
    changes: Seq<ParamQueue>,
    horizon: u64,
    n: nat,
) -> CodecSettings
    decreases n,
{
    if n == 0 || n > changes.len() {
        s
    } else {
        let prev = apply_prefix(s, changes, horizon, (n - 1) as nat);
        match due_value(changes[n - 1].points@, horizon) {
            Some(v) => prev.with_value(changes[n - 1].param, v),
            None => prev,
        }
    }
}

/// The settings after every parameter takes its last value due before `horizon`.
pub open spec fn apply_due(s: CodecSettings, changes: Seq<ParamQueue>, horizon: u64) -> CodecSettings {
    apply_prefix(s, changes, horizon, changes.len())
}

/// Whether any parameter has a breakpoint due before `horizon`.
pub open spec fn any_due(changes: Seq<ParamQueue>, horizon: u64) -> bool {
    exists|i: int| 0 <= i < changes.len() && due_value(#[trigger] changes[i].points@, horizon).is_some()
}

/// `due_len` is the first position whose breakpoint is not before the horizon.
pub proof fn lemma_due_len(s: Seq<Breakpoint>, horizon: u64, k: nat)
    requires
        k <= s.len(),
        forall|j: int| 0 <= j < k ==> ((#[trigger] s[j]).offset as u64) < horizon,
        s.len() > k ==> s[k as int].offset as u64 >= horizon,
    ensures
        due_len(s, horizon) == k,
    decreases k,
{
    if k > 0 {
        let t = s.drop_first();
        assert forall|j: int| 0 <= j < k - 1 implies ((#[trigger] t[j]).offset as u64) < horizon by {
            assert(t[j] == s[j + 1]);
        }
        if (k - 1) < t.len() {
            assert(t[k - 1] == s[k as int]);
        }
        lemma_due_len(t, horizon, (k - 1) as nat);
    }
}

/// Number of leading breakpoints strictly before `horizon`.
pub fn due_count(points: &Vec<Breakpoint>, horizon: u64) -> (k: usize)
    ensures
        k == due_len(points@, horizon),
        k <= points@.len(),
        forall|j: int| 0 <= j < k ==> ((#[trigger] points@[j]).offset as u64) < horizon,
        points@.len() > k ==> points@[k as int].offset as u64 >= horizon,
{
    let mut i: usize = 0;
    while i < points.len() && (points[i].offset as u64) < horizon
        invariant
            i <= points@.len(),
            forall|j: int| 0 <= j < i ==> ((#[trigger] points@[j]).offset as u64) < horizon,
        decreases points@.len() - i,
    {
        i += 1;
    }
    proof {
        lemma_due_len(points@, horizon, i as nat);
    }
    i
}

/// The value of the last breakpoint before `horizon`; breakpoints at or after
/// the horizon wait for a later call.
pub fn last_due(points: &Vec<Breakpoint>, horizon: u64) -> (r: Option<u32>)
    ensures
        r == due_value(points@, horizon),
{
    let k = due_count(points, horizon);
    if k == 0 {
        None
    } else {
        Some(points[k - 1].value)
    }
}

/// Brings every parameter of `changes` to its last value due before
/// `horizon`. Returns whether any parameter was set.
pub fn apply_changes(settings: &mut CodecSettings, changes: &Vec<ParamQueue>, horizon: u64) -> (r: bool)
    requires
        old(settings).wf(),
    ensures
        final(settings).wf(),
        *final(settings) == apply_due(*old(settings), changes@, horizon),
        r == any_due(changes@, horizon),
{
    let mut i: usize = 0;
    let mut changed = false;
    while i < changes.len()
        invariant
            i <= changes@.len(),
            settings.wf(),
            *settings == apply_prefix(*old(settings), changes@, horizon, i as nat),
            changed == exists|j: int| 0 <= j < i && due_value(#[trigger] changes@[j].points@, horizon).is_some(),
        decreases changes@.len() - i,
    {
        let q = &changes[i];
        match last_due(&q.points, horizon) {
            Some(v) => {
                settings.set_value(q.param, v);
                changed = true;
            },
            None => {},
        }
        i += 1;
    }
    changed
}

} // verus!
