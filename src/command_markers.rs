use crate::registry::SchemaId;
use std::collections::HashSet;
use vstd::prelude::*;

verus! {

broadcast use vstd::std_specs::hash::group_hash_axioms;

/// A registered marker; its index is its rank, a higher index a higher priority.
#[derive(Clone, Copy, Debug, PartialEq, Eq, Structural)]
pub struct MarkerId {
    pub index: usize,
}

/// How a write applier changes the target after the payload is decoded.
#[derive(Clone, Copy, Debug, PartialEq, Eq, Structural)]
pub enum WriteFn {
    /// Stores the decoded value, stamped with the message tick.
    Insert,
    /// Last write wins: stores the decoded value only when the message tick is
    /// newer than the tick of the stored one.
    InsertIfNewer,
    /// Decodes and leaves the target as it is.
    Ignore,
    /// Stores a scalar multiplied by the factor (wrapping); other values as decoded.
    Scale(u64),
    /// Stores the decoded value under another schema, stamped with the message tick.
    InsertAs(SchemaId),
}

/// How a remove applier changes the target.
#[derive(Clone, Copy, Debug, PartialEq, Eq, Structural)]
pub enum RemoveFn {
    /// Strips the schema's value; a no-op where it is absent.
    Remove,
    /// Leaves the target as it is.
    Ignore,
    /// Strips the value of another schema; a no-op where it is absent.
    RemoveAs(SchemaId),
}

/// A write applier and a remove applier.
#[derive(Clone, Copy, Debug, PartialEq, Eq, Structural)]
pub struct CommandFns {
    pub write: WriteFn,
    pub remove: RemoveFn,
}

pub open spec fn default_command_fns() -> CommandFns {
    CommandFns { write: WriteFn::Insert, remove: RemoveFn::Remove }
}

impl CommandFns {
    /// Insert on write, remove on remove.
    pub fn default_fns() -> (r: Self)
        ensures
            r == default_command_fns(),
    {
        CommandFns { write: WriteFn::Insert, remove: RemoveFn::Remove }
    }
}

/// An entry of the override table: the appliers of a schema, either its
/// default (no marker) or the alternative for entities that carry a marker.
#[derive(Clone, Copy, Debug, PartialEq, Eq, Structural)]
pub struct CommandEntry {
    pub schema: SchemaId,
    pub marker: Option<MarkerId>,
    pub fns: CommandFns,
}

#[derive(Clone, Copy, Debug, PartialEq, Eq, Structural)]
pub enum MarkerError {
    /// A marker's priority must exceed that of every marker registered before.
    PriorityNotIncreasing,
    /// The marker was never registered.
    UnknownMarker,
}

/// The registered markers' priorities, in registration order.
pub struct CommandMarkers {
    priorities: Vec<u64>,
}

impl View for CommandMarkers {
    type V = Seq<u64>;

    closed spec fn view(&self) -> Seq<u64> {
        self.priorities@
    }
}

/// Priorities strictly increase with registration order.
pub open spec fn strictly_increasing(p: Seq<u64>) -> bool {
    forall|i: int, j: int| 0 <= i < j < p.len() ==> p[i] < p[j]
}

impl CommandMarkers {
    pub fn new() -> (r: Self)
        ensures
            r@ == Seq::<u64>::empty(),
    {
        CommandMarkers { priorities: Vec::new() }
    }

    pub fn len(&self) -> (r: usize)
        ensures
            r == self@.len(),
    {
        self.priorities.len()
    }

    /// Registers a marker with an explicit priority, which must exceed every
    /// priority registered before.
    pub fn insert(&mut self, priority: u64) -> (r: Result<MarkerId, MarkerError>)
        requires
            strictly_increasing(old(self)@),
        ensures
            strictly_increasing(final(self)@),
            old(self)@.len() == 0 || old(self)@.last() < priority ==> {
                &&& r == Ok::<MarkerId, MarkerError>(MarkerId { index: old(self)@.len() as usize })
                &&& final(self)@ == old(self)@.push(priority)
            },
            !(old(self)@.len() == 0 || old(self)@.last() < priority) ==> {
                &&& r == Err::<MarkerId, MarkerError>(MarkerError::PriorityNotIncreasing)
                &&& final(self)@ == old(self)@
            },
    {
        let n = self.priorities.len();
        if n == 0 || self.priorities[n - 1] < priority {
            self.priorities.push(priority);
            Ok(MarkerId { index: n })
        } else {
            Err(MarkerError::PriorityNotIncreasing)
        }
    }
}

/// Which registered markers one entity carries, indexed by marker.
pub struct EntityMarkers {
    present: Vec<bool>,
}

impl View for EntityMarkers {
    type V = Seq<bool>;

    closed spec fn view(&self) -> Seq<bool> {
        self.present@
    }
}

impl EntityMarkers {
    /// Reads the markers an entity carries, given its marker tags, checking
    /// each registered marker in order. Computed afresh for each apply.
    pub fn read(markers: &CommandMarkers, tags: &HashSet<usize>) -> (r: Self)
        ensures
            r@.len() == markers@.len(),
            forall|i: int| 0 <= i < r@.len() ==> r@[i] == tags@.contains(i as usize),
    {
        let n = markers.len();
        let mut present: Vec<bool> = Vec::new();
        let mut i: usize = 0;
        while i < n
            invariant
                i <= n,
                n == markers@.len(),
                present@.len() == i,
                forall|j: int| 0 <= j < i ==> present@[j] == tags@.contains(j as usize),
            decreases n - i,
        {
            present.push(tags.contains(&i));
            i = i + 1;
        }
        EntityMarkers { present }
    }

    pub fn len(&self) -> (r: usize)
        ensures
            r == self@.len(),
    {
        self.present.len()
    }

    pub fn contains(&self, marker: MarkerId) -> (r: bool)
        ensures
            r == present(self@, marker.index as int),
    {
        marker.index < self.present.len() && self.present[marker.index]
    }
}

pub open spec fn present(p: Seq<bool>, i: int) -> bool {
    0 <= i < p.len() && p[i]
}

/// The appliers that the latest entry for `(schema, marker)` among the first
/// `n` entries sets.
pub open spec fn find_fns(
    entries: Seq<CommandEntry>,
    n: int,
    schema: SchemaId,
    marker: Option<MarkerId>,
) -> Option<CommandFns>
    decreases n,
{
    if n <= 0 || n > entries.len() {
        None
    } else if entries[n - 1].schema == schema && entries[n - 1].marker == marker {
        Some(entries[n - 1].fns)
    } else {
        find_fns(entries, n - 1, schema, marker)
    }
}

pub open spec fn marker_fns(entries: Seq<CommandEntry>, schema: SchemaId, m: int) -> Option<
    CommandFns,
> {
    find_fns(entries, entries.len() as int, schema, Some(MarkerId { index: m as usize }))
}

/// The override of the highest-ranked marker below `k` that is present and has
/// an override for the schema.
pub open spec fn resolve_below(entries: Seq<CommandEntry>, p: Seq<bool>, schema: SchemaId, k: int) -> Option<
    CommandFns,
>
    decreases k,
{
    if k <= 0 {
        None
    } else if p[k - 1] && marker_fns(entries, schema, k - 1).is_some() {
        marker_fns(entries, schema, k - 1)
    } else {
        resolve_below(entries, p, schema, k - 1)
    }
}

/// The appliers that dispatch picks for a schema on an entity with markers `p`:
/// the override of the highest-priority present marker that has one, else the
/// schema's default, else insert/remove.
pub open spec fn resolved(entries: Seq<CommandEntry>, p: Seq<bool>, schema: SchemaId) -> CommandFns {
    match resolve_below(entries, p, schema, p.len() as int) {
        Some(f) => f,
        None => match find_fns(entries, entries.len() as int, schema, None) {
            Some(f) => f,
            None => default_command_fns(),
        },
    }
}

fn same_marker(a: Option<MarkerId>, b: Option<MarkerId>) -> (r: bool)
    ensures
        r == (a == b),
{
    match (a, b) {
        (None, None) => true,
        (Some(x), Some(y)) => x.index == y.index,
        _ => false,
    }
}

/// The table of default and per-marker appliers.
pub struct CommandTable {
    entries: Vec<CommandEntry>,
}

impl View for CommandTable {
    type V = Seq<CommandEntry>;

    closed spec fn view(&self) -> Seq<CommandEntry> {
        self.entries@
    }
}

impl CommandTable {
    pub fn new() -> (r: Self)
        ensures
            r@ == Seq::<CommandEntry>::empty(),
    {
        CommandTable { entries: Vec::new() }
    }

    /// Sets the appliers for `(schema, marker)`, replacing earlier ones.
    pub fn set(&mut self, schema: SchemaId, marker: Option<MarkerId>, fns: CommandFns)
        ensures
            final(self)@ == old(self)@.push(CommandEntry { schema, marker, fns }),
            find_fns(final(self)@, final(self)@.len() as int, schema, marker) == Some(fns),
    {
        self.entries.push(CommandEntry { schema, marker, fns });
    }

    pub fn find(&self, schema: SchemaId, marker: Option<MarkerId>) -> (r: Option<CommandFns>)
        ensures
            r == find_fns(self@, self@.len() as int, schema, marker),
    {
        let mut i: usize = self.entries.len();
        while i > 0
            invariant
                i <= self@.len(),
                find_fns(self@, self@.len() as int, schema, marker) == find_fns(
                    self@,
                    i as int,
                    schema,
                    marker,
                ),
            decreases i,
        {
            let e = self.entries[i - 1];
            if e.schema == schema && same_marker(e.marker, marker) {
                return Some(e.fns);
            }
            i = i - 1;
        }
        None
    }

    /// Dispatch for one apply: a pure function of the table, the schema and the
    /// entity's markers.
    pub fn resolve(&self, schema: SchemaId, markers: &EntityMarkers) -> (r: CommandFns)
        ensures
            r == resolved(self@, markers@, schema),
    {
        let mut k: usize = markers.len();
        while k > 0
            invariant
                k <= markers@.len(),
                resolve_below(self@, markers@, schema, markers@.len() as int) == resolve_below(
                    self@,
                    markers@,
                    schema,
                    k as int,
                ),
            decreases k,
        {
            if markers.contains(MarkerId { index: k - 1 }) {
                match self.find(schema, Some(MarkerId { index: k - 1 })) {
                    Some(f) => {
                        return f;
                    },
                    None => {},
                }
            }
            k = k - 1;
        }
        match self.find(schema, None) {
            Some(f) => f,
            None => CommandFns::default_fns(),
        }
    }
}

proof fn lemma_skip_absent(entries: Seq<CommandEntry>, p: Seq<bool>, schema: SchemaId, k: int, m: int)
    requires
        0 <= m < k <= p.len(),
        forall|j: int| m < j < k && #[trigger] p[j] ==> marker_fns(entries, schema, j).is_none(),
    ensures
        resolve_below(entries, p, schema, k) == resolve_below(entries, p, schema, m + 1),
    decreases k,
{
    if k > m + 1 {
        lemma_skip_absent(entries, p, schema, k - 1, m);
    }
}

/// Marker priority: where marker `m` is present and overrides the schema, and
/// no present marker of higher priority does, dispatch picks `m`'s override,
/// whatever lower-priority markers are present.
pub proof fn lemma_highest_present_marker_wins(
    entries: Seq<CommandEntry>,
    p: Seq<bool>,
    schema: SchemaId,
    m: int,
)
    requires
        0 <= m < p.len(),
        p[m],
        marker_fns(entries, schema, m).is_some(),
        forall|j: int| m < j < p.len() && #[trigger] p[j] ==> marker_fns(entries, schema, j).is_none(),
    ensures
        resolved(entries, p, schema) == marker_fns(entries, schema, m).unwrap(),
{
    lemma_skip_absent(entries, p, schema, p.len() as int, m);
}

/// Without a present marker that overrides the schema, dispatch picks the
/// schema's default appliers.
pub proof fn lemma_no_override_falls_back(entries: Seq<CommandEntry>, p: Seq<bool>, schema: SchemaId)
    requires
        forall|j: int| 0 <= j < p.len() && #[trigger] p[j] ==> marker_fns(entries, schema, j).is_none(),
    ensures
        resolved(entries, p, schema) == (match find_fns(entries, entries.len() as int, schema, None) {
            Some(f) => f,
            None => default_command_fns(),
        }),
{
    assert forall|k2: int| 0 <= k2 <= p.len() implies resolve_below(entries, p, schema, k2).is_none() by {
        lemma_none_below(entries, p, schema, k2);
    }
}

proof fn lemma_none_below(entries: Seq<CommandEntry>, p: Seq<bool>, schema: SchemaId, k: int)
    requires
        0 <= k <= p.len(),
        forall|j: int| 0 <= j < p.len() && #[trigger] p[j] ==> marker_fns(entries, schema, j).is_none(),
    ensures
        resolve_below(entries, p, schema, k).is_none(),
    decreases k,
{
    if k > 0 {
        lemma_none_below(entries, p, schema, k - 1);
    }
}

/// Dispatch is deterministic: equal tables and equal marker sets give the same
/// appliers, whatever was resolved before.
pub proof fn lemma_dispatch_deterministic(
    a: Seq<CommandEntry>,
    b: Seq<CommandEntry>,
    pa: Seq<bool>,
    pb: Seq<bool>,
    schema: SchemaId,
)
    requires
        a == b,
        pa == pb,
    ensures
        resolved(a, pa, schema) == resolved(b, pb, schema),
{
}

} // verus!
