//! The mapping table: two immutable lookup structures built once at startup,
//! one from key transitions to axis positions and one from physical keys to
//! virtual buttons, together with the per-event translation they induce.
use vstd::prelude::*;

use crate::errors::ConfigError;
use crate::events::{OutputEvent, PhysicalKeyEvent, EV_KEY};

verus! {

/// One directional transition: when `key` is seen with transition `key_value`,
/// the axis `axis` moves to the calibrated `position`.
#[derive(Clone, Copy, PartialEq, Eq, Structural, Debug)]
pub struct AxisMappingEntry {
    /// Physical key identifier.
    pub key: u16,
    /// Transition value this entry fires on (released, pressed, or repeat).
    pub key_value: i32,
    /// Axis the transition drives.
    pub axis: u16,
    /// Calibrated position the axis moves to.
    pub position: i32,
}

/// One button binding: the physical `key` drives the virtual button `target`.
/// Several physical keys may share a target (aliasing).
#[derive(Clone, Copy, PartialEq, Eq, Structural, Debug)]
pub struct KeyMappingEntry {
    /// Physical key identifier.
    pub key: u16,
    /// Virtual button the key is bound to.
    pub target: u16,
}

/// Whether two axis entries fire on the same (key, transition) pair.
pub open spec fn axis_key_eq(a: AxisMappingEntry, b: AxisMappingEntry) -> bool {
    a.key == b.key && a.key_value == b.key_value
}

/// No two axis entries fire on the same (key, transition) pair.
pub open spec fn axis_entries_unique(entries: Seq<AxisMappingEntry>) -> bool {
    forall|i: int, j: int|
        0 <= i < j < entries.len() ==> !axis_key_eq(#[trigger] entries[i], #[trigger] entries[j])
}

/// No two key entries are bound to the same physical key.
pub open spec fn key_entries_unique(entries: Seq<KeyMappingEntry>) -> bool {
    forall|i: int, j: int|
        0 <= i < j < entries.len() ==> (#[trigger] entries[i]).key != (#[trigger] entries[j]).key
}

/// The finite map from (key, transition) pairs to (axis, position) pairs
/// that a sequence of axis entries denotes. Later entries win, which is
/// irrelevant once the sequence is known to be duplicate-free.
pub open spec fn axis_map_of(entries: Seq<AxisMappingEntry>) -> Map<(u16, i32), (u16, i32)>
    decreases entries.len(),
{
    if entries.len() == 0 {
        Map::empty()
    } else {
        axis_map_of(entries.drop_last()).insert(
            (entries.last().key, entries.last().key_value),
            (entries.last().axis, entries.last().position),
        )
    }
}

/// The finite map from physical keys to virtual buttons that a sequence of
/// key entries denotes.
pub open spec fn key_map_of(entries: Seq<KeyMappingEntry>) -> Map<u16, u16>
    decreases entries.len(),
{
    if entries.len() == 0 {
        Map::empty()
    } else {
        key_map_of(entries.drop_last()).insert(entries.last().key, entries.last().target)
    }
}

/// The axis map contains a pair exactly when some entry fires on it.
pub proof fn lemma_axis_map_of_contains(entries: Seq<AxisMappingEntry>, key: u16, value: i32)
    ensures
        axis_map_of(entries).contains_key((key, value)) <==> (exists|i: int|
            0 <= i < entries.len() && (#[trigger] entries[i]).key == key && entries[i].key_value
                == value),
    decreases entries.len(),
{
    if entries.len() > 0 {
        let prefix = entries.drop_last();
        lemma_axis_map_of_contains(prefix, key, value);
        let last = entries.last();
        if last.key == key && last.key_value == value {
            assert(entries[entries.len() - 1].key == key);
        } else {
            if exists|i: int|
                0 <= i < entries.len() && (#[trigger] entries[i]).key == key
                    && entries[i].key_value == value {
                let i = choose|i: int|
                    0 <= i < entries.len() && (#[trigger] entries[i]).key == key
                        && entries[i].key_value == value;
                assert(i < entries.len() - 1);
                assert(prefix[i].key == key && prefix[i].key_value == value);
            }
            if exists|i: int|
                0 <= i < prefix.len() && (#[trigger] prefix[i]).key == key && prefix[i].key_value
                    == value {
                let i = choose|i: int|
                    0 <= i < prefix.len() && (#[trigger] prefix[i]).key == key
                        && prefix[i].key_value == value;
                assert(entries[i].key == key && entries[i].key_value == value);
            }
        }
    }
}

/// In a duplicate-free sequence, the axis map sends each entry's (key,
/// transition) pair to that entry's (axis, position) pair.
pub proof fn lemma_axis_map_of_value(entries: Seq<AxisMappingEntry>, i: int)
    requires
        axis_entries_unique(entries),
        0 <= i < entries.len(),
    ensures
        axis_map_of(entries).contains_key((entries[i].key, entries[i].key_value)),
        axis_map_of(entries)[(entries[i].key, entries[i].key_value)] == (
            entries[i].axis,
            entries[i].position,
        ),
    decreases entries.len(),
{
    let prefix = entries.drop_last();
    if i < entries.len() - 1 {
        assert forall|p: int, q: int| 0 <= p < q < prefix.len() implies !axis_key_eq(
            #[trigger] prefix[p],
            #[trigger] prefix[q],
        ) by {
            assert(prefix[p] == entries[p]);
            assert(prefix[q] == entries[q]);
        }
        lemma_axis_map_of_value(prefix, i);
        assert(prefix[i] == entries[i]);
        assert(!axis_key_eq(entries[i], entries[entries.len() - 1]));
    }
}

/// The key map contains a key exactly when some entry is bound to it.
pub proof fn lemma_key_map_of_contains(entries: Seq<KeyMappingEntry>, key: u16)
    ensures
        key_map_of(entries).contains_key(key) <==> (exists|i: int|
            0 <= i < entries.len() && (#[trigger] entries[i]).key == key),
    decreases entries.len(),
{
    if entries.len() > 0 {
        let prefix = entries.drop_last();
        lemma_key_map_of_contains(prefix, key);
        let last = entries.last();
        if last.key == key {
            assert(entries[entries.len() - 1].key == key);
        } else {
            if exists|i: int| 0 <= i < entries.len() && (#[trigger] entries[i]).key == key {
                let i = choose|i: int|
                    0 <= i < entries.len() && (#[trigger] entries[i]).key == key;
                assert(i < entries.len() - 1);
                assert(prefix[i].key == key);
            }
            if exists|i: int| 0 <= i < prefix.len() && (#[trigger] prefix[i]).key == key {
                let i = choose|i: int| 0 <= i < prefix.len() && (#[trigger] prefix[i]).key == key;
                assert(entries[i].key == key);
            }
        }
    }
}

/// In a duplicate-free sequence, the key map sends each entry's key to that
/// entry's target.
pub proof fn lemma_key_map_of_value(entries: Seq<KeyMappingEntry>, i: int)
    requires
        key_entries_unique(entries),
        0 <= i < entries.len(),
    ensures
        key_map_of(entries).contains_key(entries[i].key),
        key_map_of(entries)[entries[i].key] == entries[i].target,
    decreases entries.len(),
{
    let prefix = entries.drop_last();
    if i < entries.len() - 1 {
        assert forall|p: int, q: int| 0 <= p < q < prefix.len() implies (
        #[trigger] prefix[p]).key != (#[trigger] prefix[q]).key by {
            assert(prefix[p] == entries[p]);
            assert(prefix[q] == entries[q]);
        }
        lemma_key_map_of_value(prefix, i);
        assert(prefix[i] == entries[i]);
        assert(entries[i].key != entries[entries.len() - 1].key);
    }
}

/// The immutable mapping table: built once, read-only thereafter.
pub struct MappingTable {
    axis_entries: Vec<AxisMappingEntry>,
    key_entries: Vec<KeyMappingEntry>,
}

impl MappingTable {
    /// The axis entries the table was built from.
    pub closed spec fn spec_axis_entries(self) -> Seq<AxisMappingEntry> {
        self.axis_entries@
    }

    /// The key entries the table was built from.
    pub closed spec fn spec_key_entries(self) -> Seq<KeyMappingEntry> {
        self.key_entries@
    }

    /// The transition-to-axis-move map the table denotes.
    pub open spec fn axis_map(self) -> Map<(u16, i32), (u16, i32)> {
        axis_map_of(self.spec_axis_entries())
    }

    /// The key-to-button map the table denotes.
    pub open spec fn key_map(self) -> Map<u16, u16> {
        key_map_of(self.spec_key_entries())
    }

    /// Well-formedness: both entry sequences are duplicate-free, so each
    /// lookup key denotes exactly one entry.
    pub open spec fn wf(self) -> bool {
        axis_entries_unique(self.spec_axis_entries()) && key_entries_unique(
            self.spec_key_entries(),
        )
    }

    /// Builds a table from the given entries, rejecting duplicate lookup
    /// keys; on success the table denotes exactly the given entries.
    pub fn new(axis_entries: Vec<AxisMappingEntry>, key_entries: Vec<KeyMappingEntry>) -> (r:
        Result<MappingTable, ConfigError>)
        ensures
            r is Ok <==> axis_entries_unique(axis_entries@) && key_entries_unique(key_entries@),
            r matches Ok(t) ==> t.wf() && t.spec_axis_entries() == axis_entries@
                && t.spec_key_entries() == key_entries@,
            r matches Err(e) ==> (if !axis_entries_unique(axis_entries@) {
                e == ConfigError::DuplicateAxisMapping
            } else {
                e == ConfigError::DuplicateKeyMapping
            }),
    {
        if axis_entries_have_duplicate(&axis_entries) {
            return Err(ConfigError::DuplicateAxisMapping);
        }
        if key_entries_have_duplicate(&key_entries) {
            return Err(ConfigError::DuplicateKeyMapping);
        }
        Ok(MappingTable { axis_entries, key_entries })
    }

    /// Read access to the axis entries.
    pub fn axis_entries(&self) -> (r: &Vec<AxisMappingEntry>)
        ensures
            r@ == self.spec_axis_entries(),
    {
        &self.axis_entries
    }

    /// Read access to the key entries.
    pub fn key_entries(&self) -> (r: &Vec<KeyMappingEntry>)
        ensures
            r@ == self.spec_key_entries(),
    {
        &self.key_entries
    }

    /// Looks up the axis move fired by one key transition; `None` means the
    /// pair affects no axis.
    pub fn lookup_axis(&self, key: u16, value: i32) -> (r: Option<(u16, i32)>)
        requires
            self.wf(),
        ensures
            r == (if self.axis_map().contains_key((key, value)) {
                Some(self.axis_map()[(key, value)])
            } else {
                Option::<(u16, i32)>::None
            }),
    {
        let n = self.axis_entries.len();
        for i in 0..n
            invariant
                n == self.spec_axis_entries().len(),
                self.wf(),
                forall|q: int|
                    0 <= q < i ==> !((#[trigger] self.spec_axis_entries()[q]).key == key
                        && self.spec_axis_entries()[q].key_value == value),
        {
            let e = self.axis_entries[i];
            if e.key == key && e.key_value == value {
                proof {
                    lemma_axis_map_of_value(self.spec_axis_entries(), i as int);
                }
                return Some((e.axis, e.position));
            }
        }
        proof {
            lemma_axis_map_of_contains(self.spec_axis_entries(), key, value);
        }
        None
    }

    /// Looks up the virtual button bound to a physical key; `None` means the
    /// key drives no button.
    pub fn lookup_key(&self, key: u16) -> (r: Option<u16>)
        requires
            self.wf(),
        ensures
            r == (if self.key_map().contains_key(key) {
                Some(self.key_map()[key])
            } else {
                Option::<u16>::None
            }),
    {
        let n = self.key_entries.len();
        for i in 0..n
            invariant
                n == self.spec_key_entries().len(),
                self.wf(),
                forall|q: int| 0 <= q < i ==> (#[trigger] self.spec_key_entries()[q]).key != key,
        {
            let e = self.key_entries[i];
            if e.key == key {
                proof {
                    lemma_key_map_of_value(self.spec_key_entries(), i as int);
                }
                return Some(e.target);
            }
        }
        proof {
            lemma_key_map_of_contains(self.spec_key_entries(), key);
        }
        None
    }

    /// Translates one physical key transition into the sequence of device
    /// events it fires: an axis move if the (key, value) pair is in the axis
    /// map, then a button event if the key is in the key map, the transition
    /// value passed through unchanged.
    pub fn translate(&self, event: PhysicalKeyEvent) -> (out: Vec<OutputEvent>)
        requires
            self.wf(),
        ensures
            out@ == spec_translate(self.axis_map(), self.key_map(), event.key, event.value),
            out@.len() == 0 <==> !self.axis_map().contains_key((event.key, event.value))
                && !self.key_map().contains_key(event.key),
    {
        let mut out: Vec<OutputEvent> = Vec::new();
        if let Some((axis, position)) = self.lookup_axis(event.key, event.value) {
            out.push(OutputEvent::Axis { axis, position });
        }
        if let Some(target) = self.lookup_key(event.key) {
            out.push(OutputEvent::Key { key: target, value: event.value });
        }
        proof {
            assert(out@ =~= spec_translate(
                self.axis_map(),
                self.key_map(),
                event.key,
                event.value,
            ));
        }
        out
    }

    /// Translates one raw event from the physical stream: anything that is
    /// not a key transition is ignored and yields no output.
    pub fn translate_raw(&self, event_type: u16, code: u16, value: i32) -> (out: Vec<OutputEvent>)
        requires
            self.wf(),
        ensures
            out@ == (if event_type == EV_KEY {
                spec_translate(self.axis_map(), self.key_map(), code, value)
            } else {
                Seq::<OutputEvent>::empty()
            }),
    {
        if event_type == EV_KEY {
            self.translate(PhysicalKeyEvent { key: code, value })
        } else {
            Vec::new()
        }
    }
}

/// The event sequence one key transition fires against the two maps: the
/// axis move, if any, followed by the button event, if any.
pub open spec fn spec_translate(
    axis_map: Map<(u16, i32), (u16, i32)>,
    key_map: Map<u16, u16>,
    key: u16,
    value: i32,
) -> Seq<OutputEvent> {
    let axis_part = if axis_map.contains_key((key, value)) {
        seq![
            OutputEvent::Axis {
                axis: axis_map[(key, value)].0,
                position: axis_map[(key, value)].1,
            },
        ]
    } else {
        Seq::<OutputEvent>::empty()
    };
    let key_part = if key_map.contains_key(key) {
        seq![OutputEvent::Key { key: key_map[key], value: value }]
    } else {
        Seq::<OutputEvent>::empty()
    };
    axis_part + key_part
}

/// Law: a (key, value) pair present in the axis map yields exactly one axis
/// event, carrying the configured axis identifier and position, as the first
/// element; a pair that is absent yields no axis event at all.
pub proof fn lemma_translate_axis_events(
    axis_map: Map<(u16, i32), (u16, i32)>,
    key_map: Map<u16, u16>,
    key: u16,
    value: i32,
)
    ensures
        axis_map.contains_key((key, value)) ==> {
            let out = spec_translate(axis_map, key_map, key, value);
            &&& out.len() >= 1
            &&& out[0] == (OutputEvent::Axis {
                axis: axis_map[(key, value)].0,
                position: axis_map[(key, value)].1,
            })
            &&& forall|i: int| 1 <= i < out.len() ==> !(#[trigger] out[i] is Axis)
        },
        !axis_map.contains_key((key, value)) ==> (forall|i: int|
            0 <= i < spec_translate(axis_map, key_map, key, value).len() ==> !(#[trigger] spec_translate(
                axis_map,
                key_map,
                key,
                value,
            )[i] is Axis)),
{
}

/// Law: a key present in the key map yields exactly one button event,
/// carrying the mapped virtual button and the input value unchanged, as the
/// last element; a key that is absent yields no button event at all.
pub proof fn lemma_translate_key_events(
    axis_map: Map<(u16, i32), (u16, i32)>,
    key_map: Map<u16, u16>,
    key: u16,
    value: i32,
)
    ensures
        key_map.contains_key(key) ==> {
            let out = spec_translate(axis_map, key_map, key, value);
            &&& out.len() >= 1
            &&& out[out.len() - 1] == (OutputEvent::Key { key: key_map[key], value: value })
            &&& forall|i: int| 0 <= i < out.len() - 1 ==> !(#[trigger] out[i] is Key)
        },
        !key_map.contains_key(key) ==> (forall|i: int|
            0 <= i < spec_translate(axis_map, key_map, key, value).len() ==> !(#[trigger] spec_translate(
                axis_map,
                key_map,
                key,
                value,
            )[i] is Key)),
{
}

/// Law: a key transition absent from both maps yields an empty output
/// sequence, and one present in either map does not.
pub proof fn lemma_translate_unmapped(
    axis_map: Map<(u16, i32), (u16, i32)>,
    key_map: Map<u16, u16>,
    key: u16,
    value: i32,
)
    ensures
        spec_translate(axis_map, key_map, key, value).len() == 0 <==> !axis_map.contains_key(
            (key, value),
        ) && !key_map.contains_key(key),
{
}

/// Runtime check for a duplicated (key, transition) pair among axis entries.
fn axis_entries_have_duplicate(entries: &Vec<AxisMappingEntry>) -> (dup: bool)
    ensures
        dup == !axis_entries_unique(entries@),
{
    let n = entries.len();
    for i in 0..n
        invariant
            n == entries@.len(),
            forall|p: int, q: int|
                0 <= p < q < i ==> !axis_key_eq(#[trigger] entries@[p], #[trigger] entries@[q]),
    {
        for j in 0..i
            invariant
                n == entries@.len(),
                i < n,
                forall|q: int|
                    0 <= q < j ==> !axis_key_eq(#[trigger] entries@[q], entries@[i as int]),
        {
            if entries[j].key == entries[i].key && entries[j].key_value == entries[i].key_value {
                assert(axis_key_eq(entries@[j as int], entries@[i as int]));
                return true;
            }
        }
    }
    false
}

/// Runtime check for a duplicated physical key among key entries.
fn key_entries_have_duplicate(entries: &Vec<KeyMappingEntry>) -> (dup: bool)
    ensures
        dup == !key_entries_unique(entries@),
{
    let n = entries.len();
    for i in 0..n
        invariant
            n == entries@.len(),
            forall|p: int, q: int|
                0 <= p < q < i ==> (#[trigger] entries@[p]).key != (#[trigger] entries@[q]).key,
    {
        for j in 0..i
            invariant
                n == entries@.len(),
                i < n,
                forall|q: int| 0 <= q < j ==> (#[trigger] entries@[q]).key != entries@[i as int].key,
        {
            if entries[j].key == entries[i].key {
                return true;
            }
        }
    }
    false
}

} // verus!
