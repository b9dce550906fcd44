//! The virtual device model: identity, axis calibration, the declared
//! capability set, and the validated configuration that ties them to the
//! mapping table. The OS-level device is created from a configuration that
//! passed validation; everything the translator may emit then lies within
//! the declared capabilities.
use vstd::prelude::*;

use crate::errors::ConfigError;
use crate::events::{OutputEvent, RELEASED};
use crate::mapping::{
    axis_entries_unique, key_entries_unique, spec_translate, AxisMappingEntry, KeyMappingEntry,
    MappingTable,
};

verus! {

/// Calibration of one absolute axis, declared once at device creation.
#[derive(Clone, Copy, PartialEq, Eq, Structural, Debug)]
pub struct AxisCapability {
    /// Axis identifier.
    pub axis: u16,
    /// Neutral (center) position the axis rests at.
    pub neutral: i32,
    /// Lowest reportable position.
    pub minimum: i32,
    /// Highest reportable position.
    pub maximum: i32,
    /// Noise threshold.
    pub fuzz: i32,
    /// Dead zone around the neutral position.
    pub flat: i32,
    /// Position resolution.
    pub resolution: i32,
}

/// Cosmetic identification of the virtual device; does not affect
/// translation.
#[derive(Clone, Debug)]
pub struct VirtualDeviceIdentity {
    /// Display name.
    pub name: String,
    /// Bus type the device claims to sit on.
    pub bus_type: u16,
    /// Vendor identifier.
    pub vendor: u16,
    /// Product identifier.
    pub product: u16,
    /// Version number.
    pub version: u16,
}

/// Every capability has its minimum strictly below its maximum.
pub open spec fn ranges_valid(axes: Seq<AxisCapability>) -> bool {
    forall|i: int| 0 <= i < axes.len() ==> (#[trigger] axes[i]).minimum < axes[i].maximum
}

/// Every capability's neutral position lies within its range.
pub open spec fn neutrals_valid(axes: Seq<AxisCapability>) -> bool {
    forall|i: int|
        0 <= i < axes.len() ==> (#[trigger] axes[i]).minimum <= axes[i].neutral <= axes[i].maximum
}

/// No two capabilities declare the same axis identifier.
pub open spec fn axes_unique(axes: Seq<AxisCapability>) -> bool {
    forall|i: int, j: int|
        0 <= i < j < axes.len() ==> (#[trigger] axes[i]).axis != (#[trigger] axes[j]).axis
}

/// Some capability declares the given axis.
pub open spec fn axis_declared(axes: Seq<AxisCapability>, axis: u16) -> bool {
    exists|j: int| 0 <= j < axes.len() && (#[trigger] axes[j]).axis == axis
}

/// Every axis a mapping entry drives is declared as a capability.
pub open spec fn axis_targets_declared(
    entries: Seq<AxisMappingEntry>,
    axes: Seq<AxisCapability>,
) -> bool {
    forall|i: int| 0 <= i < entries.len() ==> axis_declared(axes, (#[trigger] entries[i]).axis)
}

/// Every mapped position lies within the calibrated range of its axis.
pub open spec fn positions_in_range(
    entries: Seq<AxisMappingEntry>,
    axes: Seq<AxisCapability>,
) -> bool {
    forall|i: int, j: int|
        0 <= i < entries.len() && 0 <= j < axes.len() && (#[trigger] entries[i]).axis == (
        #[trigger] axes[j]).axis ==> axes[j].minimum <= entries[i].position <= axes[j].maximum
}

/// Every release entry returns its axis to the neutral position, so an axis
/// never sticks off-center after key-up.
pub open spec fn releases_neutral(
    entries: Seq<AxisMappingEntry>,
    axes: Seq<AxisCapability>,
) -> bool {
    forall|i: int, j: int|
        0 <= i < entries.len() && 0 <= j < axes.len() && (#[trigger] entries[i]).key_value
            == RELEASED && entries[i].axis == (#[trigger] axes[j]).axis ==> entries[i].position
            == axes[j].neutral
}

/// Every virtual button a key entry targets is declared as a capability.
pub open spec fn key_targets_declared(entries: Seq<KeyMappingEntry>, buttons: Seq<u16>) -> bool {
    forall|i: int| 0 <= i < entries.len() ==> buttons.contains((#[trigger] entries[i]).target)
}

/// The first reason, if any, to reject a requested configuration; checks run
/// in a fixed order and the first failure names the error.
pub open spec fn spec_config_error(
    buttons: Seq<u16>,
    axes: Seq<AxisCapability>,
    axis_entries: Seq<AxisMappingEntry>,
    key_entries: Seq<KeyMappingEntry>,
) -> Option<ConfigError> {
    if !axis_entries_unique(axis_entries) {
        Some(ConfigError::DuplicateAxisMapping)
    } else if !key_entries_unique(key_entries) {
        Some(ConfigError::DuplicateKeyMapping)
    } else if !ranges_valid(axes) {
        Some(ConfigError::InvalidAxisRange)
    } else if !neutrals_valid(axes) {
        Some(ConfigError::NeutralOutOfRange)
    } else if !axes_unique(axes) {
        Some(ConfigError::DuplicateAxisCapability)
    } else if !axis_targets_declared(axis_entries, axes) {
        Some(ConfigError::UnmappedAxis)
    } else if !positions_in_range(axis_entries, axes) {
        Some(ConfigError::PositionOutOfRange)
    } else if !releases_neutral(axis_entries, axes) {
        Some(ConfigError::ReleaseNotNeutral)
    } else if !key_targets_declared(key_entries, buttons) {
        Some(ConfigError::UnknownButtonTarget)
    } else {
        None
    }
}

/// A validated gamepad configuration: identity, declared buttons and axes,
/// and the mapping table, with every cross-table invariant established at
/// construction.
pub struct GamepadConfig {
    identity: VirtualDeviceIdentity,
    buttons: Vec<u16>,
    axes: Vec<AxisCapability>,
    mapping: MappingTable,
}

impl GamepadConfig {
    /// The identity block.
    pub closed spec fn spec_identity(self) -> VirtualDeviceIdentity {
        self.identity
    }

    /// The declared button set.
    pub closed spec fn spec_buttons(self) -> Seq<u16> {
        self.buttons@
    }

    /// The declared axis capabilities.
    pub closed spec fn spec_axes(self) -> Seq<AxisCapability> {
        self.axes@
    }

    /// The mapping table.
    pub closed spec fn spec_mapping(self) -> MappingTable {
        self.mapping
    }

    /// Well-formedness: the mapping table is duplicate-free, every
    /// capability is internally valid and declared once, and every mapping
    /// entry stays within the declared capabilities, releases landing on the
    /// neutral position.
    pub open spec fn wf(self) -> bool {
        &&& self.spec_mapping().wf()
        &&& ranges_valid(self.spec_axes())
        &&& neutrals_valid(self.spec_axes())
        &&& axes_unique(self.spec_axes())
        &&& axis_targets_declared(self.spec_mapping().spec_axis_entries(), self.spec_axes())
        &&& positions_in_range(self.spec_mapping().spec_axis_entries(), self.spec_axes())
        &&& releases_neutral(self.spec_mapping().spec_axis_entries(), self.spec_axes())
        &&& key_targets_declared(self.spec_mapping().spec_key_entries(), self.spec_buttons())
    }

    /// Validates and assembles a configuration. Success is owed exactly when
    /// no check fails; on failure the error names the first failed check.
    pub fn new(
        identity: VirtualDeviceIdentity,
        buttons: Vec<u16>,
        axes: Vec<AxisCapability>,
        axis_entries: Vec<AxisMappingEntry>,
        key_entries: Vec<KeyMappingEntry>,
    ) -> (r: Result<GamepadConfig, ConfigError>)
        ensures
            r is Ok <==> spec_config_error(buttons@, axes@, axis_entries@, key_entries@) is None,
            r matches Err(e) ==> Some(e) == spec_config_error(
                buttons@,
                axes@,
                axis_entries@,
                key_entries@,
            ),
            r matches Ok(c) ==> {
                &&& c.wf()
                &&& c.spec_identity() == identity
                &&& c.spec_buttons() == buttons@
                &&& c.spec_axes() == axes@
                &&& c.spec_mapping().spec_axis_entries() == axis_entries@
                &&& c.spec_mapping().spec_key_entries() == key_entries@
            },
    {
        let mapping = match MappingTable::new(axis_entries, key_entries) {
            Ok(t) => t,
            Err(e) => {
                return Err(e);
            },
        };
        if !check_ranges(&axes) {
            return Err(ConfigError::InvalidAxisRange);
        }
        if !check_neutrals(&axes) {
            return Err(ConfigError::NeutralOutOfRange);
        }
        if axes_have_duplicate(&axes) {
            return Err(ConfigError::DuplicateAxisCapability);
        }
        if !check_axis_targets(mapping.axis_entries(), &axes) {
            return Err(ConfigError::UnmappedAxis);
        }
        if !check_positions(mapping.axis_entries(), &axes) {
            return Err(ConfigError::PositionOutOfRange);
        }
        if !check_release_neutral(mapping.axis_entries(), &axes) {
            return Err(ConfigError::ReleaseNotNeutral);
        }
        if !check_key_targets(mapping.key_entries(), &buttons) {
            return Err(ConfigError::UnknownButtonTarget);
        }
        Ok(GamepadConfig { identity, buttons, axes, mapping })
    }

    /// Read access to the identity block.
    pub fn identity(&self) -> (r: &VirtualDeviceIdentity)
        ensures
            *r == self.spec_identity(),
    {
        &self.identity
    }

    /// Read access to the declared button set.
    pub fn buttons(&self) -> (r: &Vec<u16>)
        ensures
            r@ == self.spec_buttons(),
    {
        &self.buttons
    }

    /// Read access to the declared axis capabilities.
    pub fn axes(&self) -> (r: &Vec<AxisCapability>)
        ensures
            r@ == self.spec_axes(),
    {
        &self.axes
    }

    /// Read access to the mapping table.
    pub fn mapping(&self) -> (r: &MappingTable)
        ensures
            *r == self.spec_mapping(),
    {
        &self.mapping
    }
}

/// Law: releasing a directional key bound to an axis yields that axis's
/// configured neutral position as the first output event, whatever position
/// the axis held before; `j` names the capability that declares the axis.
pub proof fn lemma_release_returns_to_neutral(c: GamepadConfig, key: u16, j: int)
    requires
        c.wf(),
        c.spec_mapping().axis_map().contains_key((key, RELEASED)),
        0 <= j < c.spec_axes().len(),
        c.spec_axes()[j].axis == c.spec_mapping().axis_map()[(key, RELEASED)].0,
    ensures
        c.spec_mapping().axis_map()[(key, RELEASED)].1 == c.spec_axes()[j].neutral,
        spec_translate(c.spec_mapping().axis_map(), c.spec_mapping().key_map(), key, RELEASED)[0]
            == (OutputEvent::Axis {
            axis: c.spec_axes()[j].axis,
            position: c.spec_axes()[j].neutral,
        }),
{
    let entries = c.spec_mapping().spec_axis_entries();
    crate::mapping::lemma_axis_map_of_contains(entries, key, RELEASED);
    let i = choose|i: int|
        0 <= i < entries.len() && (#[trigger] entries[i]).key == key && entries[i].key_value
            == RELEASED;
    crate::mapping::lemma_axis_map_of_value(entries, i);
    assert(entries[i].axis == c.spec_axes()[j].axis);
    assert(entries[i].position == c.spec_axes()[j].neutral);
}

/// Runtime check that every capability's minimum is strictly below its
/// maximum.
fn check_ranges(axes: &Vec<AxisCapability>) -> (b: bool)
    ensures
        b == ranges_valid(axes@),
{
    let n = axes.len();
    for i in 0..n
        invariant
            n == axes@.len(),
            forall|q: int| 0 <= q < i ==> (#[trigger] axes@[q]).minimum < axes@[q].maximum,
    {
        if !(axes[i].minimum < axes[i].maximum) {
            return false;
        }
    }
    true
}

/// Runtime check that every capability's neutral position lies within its
/// range.
fn check_neutrals(axes: &Vec<AxisCapability>) -> (b: bool)
    ensures
        b == neutrals_valid(axes@),
{
    let n = axes.len();
    for i in 0..n
        invariant
            n == axes@.len(),
            forall|q: int|
                0 <= q < i ==> (#[trigger] axes@[q]).minimum <= axes@[q].neutral
                    <= axes@[q].maximum,
    {
        if !(axes[i].minimum <= axes[i].neutral && axes[i].neutral <= axes[i].maximum) {
            return false;
        }
    }
    true
}

/// Runtime check for a duplicated axis identifier among capabilities.
fn axes_have_duplicate(axes: &Vec<AxisCapability>) -> (dup: bool)
    ensures
        dup == !axes_unique(axes@),
{
    let n = axes.len();
    for i in 0..n
        invariant
            n == axes@.len(),
            forall|p: int, q: int|
                0 <= p < q < i ==> (#[trigger] axes@[p]).axis != (#[trigger] axes@[q]).axis,
    {
        for j in 0..i
            invariant
                n == axes@.len(),
                i < n,
                forall|q: int| 0 <= q < j ==> (#[trigger] axes@[q]).axis != axes@[i as int].axis,
        {
            if axes[j].axis == axes[i].axis {
                return true;
            }
        }
    }
    false
}

/// Finds the capability that declares the given axis, if any.
fn find_axis(axes: &Vec<AxisCapability>, axis: u16) -> (r: Option<usize>)
    ensures
        r matches Some(j) ==> j < axes@.len() && axes@[j as int].axis == axis,
        r is None ==> !axis_declared(axes@, axis),
{
    let n = axes.len();
    for j in 0..n
        invariant
            n == axes@.len(),
            forall|q: int| 0 <= q < j ==> (#[trigger] axes@[q]).axis != axis,
    {
        if axes[j].axis == axis {
            return Some(j);
        }
    }
    None
}

/// Runtime check that every axis a mapping entry drives is declared.
fn check_axis_targets(entries: &Vec<AxisMappingEntry>, axes: &Vec<AxisCapability>) -> (b: bool)
    ensures
        b == axis_targets_declared(entries@, axes@),
{
    let n = entries.len();
    for i in 0..n
        invariant
            n == entries@.len(),
            forall|q: int| 0 <= q < i ==> axis_declared(axes@, (#[trigger] entries@[q]).axis),
    {
        if find_axis(axes, entries[i].axis).is_none() {
            return false;
        }
    }
    true
}

/// Runtime check that every mapped position lies within the range of its
/// axis; capabilities must already be duplicate-free.
fn check_positions(entries: &Vec<AxisMappingEntry>, axes: &Vec<AxisCapability>) -> (b: bool)
    requires
        axes_unique(axes@),
    ensures
        b == positions_in_range(entries@, axes@),
{
    let n = entries.len();
    for i in 0..n
        invariant
            n == entries@.len(),
            axes_unique(axes@),
            forall|p: int, q: int|
                0 <= p < i && 0 <= q < axes@.len() && (#[trigger] entries@[p]).axis == (
                #[trigger] axes@[q]).axis ==> axes@[q].minimum <= entries@[p].position
                    <= axes@[q].maximum,
    {
        let e = entries[i];
        match find_axis(axes, e.axis) {
            None => {
            },
            Some(j) => {
                if !(axes[j].minimum <= e.position && e.position <= axes[j].maximum) {
                    return false;
                }
                proof {
                    assert forall|q: int|
                        0 <= q < axes@.len() && entries@[i as int].axis == (
                        #[trigger] axes@[q]).axis implies axes@[q].minimum
                        <= entries@[i as int].position <= axes@[q].maximum by {
                        if q != j {
                            assert(axes@[q].axis != axes@[j as int].axis);
                        }
                    }
                }
            },
        }
    }
    true
}

/// Runtime check that every release entry lands on its axis's neutral
/// position; capabilities must already be duplicate-free.
fn check_release_neutral(entries: &Vec<AxisMappingEntry>, axes: &Vec<AxisCapability>) -> (b: bool)
    requires
        axes_unique(axes@),
    ensures
        b == releases_neutral(entries@, axes@),
{
    let n = entries.len();
    for i in 0..n
        invariant
            n == entries@.len(),
            axes_unique(axes@),
            forall|p: int, q: int|
                0 <= p < i && 0 <= q < axes@.len() && (#[trigger] entries@[p]).key_value == RELEASED
                    && entries@[p].axis == (#[trigger] axes@[q]).axis ==> entries@[p].position
                    == axes@[q].neutral,
    {
        let e = entries[i];
        if e.key_value == RELEASED {
            match find_axis(axes, e.axis) {
                None => {
                },
                Some(j) => {
                    if e.position != axes[j].neutral {
                        return false;
                    }
                    proof {
                        assert forall|q: int|
                            0 <= q < axes@.len() && entries@[i as int].axis == (
                            #[trigger] axes@[q]).axis implies entries@[i as int].position
                            == axes@[q].neutral by {
                            if q != j {
                                assert(axes@[q].axis != axes@[j as int].axis);
                            }
                        }
                    }
                },
            }
        }
    }
    true
}

/// Whether the button list contains the given code.
fn buttons_contain(buttons: &Vec<u16>, target: u16) -> (b: bool)
    ensures
        b == buttons@.contains(target),
{
    let n = buttons.len();
    for j in 0..n
        invariant
            n == buttons@.len(),
            forall|q: int| 0 <= q < j ==> buttons@[q] != target,
    {
        if buttons[j] == target {
            return true;
        }
    }
    false
}

/// Runtime check that every key entry targets a declared button.
fn check_key_targets(entries: &Vec<KeyMappingEntry>, buttons: &Vec<u16>) -> (b: bool)
    ensures
        b == key_targets_declared(entries@, buttons@),
{
    let n = entries.len();
    for i in 0..n
        invariant
            n == entries@.len(),
            forall|q: int| 0 <= q < i ==> buttons@.contains((#[trigger] entries@[q]).target),
    {
        if !buttons_contain(buttons, entries[i].target) {
            return false;
        }
    }
    true
}

} // verus!
