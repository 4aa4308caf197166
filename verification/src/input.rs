//! Values of the runtime's action-based input: the handles that it gives out
//! for names, and what the binding prepares before it asks for them.

use crate::c_string::{nul_free, with_nul};
use crate::errors::{EVRInputError, InputErrorCode};
use crate::TrackedDeviceIndex;
use vstd::prelude::*;
use vstd::std_specs::convert::FromSpecImpl;
use vstd::string::StringSliceAdditionalSpecFns;

verus! {

/// The runtime's handle for a set of actions.
#[derive(Debug, PartialEq, Eq, Clone, Copy, Structural)]
pub struct ActionSetHandle(pub u64);

/// The runtime's handle for one action.
#[derive(Debug, PartialEq, Eq, Clone, Copy, Structural)]
pub struct ActionHandle(u64);

/// The runtime's handle for a source of input: a device, or a part of one.
#[derive(Debug, PartialEq, Eq, Clone, Copy, Structural)]
pub struct InputValueHandle(pub u64);

impl View for ActionHandle {
    type V = u64;

    /// The handle as the runtime numbers it.
    closed spec fn view(&self) -> u64 {
        self.0
    }
}

impl From<u64> for ActionSetHandle {
    fn from(handle: u64) -> (r: Self) {
        Self(handle)
    }
}

impl FromSpecImpl<u64> for ActionSetHandle {
    open spec fn obeys_from_spec() -> bool {
        true
    }

    open spec fn from_spec(handle: u64) -> Self {
        ActionSetHandle(handle)
    }
}

impl From<ActionSetHandle> for u64 {
    fn from(handle: ActionSetHandle) -> (r: Self) {
        handle.0
    }
}

impl FromSpecImpl<ActionSetHandle> for u64 {
    open spec fn obeys_from_spec() -> bool {
        true
    }

    open spec fn from_spec(handle: ActionSetHandle) -> Self {
        handle.0
    }
}

impl From<u64> for ActionHandle {
    fn from(handle: u64) -> (r: Self)
        ensures
            r@ == handle,
    {
        Self(handle)
    }
}

impl FromSpecImpl<u64> for ActionHandle {
    open spec fn obeys_from_spec() -> bool {
        true
    }

    closed spec fn from_spec(handle: u64) -> Self {
        ActionHandle(handle)
    }
}

impl From<ActionHandle> for u64 {
    fn from(handle: ActionHandle) -> (r: Self) {
        handle.0
    }
}

impl FromSpecImpl<ActionHandle> for u64 {
    open spec fn obeys_from_spec() -> bool {
        true
    }

    open spec fn from_spec(handle: ActionHandle) -> Self {
        handle@
    }
}

impl From<u64> for InputValueHandle {
    fn from(handle: u64) -> (r: Self) {
        Self(handle)
    }
}

impl FromSpecImpl<u64> for InputValueHandle {
    open spec fn obeys_from_spec() -> bool {
        true
    }

    open spec fn from_spec(handle: u64) -> Self {
        InputValueHandle(handle)
    }
}

impl From<InputValueHandle> for u64 {
    fn from(handle: InputValueHandle) -> (r: Self) {
        handle.0
    }
}

impl FromSpecImpl<InputValueHandle> for u64 {
    open spec fn obeys_from_spec() -> bool {
        true
    }

    open spec fn from_spec(handle: InputValueHandle) -> Self {
        handle.0
    }
}

/// A set of actions that is to take part in the next update, as the runtime
/// takes it.
#[derive(Debug, PartialEq, Eq, Clone, Copy, Structural)]
pub struct ActiveActionSet {
    /// The set of actions.
    pub action_set: ActionSetHandle,
    /// The one device that the set is bound to, or the null handle for all.
    pub restricted_to_device: InputValueHandle,
    /// A second set that is active beside the first on the other devices.
    pub secondary_action_set: ActionSetHandle,
    /// Which set wins where two sets bind the same input: the higher one.
    pub priority: i32,
}

/// Where an input comes from, as the runtime describes it.
#[derive(Debug, PartialEq, Eq, Clone, Copy)]
pub struct OriginInfo {
    /// The device that the input belongs to.
    pub device_path: InputValueHandle,
    /// The place of that device in the runtime's device table.
    pub tracked_device_index: TrackedDeviceIndex,
    /// The part of the device's render model that shows the input: a string
    /// with its terminator, in a buffer of fixed size.
    pub render_model_component_name: [u8; 128],
}

/// A part of the name of an input source that the runtime can spell out.
#[derive(Debug, PartialEq, Eq, Clone, Copy, Structural)]
pub enum InputString {
    Hand,
    ControllerType,
    InputSource,
}

impl InputString {
    /// The bit that asks the runtime for this part: the parts are numbered
    /// from the least significant bit in the order of their declaration.
    pub open spec fn mask(self) -> int {
        match self {
            InputString::Hand => 1,
            InputString::ControllerType => 2,
            InputString::InputSource => 4,
        }
    }
}

/// The bits that ask for the parts in `parts` and for no other: each part
/// counts once, however often it is named.
pub open spec fn bits_of(parts: Seq<InputString>) -> int {
    (if parts.contains(InputString::Hand) {
        InputString::Hand.mask()
    } else {
        0
    }) + (if parts.contains(InputString::ControllerType) {
        InputString::ControllerType.mask()
    } else {
        0
    }) + (if parts.contains(InputString::InputSource) {
        InputString::InputSource.mask()
    } else {
        0
    })
}

/// A sequence with one element more holds that element and what it held
/// before.
proof fn lemma_push_contains(parts: Seq<InputString>, last: InputString, part: InputString)
    ensures
        parts.push(last).contains(part) <==> parts.contains(part) || part == last,
{
    let longer = parts.push(last);
    if parts.contains(part) {
        let j = choose|j: int| 0 <= j < parts.len() && parts[j] == part;
        assert(longer[j] == part);
    }
    if part == last {
        assert(longer[parts.len() as int] == part);
    }
}

/// The bits that ask the runtime for the parts of a name in `parts`.
pub fn string_bits(parts: &[InputString]) -> (bits: i32)
    ensures
        bits == bits_of(parts@),
{
    let mut hand = false;
    let mut controller_type = false;
    let mut input_source = false;
    let mut i: usize = 0;
    while i < parts.len()
        invariant
            i <= parts@.len(),
            hand == parts@.take(i as int).contains(InputString::Hand),
            controller_type == parts@.take(i as int).contains(InputString::ControllerType),
            input_source == parts@.take(i as int).contains(InputString::InputSource),
        decreases parts@.len() - i,
    {
        proof {
            let before = parts@.take(i as int);
            assert(parts@.take(i + 1) =~= before.push(parts@[i as int]));
            lemma_push_contains(before, parts@[i as int], InputString::Hand);
            lemma_push_contains(before, parts@[i as int], InputString::ControllerType);
            lemma_push_contains(before, parts@[i as int], InputString::InputSource);
        }
        match parts[i] {
            InputString::Hand => {
                hand = true;
            },
            InputString::ControllerType => {
                controller_type = true;
            },
            InputString::InputSource => {
                input_source = true;
            },
        }
        i += 1;
    }
    assert(parts@.take(i as int) =~= parts@);
    let mut bits: i32 = 0;
    if hand {
        bits += 1;
    }
    if controller_type {
        bits += 2;
    }
    if input_source {
        bits += 4;
    }
    bits
}

/// A name as the runtime reads it: the bytes of the name, then a NUL. A name
/// that holds a NUL is refused as an invalid parameter: the runtime would
/// read another name.
pub fn c_name(name: &str) -> (r: Result<Vec<u8>, EVRInputError>)
    ensures
        r is Ok <==> nul_free(name.spec_bytes()),
        r matches Ok(bytes) ==> bytes@ == name.spec_bytes().push(0),
        r matches Err(e) ==> e@ == InputErrorCode::InvalidParam,
{
    match with_nul(name.as_bytes()) {
        Some(bytes) => Ok(bytes),
        None => Err(EVRInputError::from(InputErrorCode::InvalidParam)),
    }
}

/// The handle that tells the runtime which set of actions is meant: the null
/// handle where none is named.
pub fn action_set_or_null(action_set: Option<ActionSetHandle>) -> (handle: u64)
    ensures
        handle == (match action_set {
            Some(set) => set.0,
            None => 0,
        }),
{
    match action_set {
        Some(set) => set.0,
        None => 0,
    }
}

/// The entries that the runtime reports to have filled in: the first `count`
/// of `entries`, and all of them where it reports more than there are.
pub fn reported<T>(entries: Vec<T>, count: u32) -> (r: Vec<T>)
    ensures
        r@ == (if count <= entries@.len() {
            entries@.take(count as int)
        } else {
            entries@
        }),
{
    let mut entries = entries;
    entries.truncate(count as usize);
    entries
}

} // verus!
