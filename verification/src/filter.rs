//! Selection of interesting input devices: an explicit name list, or an
//! automatic keyboard/trackpad heuristic over device capabilities.

use vstd::prelude::*;

use crate::config::Config;

verus! {

/// The capability bits of an input device that the interest heuristic reads.
/// The binary fills this in from the device's kernel queries.
#[derive(Clone, Copy, PartialEq, Eq, Structural, Debug)]
pub struct DeviceCaps {
    /// The device supports automatic key repeat (keyboards do).
    pub supports_key_repeat: bool,
    /// The device reports a touch-button capability.
    pub has_touch_button: bool,
    /// The device declares the "direct pointing" property, as touchscreens
    /// and drawing tablets do and trackpads do not.
    pub has_direct_pointing: bool,
}

/// The automatic interest heuristic: keyboards are recognised by key
/// auto-repeat; trackpads by a touch button without direct pointing.
pub open spec fn spec_keyboard_or_trackpad(caps: DeviceCaps) -> bool {
    caps.supports_key_repeat || (caps.has_touch_button && !caps.has_direct_pointing)
}

/// Whether a device with these capabilities looks like a keyboard or a
/// trackpad.
pub fn is_keyboard_or_trackpad(caps: &DeviceCaps) -> (r: bool)
    ensures
        r == spec_keyboard_or_trackpad(*caps),
{
    if caps.supports_key_repeat {
        return true;
    }
    caps.has_touch_button && !caps.has_direct_pointing
}

/// Decides which input devices' activity keeps the backlight lit.
#[derive(Clone)]
pub enum DeviceFilter {
    /// Exactly the devices whose name stands in this list.
    Names(Vec<String>),
    /// The automatic keyboard/trackpad heuristic.
    Auto,
}

/// What a filter accepts: a device is interesting to `Names` when its name
/// stands in the list, and to `Auto` when the heuristic accepts its
/// capabilities.
pub open spec fn spec_matches(filter: DeviceFilter, name: Seq<char>, caps: DeviceCaps) -> bool {
    match filter {
        DeviceFilter::Names(names) => exists|i: int| 0 <= i < names@.len() && names@[i]@ == name,
        DeviceFilter::Auto => spec_keyboard_or_trackpad(caps),
    }
}

impl DeviceFilter {
    /// A filter that accepts exactly the named devices.
    pub fn from_names(names: Vec<String>) -> (r: Self)
        ensures
            r == DeviceFilter::Names(names),
    {
        DeviceFilter::Names(names)
    }

    /// Whether a device with this name and these capabilities is interesting.
    pub fn matches(&self, name: &String, caps: &DeviceCaps) -> (r: bool)
        ensures
            r == spec_matches(*self, name@, *caps),
    {
        match self {
            DeviceFilter::Names(names) => contains_name(names, name),
            DeviceFilter::Auto => is_keyboard_or_trackpad(caps),
        }
    }
}

/// Exact membership of a name in a list of names.
fn contains_name(names: &Vec<String>, name: &String) -> (r: bool)
    ensures
        r == exists|i: int| 0 <= i < names@.len() && names@[i]@ == name@,
{
    let mut i: usize = 0;
    while i < names.len()
        invariant
            i <= names.len(),
            forall|j: int| 0 <= j < i ==> names@[j]@ != name@,
        decreases names.len() - i,
    {
        if names[i].eq(name) {
            return true;
        }
        i += 1;
    }
    false
}

/// The filter the configuration asks for: automatic detection when no input
/// device is named, otherwise exactly the named devices.
pub fn filter_from_config(config: &Config) -> (r: DeviceFilter)
    ensures
        config.inputs@.len() == 0 ==> r == DeviceFilter::Auto,
        config.inputs@.len() > 0 ==> (r matches DeviceFilter::Names(ns) && ns@.len()
            == config.inputs@.len() && forall|i: int|
            0 <= i < ns@.len() ==> ns@[i]@ == config.inputs@[i].name@),
{
    if config.inputs.len() == 0 {
        return DeviceFilter::Auto;
    }
    let n = config.inputs.len();
    let mut names: Vec<String> = Vec::new();
    let mut i: usize = 0;
    while i < n
        invariant
            i <= n,
            n == config.inputs@.len(),
            names@.len() == i,
            forall|j: int| 0 <= j < i ==> names@[j]@ == config.inputs@[j].name@,
        decreases n - i,
    {
        names.push(config.inputs[i].name.clone());
        i += 1;
    }
    DeviceFilter::Names(names)
}

/// The automatic filter in full: a key-repeat-capable device is interesting;
/// a touch-button device without direct pointing is interesting; a
/// touch-button device with direct pointing is not (unless it also repeats
/// keys); a device with neither capability is not.
pub proof fn lemma_auto_filter(name: Seq<char>, caps: DeviceCaps)
    ensures
        caps.supports_key_repeat ==> spec_matches(DeviceFilter::Auto, name, caps),
        caps.has_touch_button && !caps.has_direct_pointing ==> spec_matches(
            DeviceFilter::Auto,
            name,
            caps,
        ),
        !caps.supports_key_repeat && caps.has_touch_button && caps.has_direct_pointing
            ==> !spec_matches(DeviceFilter::Auto, name, caps),
        !caps.supports_key_repeat && !caps.has_touch_button ==> !spec_matches(
            DeviceFilter::Auto,
            name,
            caps,
        ),
{
}

} // verus!
