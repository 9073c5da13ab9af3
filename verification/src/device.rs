//! Device enumerator: builds the list of available input devices.
//!
//! The host audio subsystem is queried outside this crate; it hands over
//! the name of every discoverable input device (or nothing, where a name
//! cannot be read) together with the name of the current default input
//! device. A device whose name cannot be read is silently skipped:
//! partial results are acceptable, and enumeration never fails — no
//! devices simply yields an empty list.

use vstd::prelude::*;

use crate::types::{AudioDevice, DeviceType};

verus! {

/// The names that can be read, in enumeration order.
pub open spec fn readable_names(names: Seq<Option<String>>) -> Seq<Seq<char>>
    decreases names.len(),
{
    if names.len() == 0 {
        Seq::empty()
    } else {
        let rest = readable_names(names.drop_last());
        match names.last() {
            Some(n) => rest.push(n@),
            None => rest,
        }
    }
}

/// Whether a device with this name is the default one: the default
/// device is determined by name comparison.
pub open spec fn is_default_name(default_name: Option<String>, name: Seq<char>) -> bool {
    match default_name {
        Some(d) => d@ == name,
        None => false,
    }
}

/// Build the device list from the names the host reported.
///
/// One entry per readable name, in order; each is an input device, and
/// it is flagged as default exactly when its name equals the reported
/// default input device's name. Unreadable names are skipped, and an
/// empty enumeration yields an empty list, never an error.
pub fn list_devices(names: &Vec<Option<String>>, default_name: &Option<String>) -> (r: Vec<
    AudioDevice,
>)
    ensures
        r@.len() == readable_names(names@).len(),
        forall|i: int|
            0 <= i < r@.len() ==> (#[trigger] r@[i]).name@ == readable_names(names@)[i],
        forall|i: int| 0 <= i < r@.len() ==> (#[trigger] r@[i]).device_type == DeviceType::Input,
        forall|i: int|
            0 <= i < r@.len() ==> (#[trigger] r@[i]).is_default == is_default_name(
                *default_name,
                readable_names(names@)[i],
            ),
        names@.len() == 0 ==> r@.len() == 0,
{
    let mut r: Vec<AudioDevice> = Vec::new();
    let mut i: usize = 0;
    while i < names.len()
        invariant
            i <= names.len(),
            r@.len() == readable_names(names@.take(i as int)).len(),
            forall|k: int|
                0 <= k < r@.len() ==> (#[trigger] r@[k]).name@ == readable_names(
                    names@.take(i as int),
                )[k],
            forall|k: int|
                0 <= k < r@.len() ==> (#[trigger] r@[k]).device_type == DeviceType::Input,
            forall|k: int|
                0 <= k < r@.len() ==> (#[trigger] r@[k]).is_default == is_default_name(
                    *default_name,
                    readable_names(names@.take(i as int))[k],
                ),
        decreases names.len() - i,
    {
        let ghost prefix = names@.take(i as int);
        match &names[i] {
            Some(n) => {
                let is_default = match default_name {
                    Some(d) => d.eq(n),
                    None => false,
                };
                r.push(
                    AudioDevice { name: n.clone(), is_default, device_type: DeviceType::Input },
                );
            },
            None => {},
        }
        proof {
            assert(names@.take(i + 1).drop_last() =~= prefix);
            assert(names@.take(i + 1).last() == names@[i as int]);
        }
        i = i + 1;
    }
    proof {
        assert(names@.take(names@.len() as int) =~= names@);
    }
    r
}

} // verus!
