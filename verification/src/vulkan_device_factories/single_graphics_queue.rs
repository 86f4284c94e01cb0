//! Selecting the one graphics-and-present-capable queue family the
//! application submits everything through.

use vstd::prelude::*;

verus! {

/// What the host reports about one queue family of a physical device: the
/// two capabilities the selection cares about.
#[derive(Clone, Copy, Debug, PartialEq, Eq, Structural)]
pub struct QueueFamilyInfo {
    pub supports_graphics: bool,
    /// Whether the family can present to the application's surface.
    pub supports_present: bool,
}

/// A queue family the factory can use: it must both run graphics work and
/// present to the surface.
pub open spec fn spec_family_suitable(family: QueueFamilyInfo) -> bool {
    family.supports_graphics && family.supports_present
}

/// Whether a device (given as the sequence of its queue families) has any
/// suitable family.
pub open spec fn spec_device_suitable(families: Seq<QueueFamilyInfo>) -> bool {
    exists|j: int| 0 <= j < families.len() && spec_family_suitable(#[trigger] families[j])
}

/// Chooses the device and queue family everything is submitted through: the
/// first enumerated physical device that has a queue family supporting both
/// graphics and presentation to the surface, with the first such family on
/// it.
#[derive(Clone, Copy, Debug, PartialEq, Eq, Structural)]
pub struct SingleGraphicsQueueDeviceFactory {}

impl SingleGraphicsQueueDeviceFactory {
    pub fn new() -> (r: SingleGraphicsQueueDeviceFactory)
        ensures
            r == (SingleGraphicsQueueDeviceFactory {}),
    {
        SingleGraphicsQueueDeviceFactory {}
    }

    /// Pick `(device index, queue family index)` from what the host probed:
    /// the first device with a suitable family, and the first suitable
    /// family on it; `None` exactly when no device has one.
    pub fn select_queue_family(&self, devices: &Vec<Vec<QueueFamilyInfo>>) -> (r: Option<
        (usize, usize),
    >)
        ensures
            r matches Some((d, f)) ==> {
                &&& d < devices@.len()
                &&& f < devices@[d as int]@.len()
                &&& spec_family_suitable(devices@[d as int]@[f as int])
                &&& forall|d2: int|
                    0 <= d2 < d ==> !spec_device_suitable(#[trigger] devices@[d2]@)
                &&& forall|f2: int|
                    0 <= f2 < f ==> !spec_family_suitable(#[trigger] devices@[d as int]@[f2])
            },
            r is None ==> forall|d2: int|
                0 <= d2 < devices@.len() ==> !spec_device_suitable(#[trigger] devices@[d2]@),
    {
        let mut d: usize = 0;
        while d < devices.len()
            invariant
                d <= devices@.len(),
                forall|d2: int| 0 <= d2 < d ==> !spec_device_suitable(#[trigger] devices@[d2]@),
            decreases devices@.len() - d,
        {
            let families = &devices[d];
            let mut f: usize = 0;
            while f < families.len()
                invariant
                    d < devices@.len(),
                    families == &devices@[d as int],
                    forall|d2: int|
                        0 <= d2 < d ==> !spec_device_suitable(#[trigger] devices@[d2]@),
                    f <= families@.len(),
                    forall|f2: int|
                        0 <= f2 < f ==> !spec_family_suitable(#[trigger] families@[f2]),
                decreases families@.len() - f,
            {
                let family = families[f];
                if family.supports_graphics && family.supports_present {
                    return Some((d, f));
                }
                f = f + 1;
            }
            proof {
                assert(!spec_device_suitable(devices@[d as int]@));
            }
            d = d + 1;
        }
        None
    }
}

} // verus!
