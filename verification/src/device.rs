//! Locating the dongle in a list of attached USB devices.
//!
//! Enumeration order matters: the locator takes the first device whose
//! descriptor carries the target vendor and product IDs and that can
//! actually be opened.  A device whose descriptor cannot be read is
//! skipped, and a matching device that fails to open is passed over in
//! favour of the next match, rather than aborting the scan.

use vstd::prelude::*;

verus! {

/// The identifying pair from a USB device descriptor.
#[derive(Clone, Copy, Debug, PartialEq, Eq, Structural)]
pub struct DeviceId {
    pub vendor_id: u16,
    pub product_id: u16,
}

/// One enumerated device, as far as the locator is concerned: the outcome
/// of reading its descriptor (`None` when the read failed), and whether an
/// attempt to open it would succeed.
#[derive(Clone, Copy, Debug)]
pub struct DeviceRecord {
    pub descriptor: Option<DeviceId>,
    pub opens: bool,
}

/// Whether an ID carries the wanted vendor and product IDs.
pub open spec fn spec_id_matches(id: DeviceId, vid: u16, pid: u16) -> bool {
    id.vendor_id == vid && id.product_id == pid
}

/// Whether a descriptor read outcome identifies the wanted device.  An
/// unreadable descriptor never matches.
pub open spec fn spec_descriptor_matches(d: Option<DeviceId>, vid: u16, pid: u16) -> bool {
    match d {
        Some(id) => spec_id_matches(id, vid, pid),
        None => false,
    }
}

/// Whether the locator would settle on this device: its descriptor matches
/// and it opens.
pub open spec fn spec_selectable(r: DeviceRecord, vid: u16, pid: u16) -> bool {
    spec_descriptor_matches(r.descriptor, vid, pid) && r.opens
}

/// Index of the first device of `devices` that matches and opens, if any.
pub open spec fn spec_select(devices: Seq<DeviceRecord>, vid: u16, pid: u16) -> Option<int>
    decreases devices.len(),
{
    if devices.len() == 0 {
        None
    } else if spec_selectable(devices[0], vid, pid) {
        Some(0)
    } else {
        match spec_select(devices.drop_first(), vid, pid) {
            Some(i) => Some(i + 1),
            None => None,
        }
    }
}

/// The locator selects the first device that matches and opens, skipping
/// every device with a non-matching or unreadable descriptor and every
/// matching device that fails to open; it reports absence exactly when no
/// device matches and opens.
pub proof fn lemma_select_characterization(devices: Seq<DeviceRecord>, vid: u16, pid: u16)
    ensures
        match spec_select(devices, vid, pid) {
            Some(i) => 0 <= i < devices.len() && spec_selectable(devices[i], vid, pid)
                && (forall|j: int| 0 <= j < i ==> !spec_selectable(devices[j], vid, pid)),
            None => forall|j: int|
                0 <= j < devices.len() ==> !spec_selectable(devices[j], vid, pid),
        },
    decreases devices.len(),
{
    if devices.len() == 0 {
    } else if spec_selectable(devices[0], vid, pid) {
    } else {
        let rest = devices.drop_first();
        lemma_select_characterization(rest, vid, pid);
        match spec_select(rest, vid, pid) {
            Some(i) => {
                assert(devices[i + 1] == rest[i]);
                assert forall|j: int| 0 <= j < i + 1 implies !spec_selectable(
                    devices[j],
                    vid,
                    pid,
                ) by {
                    if j > 0 {
                        assert(devices[j] == rest[j - 1]);
                    }
                }
            },
            None => {
                assert forall|j: int| 0 <= j < devices.len() implies !spec_selectable(
                    devices[j],
                    vid,
                    pid,
                ) by {
                    if j > 0 {
                        assert(devices[j] == rest[j - 1]);
                    }
                }
            },
        }
    }
}

/// If the first device that matches and opens stands at index `i`, the
/// locator selects exactly index `i`.
pub proof fn lemma_select_first(devices: Seq<DeviceRecord>, vid: u16, pid: u16, i: int)
    requires
        0 <= i < devices.len(),
        spec_selectable(devices[i], vid, pid),
        forall|j: int| 0 <= j < i ==> !spec_selectable(devices[j], vid, pid),
    ensures
        spec_select(devices, vid, pid) == Some(i),
{
    lemma_select_characterization(devices, vid, pid);
    match spec_select(devices, vid, pid) {
        Some(m) => {
            if m < i {
                assert(!spec_selectable(devices[m], vid, pid));
            } else if i < m {
                assert(!spec_selectable(devices[i], vid, pid));
            }
        },
        None => {
            assert(!spec_selectable(devices[i], vid, pid));
        },
    }
}

/// If no device that matches and opens exists, the locator reports absence.
pub proof fn lemma_select_none(devices: Seq<DeviceRecord>, vid: u16, pid: u16)
    requires
        forall|j: int| 0 <= j < devices.len() ==> !spec_selectable(devices[j], vid, pid),
    ensures
        spec_select(devices, vid, pid) is None,
{
    lemma_select_characterization(devices, vid, pid);
    if let Some(m) = spec_select(devices, vid, pid) {
        assert(!spec_selectable(devices[m], vid, pid));
    }
}

/// Fallback on open failure: if a matching device at index `i` fails to
/// open while some later device matches and opens, the locator does not
/// report absence; it settles on a device past `i`.
pub proof fn lemma_select_open_failure_fallback(
    devices: Seq<DeviceRecord>,
    vid: u16,
    pid: u16,
    i: int,
)
    requires
        0 <= i < devices.len(),
        spec_descriptor_matches(devices[i].descriptor, vid, pid),
        !devices[i].opens,
        forall|j: int| 0 <= j < i ==> !spec_selectable(devices[j], vid, pid),
        exists|j: int| i < j < devices.len() && spec_selectable(devices[j], vid, pid),
    ensures
        spec_select(devices, vid, pid) is Some,
        spec_select(devices, vid, pid)->Some_0 > i,
        spec_selectable(devices[spec_select(devices, vid, pid)->Some_0], vid, pid),
{
    lemma_select_characterization(devices, vid, pid);
    let w = choose|j: int| i < j < devices.len() && spec_selectable(devices[j], vid, pid);
    match spec_select(devices, vid, pid) {
        Some(m) => {
            if m < i {
                assert(!spec_selectable(devices[m], vid, pid));
            } else if m == i {
                assert(!spec_selectable(devices[i], vid, pid));
            }
        },
        None => {
            assert(!spec_selectable(devices[w], vid, pid));
        },
    }
}

/// Absence on a list without a matching descriptor: an empty list, or one
/// where no readable descriptor carries the target IDs, yields absence.
pub proof fn lemma_select_absent_without_match(devices: Seq<DeviceRecord>, vid: u16, pid: u16)
    requires
        forall|j: int|
            0 <= j < devices.len() ==> !spec_descriptor_matches(
                #[trigger] devices[j].descriptor,
                vid,
                pid,
            ),
    ensures
        spec_select(devices, vid, pid) is None,
{
    assert(forall|j: int| 0 <= j < devices.len() ==> !spec_selectable(devices[j], vid, pid));
    lemma_select_none(devices, vid, pid);
}

/// Whether a descriptor read outcome identifies the wanted device.
pub fn descriptor_matches(d: &Option<DeviceId>, vid: u16, pid: u16) -> (r: bool)
    ensures
        r == spec_descriptor_matches(*d, vid, pid),
{
    match d {
        Some(id) => id.vendor_id == vid && id.product_id == pid,
        None => false,
    }
}

/// Scans `devices` in order and returns the index of the first device
/// whose descriptor matches `vid` and `pid` and that opens, or `None`
/// when no such device exists.
pub fn select_device(devices: &Vec<DeviceRecord>, vid: u16, pid: u16) -> (r: Option<usize>)
    ensures
        match r {
            Some(i) => spec_select(devices@, vid, pid) == Some(i as int),
            None => spec_select(devices@, vid, pid) is None,
        },
{
    let n = devices.len();
    let mut i: usize = 0;
    while i < n
        invariant
            0 <= i <= n,
            n == devices@.len(),
            forall|j: int| 0 <= j < i ==> !spec_selectable(devices@[j], vid, pid),
        decreases n - i,
    {
        let rec = &devices[i];
        if descriptor_matches(&rec.descriptor, vid, pid) && rec.opens {
            proof {
                lemma_select_first(devices@, vid, pid, i as int);
            }
            return Some(i);
        }
        i = i + 1;
    }
    proof {
        lemma_select_none(devices@, vid, pid);
    }
    None
}

} // verus!
