//! Removable devices: what the system tells about them.

use vstd::prelude::*;

verus! {

broadcast use vstd::seq::group_seq_axioms;

/// What happened to a device.
#[derive(Debug, Clone, Copy, PartialEq, Eq, Structural)]
pub enum DeviceEvent {
    /// A device was plugged in.
    DeviceArrived {
        /// The letter of the new volume.
        drive_letter: char,
        /// Whether it holds a `DCIM` folder, as cameras and phones do.
        has_dcim: bool,
    },
    /// A device was removed.
    DeviceRemoved {
        /// The letter that the volume had.
        drive_letter: char,
    },
}

/// The window message about devices.
pub const WM_DEVICECHANGE: u32 = 0x0219;

/// A device was plugged in.
pub const DBT_DEVICEARRIVAL: u32 = 0x8000;

/// A device was removed.
pub const DBT_DEVICEREMOVECOMPLETE: u32 = 0x8004;

/// The device is a volume.
pub const DBT_DEVTYP_VOLUME: u32 = 0x00000002;

/// The letter of drive number `i`: 0 is `A`, 25 is `Z`.
pub open spec fn drive_letter(i: int) -> char {
    (65 + i) as char
}

/// Whether bit `i` of a mask is set.
pub open spec fn bit_set(mask: u32, i: int) -> bool {
    mask & (1u32 << (i as u32)) != 0
}

/// The letters of the first `n` drives of a mask, in order.
pub open spec fn letters_below(mask: u32, n: int) -> Seq<char>
    decreases n,
{
    if n <= 0 {
        Seq::empty()
    } else if bit_set(mask, n - 1) {
        letters_below(mask, n - 1).push(drive_letter(n - 1))
    } else {
        letters_below(mask, n - 1)
    }
}

/// The letters of the drives of a mask, in order.
pub fn drive_letters_from_mask(mask: u32) -> (r: Vec<char>)
    ensures
        r@ == letters_below(mask, 26),
{
    let mut r: Vec<char> = Vec::new();
    let mut i: u32 = 0;
    while i < 26
        invariant
            i <= 26,
            r@ == letters_below(mask, i as int),
        decreases 26 - i,
    {
        if mask & (1u32 << i) != 0 {
            r.push((65u8 + i as u8) as char);
        }
        i += 1;
    }
    r
}

/// A letter is listed just where its bit is set.
pub proof fn law_letters_are_the_set_bits(mask: u32, i: int)
    requires
        0 <= i < 26,
    ensures
        letters_below(mask, 26).contains(drive_letter(i)) == bit_set(mask, i),
{
    lemma_letters(mask, 26, i);
}

proof fn lemma_letters(mask: u32, n: int, i: int)
    requires
        0 <= n <= 26,
        0 <= i < 26,
    ensures
        letters_below(mask, n).contains(drive_letter(i)) == (i < n && bit_set(mask, i)),
    decreases n,
{
    if n > 0 {
        lemma_letters(mask, n - 1, i);
        let before = letters_below(mask, n - 1);
        if bit_set(mask, n - 1) {
            let after = before.push(drive_letter(n - 1));
            assert(drive_letter(i) == drive_letter(n - 1) <==> i == n - 1);
            if before.contains(drive_letter(i)) {
                let k = choose|k: int| 0 <= k < before.len() && before[k] == drive_letter(i);
                assert(after[k] == drive_letter(i));
            }
            if i == n - 1 {
                assert(after[before.len() as int] == drive_letter(i));
            }
            if after.contains(drive_letter(i)) {
                let k = choose|k: int| 0 <= k < after.len() && after[k] == drive_letter(i);
                if k < before.len() {
                    assert(before[k] == drive_letter(i));
                }
            }
        }
    }
}

/// What a window message says of the device it is about.
#[derive(Debug, Clone, Copy, PartialEq, Eq, Structural)]
pub struct DeviceData {
    /// The kind of the device.
    pub device_type: u32,
    /// The drives of the device, a bit for each letter. It counts for volumes
    /// only.
    pub unit_mask: u32,
}

/// A change that concerns volumes.
#[derive(Debug)]
pub struct VolumeChange {
    /// Whether the volumes arrived; they were removed otherwise.
    pub arrived: bool,
    /// The letters of the volumes, in order.
    pub letters: Vec<char>,
}

/// Whether a window message is about volumes that arrived or were removed.
/// `device` is what the message says of the device, if it does.
pub open spec fn is_volume_change(message: u32, change: u32, device: Option<DeviceData>) -> bool {
    &&& message == WM_DEVICECHANGE
    &&& change == DBT_DEVICEARRIVAL || change == DBT_DEVICEREMOVECOMPLETE
    &&& device is Some
    &&& device->0.device_type == DBT_DEVTYP_VOLUME
}

/// The change of volumes that a window message tells of, if it does.
pub fn volume_change(message: u32, change: u32, device: Option<DeviceData>) -> (r: Option<
    VolumeChange,
>)
    ensures
        r is Some == is_volume_change(message, change, device),
        r matches Some(c) ==> c.arrived == (change == DBT_DEVICEARRIVAL) && c.letters@
            == letters_below(device->0.unit_mask, 26),
{
    if message != WM_DEVICECHANGE || (change != DBT_DEVICEARRIVAL && change
        != DBT_DEVICEREMOVECOMPLETE) {
        return None;
    }
    match device {
        Some(d) => {
            if d.device_type == DBT_DEVTYP_VOLUME {
                Some(
                    VolumeChange {
                        arrived: change == DBT_DEVICEARRIVAL,
                        letters: drive_letters_from_mask(d.unit_mask),
                    },
                )
            } else {
                None
            }
        },
        None => None,
    }
}

/// What happened to one volume of a change. `has_dcim` is whether it holds a
/// `DCIM` folder.
pub fn device_event(arrived: bool, letter: char, has_dcim: bool) -> (r: DeviceEvent)
    ensures
        r == (if arrived {
            DeviceEvent::DeviceArrived { drive_letter: letter, has_dcim }
        } else {
            DeviceEvent::DeviceRemoved { drive_letter: letter }
        }),
{
    if arrived {
        DeviceEvent::DeviceArrived { drive_letter: letter, has_dcim }
    } else {
        DeviceEvent::DeviceRemoved { drive_letter: letter }
    }
}

/// The letters of a mask are those from `A` to `Z` whose bit is set, in the order
/// of the alphabet.
pub proof fn law_letters_run_from_a_to_z(mask: u32, c: char)
    ensures
        letters_below(mask, 26).contains(c) <==> 'A' <= c <= 'Z' && mask & (1u32 << ((c as u32
            - 65) as u32)) != 0,
        forall|j: int, k: int|
            0 <= j < k < letters_below(mask, 26).len() ==> #[trigger] letters_below(mask, 26)[j]
                < #[trigger] letters_below(mask, 26)[k],
{
    lemma_letters_ascend(mask, 26);
    if 'A' <= c <= 'Z' {
        let i = c as int - 65;
        law_letters_are_the_set_bits(mask, i);
        assert(drive_letter(i) == c);
    }
}

proof fn lemma_letters_ascend(mask: u32, n: int)
    requires
        0 <= n <= 26,
    ensures
        forall|j: int|
            0 <= j < letters_below(mask, n).len() ==> 65 <= (#[trigger] letters_below(mask, n)[j])
                as int && (letters_below(mask, n)[j] as int) < 65 + n,
        forall|j: int, k: int|
            0 <= j < k < letters_below(mask, n).len() ==> #[trigger] letters_below(mask, n)[j]
                < #[trigger] letters_below(mask, n)[k],
    decreases n,
{
    if n > 0 {
        lemma_letters_ascend(mask, n - 1);
        let a = letters_below(mask, n - 1);
        let b = letters_below(mask, n);
        assert(drive_letter(n - 1) as int == 65 + n - 1);
        assert forall|j: int| 0 <= j < b.len() implies 65 <= (#[trigger] b[j]) as int && (b[j]
            as int) < 65 + n by {
            if j < a.len() {
                assert(b[j] == a[j]);
            }
        }
        assert forall|j: int, k: int| 0 <= j < k < b.len() implies #[trigger] b[j]
            < #[trigger] b[k] by {
            assert(b[j] == a[j]);
            if k < a.len() {
                assert(b[k] == a[k]);
            }
        }
    }
}

/// Volumes come and go with these numbers of the system, and other messages,
/// changes and devices are passed over.
pub proof fn law_only_volumes_count(message: u32, change: u32, device: Option<DeviceData>)
    ensures
        is_volume_change(message, change, device) <==> {
            &&& message == 0x0219
            &&& change == 0x8000 || change == 0x8004
            &&& device matches Some(d) && d.device_type == 2
        },
        DBT_DEVICEARRIVAL == 0x8000,
{
}

} // verus!
