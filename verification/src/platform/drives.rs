//! The drives of the machine.

use vstd::prelude::*;

use crate::platform::wide;
use crate::platform::wide::{from_units_lossy, wide_terminated};
use crate::text;
use crate::text::trim;
use crate::watch::device;
use crate::watch::device::drive_letters_from_mask;

verus! {

broadcast use vstd::seq::group_seq_axioms;

/// What kind of drive it is.
#[derive(Debug, Clone, Copy, PartialEq, Eq, Structural)]
pub enum DriveType {
    Fixed,
    Removable,
    Network,
    CdRom,
    Unknown,
}

/// A drive.
#[derive(Debug)]
pub struct DriveInfo {
    /// Its letter.
    pub letter: char,
    pub drive_type: DriveType,
    /// The label of its volume, where it has one that can be read.
    pub label: Option<String>,
}

/// The root directory of a drive.
pub open spec fn drive_root(letter: char) -> Seq<char> {
    seq![letter] + ":\\"@
}

fn root_text(letter: char) -> (r: String)
    ensures
        r@ == drive_root(letter),
{
    let mut r: String = String::new();
    r.push(letter);
    r.append(":\\");
    assert(r@ =~= drive_root(letter));
    r
}

/// The root directory of a drive in UTF-16, and the zero that ends it.
pub fn drive_root_wide(letter: char) -> (r: Vec<u16>)
    ensures
        r@ == wide::utf16(drive_root(letter)).push(0),
{
    wide_terminated(&root_text(letter))
}

/// The kind of drive that a Windows drive type stands for.
pub open spec fn drive_type_of(raw: u32) -> DriveType {
    if raw == 2 {
        DriveType::Removable
    } else if raw == 3 {
        DriveType::Fixed
    } else if raw == 4 {
        DriveType::Network
    } else if raw == 5 {
        DriveType::CdRom
    } else {
        DriveType::Unknown
    }
}

/// The label in a buffer: the text before the first zero, without white space
/// at its ends. A buffer that starts with a zero, or holds none, has no label.
pub open spec fn label_in(buffer: Option<Seq<u16>>) -> Option<Seq<char>> {
    match buffer {
        None => None,
        Some(b) => {
            let n = wide::zero_at(b);
            if 0 < n && n < b.len() {
                Some(text::trimmed(wide::utf16_lossy(b.take(n))))
            } else {
                None
            }
        },
    }
}

fn volume_label(buffer: Option<&Vec<u16>>) -> (r: Option<String>)
    ensures
        text::opt_text(r) == label_in(
            match buffer {
                Some(b) => Some(b@),
                None => None,
            },
        ),
{
    let b: &Vec<u16> = match buffer {
        Some(b) => b,
        None => {
            return None;
        },
    };
    let mut w: Vec<u16> = Vec::new();
    let mut i: usize = 0;
    assert(b@.skip(0) =~= b@);
    while i < b.len() && b[i] != 0
        invariant
            i <= b@.len(),
            w@ =~= b@.take(i as int),
            wide::zero_at(b@) == i + wide::zero_at(b@.skip(i as int)),
        decreases b@.len() - i,
    {
        assert(b@.skip(i as int).drop_first() =~= b@.skip(i + 1));
        w.push(b[i]);
        i += 1;
    }
    assert(wide::zero_at(b@) == i);
    if i == 0 || i == b.len() {
        return None;
    }
    Some(trim(&from_units_lossy(&w)))
}

/// What is known of a drive. `raw_type` is its Windows drive type, `label` the
/// buffer with the label of its volume, where it could be read.
pub fn drive_info(letter: char, raw_type: u32, label: Option<&Vec<u16>>) -> (r: DriveInfo)
    ensures
        r.letter == letter,
        r.drive_type == drive_type_of(raw_type),
        text::opt_text(r.label) == label_in(
            match label {
                Some(b) => Some(b@),
                None => None,
            },
        ),
{
    let drive_type: DriveType = match raw_type {
        2 => DriveType::Removable,
        3 => DriveType::Fixed,
        4 => DriveType::Network,
        5 => DriveType::CdRom,
        _ => DriveType::Unknown,
    };
    DriveInfo { letter, drive_type, label: volume_label(label) }
}

/// What the system says of a drive.
#[derive(Debug)]
pub struct DriveFacts {
    /// Its Windows drive type.
    pub raw_type: u32,
    /// The buffer with the label of its volume, where it could be read.
    pub label: Option<Vec<u16>>,
}

/// Whether `info` tells of the drive `letter` what the system says of it.
pub open spec fn tells(info: DriveInfo, letter: char, facts: DriveFacts) -> bool {
    &&& info.letter == letter
    &&& info.drive_type == drive_type_of(facts.raw_type)
    &&& text::opt_text(info.label) == label_in(
        match facts.label {
            Some(b) => Some(b@),
            None => None,
        },
    )
}

/// Whether `info` is what `query` tells of the drive `letter`.
pub open spec fn told_of<F: Fn(char) -> DriveFacts>(query: F, letter: char, info: DriveInfo) -> bool {
    exists|facts: DriveFacts| #[trigger]
        query.ensures((letter,), facts) && tells(info, letter, facts)
}

/// The drives of the machine, by letter. Each of the bits of `mask` that stand
/// for a letter and are set stands for a drive; `query` tells what the system
/// says of one.
pub fn list_drives<F: Fn(char) -> DriveFacts>(mask: u32, query: F) -> (r: Vec<DriveInfo>)
    requires
        forall|c: char| #[trigger] query.requires((c,)),
    ensures
        r@.len() == device::letters_below(mask, 26).len(),
        forall|i: int|
            0 <= i < r@.len() ==> told_of(
                query,
                device::letters_below(mask, 26)[i],
                #[trigger] r@[i],
            ),
{
    let letters: Vec<char> = drive_letters_from_mask(mask);
    let mut r: Vec<DriveInfo> = Vec::new();
    let mut i: usize = 0;
    while i < letters.len()
        invariant
            i <= letters@.len(),
            letters@ == device::letters_below(mask, 26),
            r@.len() == i,
            forall|c: char| #[trigger] query.requires((c,)),
            forall|j: int| 0 <= j < i ==> told_of(query, letters@[j], #[trigger] r@[j]),
        decreases letters@.len() - i,
    {
        let letter: char = letters[i];
        let facts: DriveFacts = query(letter);
        let info: DriveInfo = drive_info(letter, facts.raw_type, facts.label.as_ref());
        assert(query.ensures((letter,), facts) && tells(info, letter, facts));
        r.push(info);
        i += 1;
    }
    r
}

/// The folder in which cameras keep their pictures.
pub open spec fn dcim_folder(letter: char) -> Seq<char> {
    drive_root(letter) + "DCIM"@
}

/// Whether a drive has a folder in which cameras keep their pictures. `is_dir`
/// tells whether a path is a directory.
pub fn has_dcim_folder<F: FnOnce(&str) -> bool>(drive_letter: char, is_dir: F) -> (r: bool)
    requires
        forall|p: &str| #[trigger] is_dir.requires((p,)),
    ensures
        exists|p: &str| p@ == dcim_folder(drive_letter) && #[trigger] is_dir.ensures((p,), r),
{
    let mut path: String = root_text(drive_letter);
    path.append("DCIM");
    is_dir(path.as_str())
}

// ── Laws ────────────────────────────────────────────────────────────────────

/// The kinds of drives go by the numbers of the system; any other number is of no
/// known kind.
pub proof fn law_drive_kinds(raw: u32)
    ensures
        drive_type_of(raw) is Removable <==> raw == 2,
        drive_type_of(raw) is Fixed <==> raw == 3,
        drive_type_of(raw) is Network <==> raw == 4,
        drive_type_of(raw) is CdRom <==> raw == 5,
        drive_type_of(raw) is Unknown <==> raw < 2 || raw > 5,
{
}

/// The label of a volume is what its buffer holds before the first zero, without
/// white space around it; where that is nothing there is no label.
pub proof fn law_label_ends_at_the_zero(units: Seq<u16>, rest: Seq<u16>)
    requires
        forall|i: int| 0 <= i < units.len() ==> #[trigger] units[i] != 0,
    ensures
        units.len() > 0 ==> label_in(Some(units + seq![0u16] + rest)) == Some(
            text::trimmed(wide::utf16_lossy(units)),
        ),
        units.len() == 0 ==> label_in(Some(units + seq![0u16] + rest)) is None,
        label_in(Some(units)) is None,
        label_in(None) is None,
{
    let b = units + seq![0u16] + rest;
    wide::law_zero_ends_the_text(units, rest);
    assert(b.take(units.len() as int) =~= units);
}

/// A drive's root is its letter with a colon and a backslash, and a camera's
/// pictures are below it.
pub proof fn law_places_on_a_drive(letter: char)
    ensures
        drive_root(letter) == seq![letter, ':', '\\'],
        dcim_folder(letter) == seq![letter, ':', '\\', 'D', 'C', 'I', 'M'],
{
    reveal_strlit(":\\");
    reveal_strlit("DCIM");
    assert(drive_root(letter) =~= seq![letter, ':', '\\']);
    assert(dcim_folder(letter) =~= seq![letter, ':', '\\', 'D', 'C', 'I', 'M']);
}

/// What is told of a drive is what the system says of it.
pub proof fn law_drive_is_told_as_it_is(info: DriveInfo, letter: char, facts: DriveFacts)
    requires
        tells(info, letter, facts),
    ensures
        info.letter == letter,
        info.drive_type == drive_type_of(facts.raw_type),
        facts.label is None ==> info.label is None,
        facts.label matches Some(b) ==> text::opt_text(info.label) == label_in(Some(b@)),
{
}

} // verus!
