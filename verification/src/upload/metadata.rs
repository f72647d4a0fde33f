//! Creation and modification times of files.
//!
//! The EXIF date of an image is preferred. Without one, the filesystem times
//! count.

use vstd::prelude::*;

use crate::clock;
use crate::clock::{instant, now, parse_naive, Timestamp};
use crate::text;
use crate::text::chars_of;

verus! {

broadcast use vstd::seq::group_seq_axioms;

/// Why no times could be found for a file.
#[derive(Debug)]
pub enum MetadataError {
    FsMetadata { path: String, detail: String },
    NoTimestamp { path: String },
}

/// The text of a [`MetadataError`].
pub open spec fn metadata_message(e: MetadataError) -> Seq<char> {
    match e {
        MetadataError::FsMetadata { path, detail } => "Failed to read filesystem metadata for `"@
            + path@ + "`: "@ + detail@,
        MetadataError::NoTimestamp { path } =>
            "Filesystem metadata contains no creation or modification time for `"@ + path@ + "`"@,
    }
}

impl MetadataError {
    /// The message shown to the user.
    pub fn message(&self) -> (r: String)
        ensures
            r@ == metadata_message(*self),
    {
        match self {
            MetadataError::FsMetadata { path, detail } => {
                let mut r: String = text::concat3(
                    "Failed to read filesystem metadata for `",
                    path,
                    "`: ",
                );
                r.append(detail);
                r
            },
            MetadataError::NoTimestamp { path } => text::concat3(
                "Filesystem metadata contains no creation or modification time for `",
                path,
                "`",
            ),
        }
    }
}

/// Times of a file.
#[derive(Debug, Clone, Copy, PartialEq, Eq, Structural)]
pub struct FileMetadata {
    /// When the content was created.
    pub created_at: Timestamp,
    /// When the file was last modified.
    pub modified_at: Timestamp,
}

/// A filesystem time: the time that passed since the Unix epoch.
#[derive(Debug, Clone, Copy, PartialEq, Eq, Structural)]
pub struct SinceEpoch {
    pub secs: u64,
    pub nanos: u32,
}

/// What the filesystem says of the times of a file.
#[derive(Debug, Clone, Copy, PartialEq, Eq, Structural)]
pub struct FsTimes {
    pub created: Option<SinceEpoch>,
    pub modified: Option<SinceEpoch>,
}

/// The format of EXIF times after [`exif_normalised`].
pub const EXIF_FORMAT: &'static str = "%Y-%m-%d %H:%M:%S";

/// The number of bytes that a character takes in UTF-8.
pub open spec fn utf8_width(c: char) -> nat {
    if (c as u32) < 0x80 {
        1
    } else if (c as u32) < 0x800 {
        2
    } else if (c as u32) < 0x10000 {
        3
    } else {
        4
    }
}

/// The number of bytes that come before the character `k` of `s`.
pub open spec fn byte_offset(s: Seq<char>, k: int) -> nat
    decreases k,
{
    if k <= 0 {
        0
    } else {
        byte_offset(s, k - 1) + utf8_width(s[k - 1])
    }
}

/// An EXIF time with the colons of its date part written as dashes:
/// `2023:06:15 14:30:00` becomes `2023-06-15 14:30:00`.
pub open spec fn exif_normalised(s: Seq<char>) -> Seq<char> {
    Seq::new(
        s.len(),
        |k: int|
            if s[k] == ':' && (byte_offset(s, k) == 4 || byte_offset(s, k) == 7) {
                '-'
            } else {
                s[k]
            },
    )
}

/// The point in time that an EXIF text gives.
pub open spec fn exif_instant(s: Seq<char>) -> Option<Timestamp> {
    clock::naive_instant(exif_normalised(s), EXIF_FORMAT@)
}

/// An EXIF time with the colons of its date part written as dashes.
fn normalise_exif(s: &str) -> (r: String)
    ensures
        r@ == exif_normalised(s@),
{
    let v: Vec<char> = chars_of(s);
    let mut r: String = String::new();
    let mut i: usize = 0;
    // Bytes before character `i`, counted no further than past the date part.
    let mut offset: u32 = 0;
    while i < v.len()
        invariant
            i <= v@.len(),
            v@ == s@,
            offset == byte_offset(s@, i as int) || (offset >= 8 && byte_offset(s@, i as int) >= 8),
            offset <= 12,
            r@ =~= exif_normalised(s@).take(i as int),
        decreases v@.len() - i,
    {
        let c: char = v[i];
        if c == ':' && (offset == 4 || offset == 7) {
            r.push('-');
        } else {
            r.push(c);
        }
        if offset < 8 {
            let w: u32 = if (c as u32) < 0x80 {
                1
            } else if (c as u32) < 0x800 {
                2
            } else if (c as u32) < 0x10000 {
                3
            } else {
                4
            };
            offset = offset + w;
        }
        assert(exif_normalised(s@).take(i + 1) =~= exif_normalised(s@).take(i as int).push(
            exif_normalised(s@)[i as int],
        ));
        i += 1;
    }
    assert(exif_normalised(s@).take(s@.len() as int) =~= exif_normalised(s@));
    r
}

/// Read an EXIF time (`YYYY:MM:DD HH:MM:SS`), in UTC.
pub fn parse_exif_datetime(s: &str) -> (r: Option<Timestamp>)
    ensures
        r == exif_instant(s@),
        r matches Some(t) ==> clock::representable(t.secs, t.nanos),
{
    let normalised: String = normalise_exif(s);
    parse_naive(&normalised, EXIF_FORMAT)
}

/// The time an image was taken: the EXIF field `DateTimeOriginal` counts, and
/// `DateTime` where there is no such field.
pub open spec fn exif_taken(original: Option<Seq<char>>, edited: Option<Seq<char>>) -> Option<
    Timestamp,
> {
    match original {
        Some(s) => exif_instant(s),
        None => match edited {
            Some(s) => exif_instant(s),
            None => None,
        },
    }
}

/// The texts of the fields `DateTimeOriginal` and `DateTime` of the image file
/// with these bytes; `None` for a field that it does not have, and for both
/// where the bytes are no image file with EXIF data.
pub uninterp spec fn exif_fields(file: Seq<u8>) -> (Option<Seq<char>>, Option<Seq<char>>);

/// Calls `exif::Reader::read_from_container` on the bytes of a file,
/// `exif::Exif::get_field` for the fields `DateTimeOriginal` and `DateTime` of
/// the primary image, and `exif::Field::display_value` on each. The result is a
/// function of the bytes, named [`exif_fields`]; which texts a given file holds
/// is not stated.
#[verifier::external_body]
fn read_exif(file: &[u8]) -> (r: (Option<String>, Option<String>))
    ensures
        (text::opt_text(r.0), text::opt_text(r.1)) == exif_fields(file@),
{
    match exif::Reader::new().read_from_container(&mut std::io::Cursor::new(file)) {
        Ok(e) => (
            e.get_field(exif::Tag::DateTimeOriginal, exif::In::PRIMARY).map(
                |f| f.display_value().to_string(),
            ),
            e.get_field(exif::Tag::DateTime, exif::In::PRIMARY).map(
                |f| f.display_value().to_string(),
            ),
        ),
        Err(_) => (None, None),
    }
}

/// The time an image was taken, from the texts of its EXIF fields.
pub fn taken_at(original: &Option<String>, edited: &Option<String>) -> (r: Option<Timestamp>)
    ensures
        r == exif_taken(text::opt_text(*original), text::opt_text(*edited)),
        r matches Some(t) ==> clock::representable(t.secs, t.nanos),
{
    match original {
        Some(s) => parse_exif_datetime(s),
        None => match edited {
            Some(s) => parse_exif_datetime(s),
            None => None,
        },
    }
}

/// The time the image file with these bytes was taken; `None` where the file is
/// no image, has no such field or the field holds no time.
pub fn try_exif_datetime(file: &[u8]) -> (r: Option<Timestamp>)
    ensures
        r == exif_taken(exif_fields(file@).0, exif_fields(file@).1),
        r matches Some(t) ==> clock::representable(t.secs, t.nanos),
{
    let fields: (Option<String>, Option<String>) = read_exif(file);
    taken_at(&fields.0, &fields.1)
}

/// Whether `r` is the time `t` in UTC. A time that the calendar cannot hold
/// becomes some other time, one that it can hold.
pub open spec fn is_utc_of(t: Option<SinceEpoch>, r: Option<Timestamp>) -> bool {
    match t {
        None => r is None,
        Some(e) => if clock::representable(e.secs as i64, e.nanos) {
            r == Some(Timestamp { secs: e.secs as i64, nanos: e.nanos })
        } else {
            r matches Some(u) && clock::representable(u.secs, u.nanos)
        },
    }
}

/// A filesystem time in UTC. A time that the calendar cannot hold counts as the
/// present.
pub fn system_time_to_utc(t: Option<SinceEpoch>) -> (r: Option<Timestamp>)
    ensures
        is_utc_of(t, r),
{
    match t {
        None => None,
        Some(e) => match instant(e.secs as i64, e.nanos) {
            Some(u) => Some(u),
            None => Some(now()),
        },
    }
}

/// What the times of a file are, where it was taken at `taken` and the
/// filesystem says `fs`. The time it was taken is the creation time; otherwise
/// that is the filesystem's, and the modification time where it is missing.
pub open spec fn are_times_of(
    path: Seq<char>,
    taken: Option<Timestamp>,
    fs: Result<FsTimes, String>,
    r: Result<FileMetadata, MetadataError>,
) -> bool {
    match fs {
        Err(d) => r matches Err(MetadataError::FsMetadata { path: p, detail }) && p@ == path
            && detail == d,
        Ok(times) => match times.modified {
            None => r matches Err(MetadataError::NoTimestamp { path: p }) && p@ == path,
            Some(_) => {
                &&& r matches Ok(m)
                &&& is_utc_of(times.modified, Some(m.modified_at))
                &&& match taken {
                    Some(t) => m.created_at == t,
                    None => match times.created {
                        Some(_) => is_utc_of(times.created, Some(m.created_at)),
                        None => m.created_at == m.modified_at,
                    },
                }
            },
        },
    }
}

/// Whether the calendar can hold both times, so that they can be written.
pub open spec fn writable(m: FileMetadata) -> bool {
    &&& clock::representable(m.created_at.secs, m.created_at.nanos)
    &&& clock::representable(m.modified_at.secs, m.modified_at.nanos)
}

/// The times of a file that was taken at `taken`. They can be written where
/// `taken` can.
pub fn times_of(path: &str, taken: Option<Timestamp>, fs: Result<FsTimes, String>) -> (r: Result<
    FileMetadata,
    MetadataError,
>)
    ensures
        are_times_of(path@, taken, fs, r),
        (taken matches Some(t) ==> clock::representable(t.secs, t.nanos)) ==> (r matches Ok(m)
            ==> writable(m)),
{
    let times: FsTimes = match fs {
        Ok(times) => times,
        Err(detail) => {
            return Err(MetadataError::FsMetadata { path: path.to_owned(), detail });
        },
    };
    let modified_at: Timestamp = match system_time_to_utc(times.modified) {
        Some(t) => t,
        None => {
            return Err(MetadataError::NoTimestamp { path: path.to_owned() });
        },
    };
    let created_at: Timestamp = match taken {
        Some(t) => t,
        None => match system_time_to_utc(times.created) {
            Some(t) => t,
            None => modified_at,
        },
    };
    Ok(FileMetadata { created_at, modified_at })
}

/// The times of a file.
///
/// `file` holds its bytes, where it could be read; `fs` is what the filesystem
/// says, or its message where it says nothing. A readable EXIF date is the
/// creation time.
pub fn extract_metadata(path: &str, file: Option<&[u8]>, fs: Result<FsTimes, String>) -> (r: Result<
    FileMetadata,
    MetadataError,
>)
    ensures
        are_times_of(
            path@,
            match file {
                Some(bytes) => exif_taken(exif_fields(bytes@).0, exif_fields(bytes@).1),
                None => None,
            },
            fs,
            r,
        ),
        r matches Ok(m) ==> writable(m),
{
    let taken: Option<Timestamp> = match file {
        Some(bytes) => try_exif_datetime(bytes),
        None => None,
    };
    times_of(path, taken, fs)
}

/// The times that a file without readable times is uploaded with: the present.
/// They can be written; which they are depends on the clock.
pub fn fallback_metadata() -> (r: FileMetadata)
    ensures
        writable(r),
{
    FileMetadata { created_at: now(), modified_at: now() }
}

proof fn lemma_ascii_offset(s: Seq<char>, k: int)
    requires
        0 <= k <= s.len(),
        forall|i: int| 0 <= i < k ==> (#[trigger] s[i]) as u32 <= 0x7f,
    ensures
        byte_offset(s, k) == k,
    decreases k,
{
    if k > 0 {
        lemma_ascii_offset(s, k - 1);
    }
}

/// Reading an EXIF time turns the colons of the date into hyphens, and leaves the
/// time of day and every other character as they are.
pub proof fn law_exif_date_gets_hyphens(s: Seq<char>, k: int)
    requires
        0 <= k < s.len(),
        forall|i: int| 0 <= i < k ==> (#[trigger] s[i]) as u32 <= 0x7f,
    ensures
        exif_normalised(s).len() == s.len(),
        (k == 4 || k == 7) && s[k] == ':' ==> exif_normalised(s)[k] == '-',
        k != 4 && k != 7 ==> exif_normalised(s)[k] == s[k],
        s[k] != ':' ==> exif_normalised(s)[k] == s[k],
{
    lemma_ascii_offset(s, k);
}

/// The time at which a picture was taken counts, where it is given, even where it
/// cannot be read; the time at which it was edited stands in only where the
/// other is not given.
pub proof fn law_time_of_taking_counts(
    original: Seq<char>,
    edited: Option<Seq<char>>,
    when: Seq<char>,
)
    ensures
        exif_taken(Some(original), edited) == exif_instant(original),
        exif_taken(None, Some(when)) == exif_instant(when),
        exif_taken(None, None) is None,
        exif_instant(original) == clock::naive_instant(
            exif_normalised(original),
            "%Y-%m-%d %H:%M:%S"@,
        ),
{
}

/// A file was created when its picture was taken, else when the filesystem says,
/// else when it was modified; without a time of modification there are no times.
pub proof fn law_times_of_a_file(
    path: Seq<char>,
    taken: Option<Timestamp>,
    modified: SinceEpoch,
    created: Option<SinceEpoch>,
    r: Result<FileMetadata, MetadataError>,
)
    requires
        are_times_of(path, taken, Ok(FsTimes { created, modified: Some(modified) }), r),
    ensures
        r is Ok,
        taken matches Some(t) ==> r->Ok_0.created_at == t,
        taken is None && created is None ==> r->Ok_0.created_at == r->Ok_0.modified_at,
        clock::representable(modified.secs as i64, modified.nanos) ==> r->Ok_0.modified_at == (
        Timestamp { secs: modified.secs as i64, nanos: modified.nanos }),
        taken is None ==> (created matches Some(c) ==> clock::representable(
            c.secs as i64,
            c.nanos,
        ) ==> r->Ok_0.created_at == (Timestamp { secs: c.secs as i64, nanos: c.nanos })),
{
}

/// What the filesystem cannot say is an error that names the file.
pub proof fn law_missing_times_are_an_error(
    path: Seq<char>,
    taken: Option<Timestamp>,
    created: Option<SinceEpoch>,
    detail: String,
    r: Result<FileMetadata, MetadataError>,
    s: Result<FileMetadata, MetadataError>,
)
    requires
        are_times_of(path, taken, Ok(FsTimes { created, modified: None }), r),
        are_times_of(path, taken, Err(detail), s),
    ensures
        r matches Err(MetadataError::NoTimestamp { path: p }) && p@ == path,
        s matches Err(MetadataError::FsMetadata { path: p, detail: d }) && p@ == path && d
            == detail,
{
}

/// Offsets count bytes: one for a character of ASCII, and up to four for others.
pub proof fn law_characters_take_one_to_four_bytes(s: Seq<char>, k: int, c: char)
    ensures
        c as u32 <= 0x7f ==> utf8_width(c) == 1,
        0x80 <= c as u32 <= 0x7ff ==> utf8_width(c) == 2,
        0x800 <= c as u32 <= 0xffff ==> utf8_width(c) == 3,
        0x10000 <= c as u32 ==> utf8_width(c) == 4,
        byte_offset(s, 0) == 0,
        k > 0 ==> byte_offset(s, k) == byte_offset(s, k - 1) + utf8_width(s[k - 1]),
{
}

/// Times that can be sent are times that can be written.
pub proof fn law_writable_times_can_be_written(m: FileMetadata)
    ensures
        writable(m) <==> clock::representable(m.created_at.secs, m.created_at.nanos)
            && clock::representable(m.modified_at.secs, m.modified_at.nanos),
{
}

/// An error of the filesystem ends with what went wrong.
pub proof fn law_metadata_error_ends_with_its_cause(path: String, detail: String)
    ensures
        metadata_message(MetadataError::FsMetadata { path, detail }).skip(
            metadata_message(MetadataError::FsMetadata { path, detail }).len() - detail@.len(),
        ) == detail@,
{
}

} // verus!
