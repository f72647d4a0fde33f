//! Which files are uploaded.

use vstd::prelude::*;

use crate::paths;
use crate::text;
use crate::text::{str_eq, to_lowercase, trim};
use crate::upload::trash::TRASH_DIR_NAME;

verus! {

broadcast use vstd::seq::group_seq_axioms;

/// Files below this size in bytes are not uploaded by default.
pub const DEFAULT_MIN_SIZE: u64 = 1024;

/// The file attribute of a file whose content is not on this machine.
pub const FILE_ATTRIBUTE_OFFLINE: u32 = 0x1000;

/// Whether these file attributes mark a cloud-storage placeholder.
pub fn is_online_file(attributes: u32) -> (r: bool)
    ensures
        r == (attributes & FILE_ATTRIBUTE_OFFLINE != 0),
{
    attributes & FILE_ATTRIBUTE_OFFLINE != 0
}

// ── Outside functions ───────────────────────────────────────────────────────

/// Whether `glob::Pattern::new` compiles a text.
pub uninterp spec fn glob_compiles(pattern: Seq<char>) -> bool;

/// Whether the first text is a pattern for which `glob::Pattern::matches` holds
/// of the second. Path separators are those of the platform that the crate is
/// built for.
pub uninterp spec fn glob_matches(pattern: Seq<char>, s: Seq<char>) -> bool;

/// `glob::Pattern::new`: whether the text is a pattern.
#[verifier::external_body]
fn is_pattern(pattern: &str) -> (r: bool)
    ensures
        r == glob_compiles(pattern@),
{
    glob::Pattern::new(pattern).is_ok()
}

/// `glob::Pattern::matches`: whether the whole text matches the pattern. What is
/// no pattern matches nothing.
#[verifier::external_body]
fn pattern_matches(pattern: &str, s: &str) -> (r: bool)
    ensures
        r == glob_matches(pattern@, s@),
        r ==> glob_compiles(pattern@),
{
    match glob::Pattern::new(pattern) {
        Ok(p) => p.matches(s),
        Err(_) => false,
    }
}

#[verifier::external_type_specification]
#[verifier::external_body]
pub struct ExJsonError(serde_json::Error);

/// The list of texts that `serde_json::from_str` reads from a JSON text;
/// nothing where the text is no JSON array of strings.
pub uninterp spec fn json_list(s: Seq<char>) -> Option<Seq<Seq<char>>>;

/// The JSON text that `serde_json::to_string` writes for a list of texts.
pub uninterp spec fn json_text(list: Seq<Seq<char>>) -> Seq<char>;

/// `serde_json::from_str` for a list of strings: the list, or an error where
/// the text is no JSON array of strings.
#[verifier::external_body]
fn json_read(s: &str) -> (r: Result<Vec<String>, serde_json::Error>)
    ensures
        match r {
            Ok(v) => json_list(s@) == Some(text::texts(v@)),
            Err(_) => json_list(s@) is None,
        },
{
    serde_json::from_str::<Vec<String>>(s)
}

/// `serde_json::to_string` for a list of strings: a JSON array, in square
/// brackets, which reads back as the list. Writing strings never fails.
#[verifier::external_body]
fn json_write(list: &Vec<String>) -> (r: Option<String>)
    ensures
        r is Some,
        r->0@ == json_text(text::texts(list@)),
        json_list(r->0@) == Some(text::texts(list@)),
        r->0@.len() >= 2 && r->0@[0] == '[' && r->0@.last() == ']',
{
    serde_json::to_string(list).ok()
}

// ── Pattern lists ───────────────────────────────────────────────────────────

/// A list of patterns without white space around them, and without empty ones.
pub open spec fn cleaned(list: Seq<Seq<char>>) -> Seq<Seq<char>> {
    list.map_values(|p: Seq<char>| text::trimmed(p)).filter(|p: Seq<char>| p.len() > 0)
}

/// The patterns of a list, without the white space around them and without the
/// empty ones.
pub fn clean_patterns(list: &Vec<String>) -> (r: Vec<String>)
    ensures
        text::texts(r@) == cleaned(text::texts(list@)),
{
    let ghost all = text::texts(list@).map_values(|p: Seq<char>| text::trimmed(p));
    let ghost keep = |p: Seq<char>| p.len() > 0;
    let mut r: Vec<String> = Vec::new();
    let mut i: usize = 0;
    proof {
        reveal(Seq::filter);
        assert(all.take(0) =~= Seq::<Seq<char>>::empty());
        assert(text::texts(r@) =~= all.take(0).filter(keep));
    }
    while i < list.len()
        invariant
            i <= list@.len(),
            all == text::texts(list@).map_values(|p: Seq<char>| text::trimmed(p)),
            keep == (|p: Seq<char>| p.len() > 0),
            text::texts(r@) == all.take(i as int).filter(keep),
        decreases list@.len() - i,
    {
        let p: String = trim(&list[i]);
        proof {
            assert(text::texts(list@)[i as int] == list@[i as int]@);
            assert(all[i as int] == p@);
            assert(all.take(i + 1) =~= all.take(i as int).push(p@));
            all.take(i as int).lemma_filter_push(p@, keep);
        }
        if !p.as_str().is_empty() {
            let ghost before = text::texts(r@);
            r.push(p);
            assert(text::texts(r@) =~= before.push(p@));
        }
        i += 1;
    }
    assert(all.take(all.len() as int) =~= all);
    r
}

/// The patterns that a stored text holds: those of a JSON array, cleaned; none
/// where there is no text or it is no JSON array of strings.
pub open spec fn stored_patterns(raw: Option<Seq<char>>) -> Seq<Seq<char>> {
    match raw {
        None => Seq::empty(),
        Some(s) => if text::trimmed(s).len() == 0 {
            Seq::empty()
        } else {
            match json_list(text::trimmed(s)) {
                Some(list) => cleaned(list),
                None => Seq::empty(),
            }
        },
    }
}

/// Read a JSON array of patterns. White space around a pattern is dropped, and
/// so are empty patterns; anything that is no JSON array of strings counts as
/// no patterns.
pub fn parse_patterns_json(raw: Option<&str>) -> (r: Vec<String>)
    ensures
        text::texts(r@) == stored_patterns(raw.deep_view()),
{
    let none: Vec<String> = Vec::new();
    assert(text::texts(none@) =~= Seq::<Seq<char>>::empty());
    let s: String = match raw {
        None => {
            return none;
        },
        Some(s) => trim(s),
    };
    if s.as_str().is_empty() {
        return none;
    }
    match json_read(&s) {
        Ok(list) => clean_patterns(&list),
        Err(_) => none,
    }
}

/// Write patterns as a JSON array, cleaned; `None` where no pattern is left.
pub fn patterns_to_json(patterns: &Vec<String>) -> (r: Option<String>)
    ensures
        match r {
            Some(s) => {
                &&& cleaned(text::texts(patterns@)).len() > 0
                &&& s@ == json_text(cleaned(text::texts(patterns@)))
                &&& stored_patterns(Some(s@)) == cleaned(text::texts(patterns@))
            },
            None => cleaned(text::texts(patterns@)).len() == 0,
        },
{
    let list: Vec<String> = clean_patterns(patterns);
    assert(text::texts(list@).len() == list@.len());
    if list.len() == 0 {
        return None;
    }
    let r: Option<String> = json_write(&list);
    // A JSON array starts and ends with a bracket, and neither is white space.
    let _ = text::is_white_space('[');
    let _ = text::is_white_space(']');
    proof {
        let s = r->0@;
        text::lemma_trimmed_of_clean(s);
        lemma_cleaned_twice(text::texts(patterns@));
    }
    r
}

/// Cleaning cleaned patterns changes nothing.
pub proof fn lemma_cleaned_twice(list: Seq<Seq<char>>)
    ensures
        cleaned(cleaned(list)) == cleaned(list),
    decreases list.len(),
{
    let keep = |p: Seq<char>| p.len() > 0;
    let t = |p: Seq<char>| text::trimmed(p);
    reveal(Seq::filter);
    if list.len() == 0 {
        assert(cleaned(list) =~= Seq::<Seq<char>>::empty());
        assert(cleaned(cleaned(list)) =~= Seq::<Seq<char>>::empty());
    } else {
        let d = list.drop_last();
        lemma_cleaned_twice(d);
        let x = text::trimmed(list.last());
        assert(list.map_values(t).drop_last() =~= d.map_values(t));
        if keep(x) {
            assert(cleaned(list) =~= cleaned(d).push(x));
            text::lemma_trimmed_twice(list.last());
            assert(cleaned(list).map_values(t) =~= cleaned(d).map_values(t).push(x));
            cleaned(d).map_values(t).lemma_filter_push(x, keep);
        } else {
            assert(cleaned(list) =~= cleaned(d));
        }
    }
}

// ── Filter ──────────────────────────────────────────────────────────────────

/// The file name extensions of images and videos, in lower case.
pub open spec fn media_extensions() -> Seq<Seq<char>> {
    seq![
        "jpg"@,
        "jpeg"@,
        "png"@,
        "gif"@,
        "webp"@,
        "heic"@,
        "heif"@,
        "avif"@,
        "tiff"@,
        "bmp"@,
        "raw"@,
        "cr2"@,
        "cr3"@,
        "nef"@,
        "arw"@,
        "dng"@,
        "orf"@,
        "rw2"@,
        "pef"@,
        "srw"@,
        "raf"@,
        "mp4"@,
        "mov"@,
        "avi"@,
        "mkv"@,
        "webm"@,
        "m4v"@,
        "3gp"@,
        "mts"@,
        "m2ts"@,
    ]
}

/// File names that are never uploaded.
pub open spec fn system_names() -> Seq<Seq<char>> {
    seq!["Thumbs.db"@, "thumbs.db"@, "desktop.ini"@, ".DS_Store"@, "Zone.Identifier"@]
}

/// The texts of a list of string slices.
pub open spec fn slices(v: Seq<&'static str>) -> Seq<Seq<char>> {
    v.map_values(|s: &'static str| s@)
}

fn media_list() -> (r: Vec<&'static str>)
    ensures
        slices(r@) == media_extensions(),
{
    let r: Vec<&'static str> = vec![
        "jpg", "jpeg", "png", "gif", "webp", "heic", "heif", "avif", "tiff", "bmp", "raw", "cr2",
        "cr3", "nef", "arw", "dng", "orf", "rw2", "pef", "srw", "raf", "mp4", "mov", "avi", "mkv",
        "webm", "m4v", "3gp", "mts", "m2ts",
    ];
    assert(slices(r@) =~= media_extensions());
    r
}

fn system_list() -> (r: Vec<&'static str>)
    ensures
        slices(r@) == system_names(),
{
    let r: Vec<&'static str> = vec![
        "Thumbs.db", "thumbs.db", "desktop.ini", ".DS_Store", "Zone.Identifier",
    ];
    assert(slices(r@) =~= system_names());
    r
}

fn listed(list: &Vec<&'static str>, s: &str) -> (r: bool)
    ensures
        r == slices(list@).contains(s@),
{
    let mut i: usize = 0;
    while i < list.len()
        invariant
            i <= list@.len(),
            forall|j: int| 0 <= j < i ==> slices(list@)[j] != s@,
        decreases list@.len() - i,
    {
        assert(slices(list@)[i as int] == list@[i as int]@);
        if str_eq(list[i], s) {
            return true;
        }
        i += 1;
    }
    false
}

/// What the filesystem says of a file that is considered.
#[derive(Debug, Clone, Copy, PartialEq, Eq, Structural)]
pub struct FileFacts {
    pub size: u64,
    /// Whether the file is a cloud-storage placeholder.
    pub online: bool,
}

/// Decides which files are uploaded.
pub struct FileFilter {
    min_size: u64,
    ignore_online: bool,
    include_globs: Vec<String>,
    exclude_globs: Vec<String>,
}

/// The settings of a [`FileFilter`].
#[verifier::ext_equal]
pub struct FilterRules {
    /// Smallest size in bytes.
    pub min_size: u64,
    /// Whether cloud-storage placeholders are left out.
    pub ignore_online: bool,
    /// Patterns of which a path must match one, unless there are none.
    pub include_globs: Seq<Seq<char>>,
    /// Patterns of which a path must match none.
    pub exclude_globs: Seq<Seq<char>>,
}

impl View for FileFilter {
    type V = FilterRules;

    closed spec fn view(&self) -> FilterRules {
        FilterRules {
            min_size: self.min_size,
            ignore_online: self.ignore_online,
            include_globs: text::texts(self.include_globs@),
            exclude_globs: text::texts(self.exclude_globs@),
        }
    }
}

/// Whether a path lies in a trash directory.
pub open spec fn in_trash(path: Seq<char>) -> bool {
    paths::path_components(path).contains(TRASH_DIR_NAME@)
}

/// Whether a path is that of an image or video, and not in a trash directory.
pub open spec fn media_path(path: Seq<char>) -> bool {
    &&& !in_trash(path)
    &&& paths::path_file_name(path) matches Some(name)
    &&& !system_names().contains(name)
    &&& paths::name_extension(name) matches Some(ext)
    &&& media_extensions().contains(text::lowercase_text(ext))
}

/// Whether some pattern of the list matches the path.
pub open spec fn any_matches(patterns: Seq<Seq<char>>, path: Seq<char>) -> bool {
    exists|i: int| 0 <= i < patterns.len() && glob_matches(#[trigger] patterns[i], path)
}

/// Whether a file is uploaded: it is an image or video outside the trash, its
/// size is known and large enough, it is at hand where placeholders are left
/// out, no exclude pattern matches, and an include pattern matches if there is
/// any.
pub open spec fn included(f: FilterRules, path: Seq<char>, facts: Option<FileFacts>) -> bool {
    &&& media_path(path)
    &&& facts matches Some(s)
    &&& s.size >= f.min_size
    &&& !(f.ignore_online && s.online)
    &&& !any_matches(f.exclude_globs, path)
    &&& f.include_globs.len() == 0 || any_matches(f.include_globs, path)
}

/// The texts of the list that are patterns.
fn compile_all(patterns: &Vec<String>) -> (r: Vec<String>)
    ensures
        text::texts(r@) == text::texts(patterns@).filter(|p: Seq<char>| glob_compiles(p)),
{
    let ghost all = text::texts(patterns@);
    let ghost keep = |p: Seq<char>| glob_compiles(p);
    let mut r: Vec<String> = Vec::new();
    let mut i: usize = 0;
    proof {
        reveal(Seq::filter);
        assert(all.take(0) =~= Seq::<Seq<char>>::empty());
        assert(text::texts(r@) =~= all.take(0).filter(keep));
    }
    while i < patterns.len()
        invariant
            i <= patterns@.len(),
            all == text::texts(patterns@),
            keep == (|p: Seq<char>| glob_compiles(p)),
            text::texts(r@) == all.take(i as int).filter(keep),
        decreases patterns@.len() - i,
    {
        proof {
            assert(all[i as int] == patterns@[i as int]@);
            assert(all.take(i + 1) =~= all.take(i as int).push(all[i as int]));
            all.take(i as int).lemma_filter_push(all[i as int], keep);
        }
        if is_pattern(&patterns[i]) {
            let ghost before = text::texts(r@);
            r.push(patterns[i].clone());
            assert(text::texts(r@) =~= before.push(all[i as int]));
        }
        i += 1;
    }
    assert(all.take(all.len() as int) =~= all);
    r
}

/// Whether some pattern of the list matches the path.
fn some_match(patterns: &Vec<String>, path: &str) -> (r: bool)
    ensures
        r == any_matches(text::texts(patterns@), path@),
{
    let mut i: usize = 0;
    while i < patterns.len()
        invariant
            i <= patterns@.len(),
            forall|j: int| 0 <= j < i ==> !glob_matches(
                #[trigger] text::texts(patterns@)[j],
                path@,
            ),
        decreases patterns@.len() - i,
    {
        assert(text::texts(patterns@)[i as int] == patterns@[i as int]@);
        if pattern_matches(&patterns[i], path) {
            return true;
        }
        i += 1;
    }
    false
}

impl FileFilter {
    /// A filter for images and videos of at least [`DEFAULT_MIN_SIZE`] bytes.
    pub fn new() -> (r: FileFilter)
        ensures
            r@ == (FilterRules {
                min_size: DEFAULT_MIN_SIZE,
                ignore_online: false,
                include_globs: Seq::empty(),
                exclude_globs: Seq::empty(),
            }),
    {
        let r: FileFilter = FileFilter {
            min_size: DEFAULT_MIN_SIZE,
            ignore_online: false,
            include_globs: Vec::new(),
            exclude_globs: Vec::new(),
        };
        assert(r@ =~= (FilterRules {
            min_size: DEFAULT_MIN_SIZE,
            ignore_online: false,
            include_globs: Seq::empty(),
            exclude_globs: Seq::empty(),
        }));
        r
    }

    /// Replace the include patterns. Where there is any, a path must match one.
    /// Texts that are no patterns are left out.
    pub fn with_include_patterns(self, patterns: Vec<String>) -> (r: FileFilter)
        ensures
            r@ == (FilterRules {
                include_globs: text::texts(patterns@).filter(|p: Seq<char>| glob_compiles(p)),
                ..self@
            }),
    {
        let mut f: FileFilter = self;
        f.include_globs = compile_all(&patterns);
        f
    }

    /// Replace the exclude patterns. A path that matches one is left out. Texts
    /// that are no patterns are left out.
    pub fn with_exclude_patterns(self, patterns: Vec<String>) -> (r: FileFilter)
        ensures
            r@ == (FilterRules {
                exclude_globs: text::texts(patterns@).filter(|p: Seq<char>| glob_compiles(p)),
                ..self@
            }),
    {
        let mut f: FileFilter = self;
        f.exclude_globs = compile_all(&patterns);
        f
    }

    /// Replace the smallest size.
    pub fn with_min_size(self, bytes: u64) -> (r: FileFilter)
        ensures
            r@ == (FilterRules { min_size: bytes, ..self@ }),
    {
        let mut f: FileFilter = self;
        f.min_size = bytes;
        f
    }

    /// Say whether cloud-storage placeholders are left out.
    pub fn with_ignore_online_files(self, ignore: bool) -> (r: FileFilter)
        ensures
            r@ == (FilterRules { ignore_online: ignore, ..self@ }),
    {
        let mut f: FileFilter = self;
        f.ignore_online = ignore;
        f
    }

    /// Whether a path is that of an image or video outside the trash. This
    /// needs no look at the file.
    pub fn accepts_path(&self, path: &str) -> (r: bool)
        ensures
            r == media_path(path@),
    {
        let parts: Vec<String> = paths::components(path);
        let mut i: usize = 0;
        while i < parts.len()
            invariant
                i <= parts@.len(),
                text::texts(parts@) == paths::path_components(path@),
                forall|j: int| 0 <= j < i ==> paths::path_components(path@)[j] != TRASH_DIR_NAME@,
            decreases parts@.len() - i,
        {
            assert(text::texts(parts@)[i as int] == parts@[i as int]@);
            if str_eq(&parts[i], TRASH_DIR_NAME) {
                assert(in_trash(path@));
                return false;
            }
            i += 1;
        }
        assert(!in_trash(path@)) by {
            assert(text::texts(parts@).len() == parts@.len());
        }
        let name: String = match paths::file_name(path) {
            Some(n) => n,
            None => {
                return false;
            },
        };
        if listed(&system_list(), &name) {
            return false;
        }
        match paths::extension_of_name(&name) {
            Some(ext) => listed(&media_list(), &to_lowercase(&ext)),
            None => false,
        }
    }

    /// Whether a file is uploaded. `facts` is what the filesystem says of it,
    /// or nothing where it cannot say.
    pub fn should_include(&self, path: &str, facts: Option<FileFacts>) -> (r: bool)
        ensures
            r == included(self@, path@, facts),
    {
        if !self.accepts_path(path) {
            return false;
        }
        match facts {
            None => false,
            Some(s) => {
                if s.size < self.min_size || (self.ignore_online && s.online) {
                    return false;
                }
                if some_match(&self.exclude_globs, path) {
                    return false;
                }
                self.include_globs.len() == 0 || some_match(&self.include_globs, path)
            },
        }
    }
}

impl Default for FileFilter {
    fn default() -> (r: FileFilter)
        ensures
            r@ == (FilterRules {
                min_size: DEFAULT_MIN_SIZE,
                ignore_online: false,
                include_globs: Seq::empty(),
                exclude_globs: Seq::empty(),
            }),
    {
        FileFilter::new()
    }
}

/// Nothing in a trash directory is uploaded, whatever the patterns say.
pub proof fn law_trash_is_never_uploaded(f: FilterRules, path: Seq<char>, facts: Option<FileFacts>)
    requires
        in_trash(path),
    ensures
        !included(f, path, facts),
{
}

/// An exclude pattern wins over every include pattern.
pub proof fn law_exclude_wins(f: FilterRules, path: Seq<char>, facts: Option<FileFacts>, i: int)
    requires
        0 <= i < f.exclude_globs.len(),
        glob_matches(f.exclude_globs[i], path),
    ensures
        !included(f, path, facts),
{
}

/// The size of a file only matters as a lower bound: where a file is included,
/// every larger one in its place is.
pub proof fn law_size_is_only_a_lower_bound(
    f: FilterRules,
    path: Seq<char>,
    a: FileFacts,
    b: FileFacts,
)
    requires
        included(f, path, Some(a)),
        b.size >= a.size,
        b.online == a.online,
    ensures
        included(f, path, Some(b)),
{
}

/// A file of a supported extension, outside the trash and not named like a file
/// of the system, of any size that is large enough, at hand where placeholders
/// are left out, that no exclude pattern matches, is included where there are no
/// include patterns or one of them matches.
pub proof fn law_media_file_is_included(
    f: FilterRules,
    path: Seq<char>,
    facts: FileFacts,
    name: Seq<char>,
    ext: Seq<char>,
)
    requires
        paths::path_file_name(path) == Some(name),
        paths::name_extension(name) == Some(ext),
        media_extensions().contains(text::lowercase_text(ext)),
        !system_names().contains(name),
        forall|i: int|
            0 <= i < paths::path_components(path).len() ==> #[trigger] paths::path_components(
                path,
            )[i] != TRASH_DIR_NAME@,
        facts.size >= f.min_size,
        !f.ignore_online || !facts.online,
        forall|i: int|
            0 <= i < f.exclude_globs.len() ==> !glob_matches(#[trigger] f.exclude_globs[i], path),
        f.include_globs.len() == 0 || exists|i: int|
            0 <= i < f.include_globs.len() && glob_matches(#[trigger] f.include_globs[i], path),
    ensures
        included(f, path, Some(facts)),
        media_path(path),
{
}

/// A file is left out where its size is not known or too small, where it is a
/// placeholder and those are left out, where it has no name, a name of the
/// system's or no supported extension, and where include patterns are given and
/// none matches.
pub proof fn law_other_file_is_left_out(f: FilterRules, path: Seq<char>, facts: Option<FileFacts>)
    requires
        ({
            ||| facts is None
            ||| facts->0.size < f.min_size
            ||| f.ignore_online && facts->0.online
            ||| paths::path_file_name(path) is None
            ||| system_names().contains(paths::path_file_name(path)->0)
            ||| paths::name_extension(paths::path_file_name(path)->0) is None
            ||| !media_extensions().contains(
                text::lowercase_text(paths::name_extension(paths::path_file_name(path)->0)->0),
            )
            ||| f.include_globs.len() > 0 && forall|i: int|
                0 <= i < f.include_globs.len() ==> !glob_matches(
                    #[trigger] f.include_globs[i],
                    path,
                )
        }),
    ensures
        !included(f, path, facts),
{
}

/// Whether a file is a placeholder matters only where placeholders are left out.
pub proof fn law_placeholders_count_unless_ignored(
    f: FilterRules,
    path: Seq<char>,
    size: u64,
    online: bool,
)
    requires
        !f.ignore_online,
    ensures
        included(f, path, Some(FileFacts { size, online })) == included(
            f,
            path,
            Some(FileFacts { size, online: false }),
        ),
{
}

/// Images and videos are told by these extensions, in any case, and no others.
pub proof fn law_supported_extensions(e: Seq<char>)
    ensures
        media_extensions().contains(e) <==> {
            ||| e == "jpg"@ || e == "jpeg"@ || e == "png"@ || e == "gif"@ || e == "webp"@
            ||| e == "heic"@ || e == "heif"@ || e == "avif"@ || e == "tiff"@ || e == "bmp"@
            ||| e == "raw"@ || e == "cr2"@ || e == "cr3"@ || e == "nef"@ || e == "arw"@
            ||| e == "dng"@ || e == "orf"@ || e == "rw2"@ || e == "pef"@ || e == "srw"@
            ||| e == "raf"@ || e == "mp4"@ || e == "mov"@ || e == "avi"@ || e == "mkv"@
            ||| e == "webm"@ || e == "m4v"@ || e == "3gp"@ || e == "mts"@ || e == "m2ts"@
        },
        system_names().contains(e) <==> {
            ||| e == "Thumbs.db"@ || e == "thumbs.db"@ || e == "desktop.ini"@
            ||| e == ".DS_Store"@ || e == "Zone.Identifier"@
        },
{
    let m = media_extensions();
    assert(m[0] == "jpg"@ && m[1] == "jpeg"@ && m[2] == "png"@ && m[3] == "gif"@ && m[4]
        == "webp"@);
    assert(m[5] == "heic"@ && m[6] == "heif"@ && m[7] == "avif"@ && m[8] == "tiff"@ && m[9]
        == "bmp"@);
    assert(m[10] == "raw"@ && m[11] == "cr2"@ && m[12] == "cr3"@ && m[13] == "nef"@ && m[14]
        == "arw"@);
    assert(m[15] == "dng"@ && m[16] == "orf"@ && m[17] == "rw2"@ && m[18] == "pef"@ && m[19]
        == "srw"@);
    assert(m[20] == "raf"@ && m[21] == "mp4"@ && m[22] == "mov"@ && m[23] == "avi"@ && m[24]
        == "mkv"@);
    assert(m[25] == "webm"@ && m[26] == "m4v"@ && m[27] == "3gp"@ && m[28] == "mts"@ && m[29]
        == "m2ts"@);
    let n = system_names();
    assert(n[0] == "Thumbs.db"@ && n[1] == "thumbs.db"@ && n[2] == "desktop.ini"@ && n[3]
        == ".DS_Store"@ && n[4] == "Zone.Identifier"@);
}

/// Cleaning keeps the patterns in order, each without the white space around it,
/// and drops exactly those that are white space only.
pub proof fn law_patterns_are_cleaned_one_by_one(list: Seq<Seq<char>>, p: Seq<char>)
    ensures
        cleaned(Seq::empty()) == Seq::<Seq<char>>::empty(),
        text::trimmed(p).len() > 0 ==> cleaned(list.push(p)) == cleaned(list).push(text::trimmed(p)),
        text::trimmed(p).len() == 0 ==> cleaned(list.push(p)) == cleaned(list),
{
    reveal(Seq::filter);
    let keep = |p: Seq<char>| p.len() > 0;
    let t = |p: Seq<char>| text::trimmed(p);
    assert(Seq::<Seq<char>>::empty().map_values(t) =~= Seq::empty());
    assert(list.push(p).map_values(t) =~= list.map_values(t).push(text::trimmed(p)));
    list.map_values(t).lemma_filter_push(text::trimmed(p), keep);
}

/// The patterns that are read are those of the JSON array that the text holds,
/// white space around it aside; without a text, or where it is none, there are
/// none.
pub proof fn law_stored_patterns_are_read(raw: Seq<char>, list: Seq<Seq<char>>)
    ensures
        stored_patterns(None).len() == 0,
        text::trimmed(raw).len() == 0 || json_list(text::trimmed(raw)) is None ==> stored_patterns(
            Some(raw),
        ).len() == 0,
        text::trimmed(raw).len() > 0 && json_list(text::trimmed(raw)) == Some(list)
            ==> stored_patterns(Some(raw)) == cleaned(list),
        stored_patterns(Some(raw)) == cleaned(stored_patterns(Some(raw))),
{
    law_patterns_are_cleaned_one_by_one(Seq::empty(), raw);
    match json_list(text::trimmed(raw)) {
        Some(l) => lemma_cleaned_twice(l),
        None => {},
    }
}

} // verus!
