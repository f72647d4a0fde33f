//! File paths as text.
//!
//! Paths are Windows paths. Taking a path apart is done by `std::path`, whose
//! separators are those of the platform that the crate is built for; putting a
//! known name under a directory is done here.

use vstd::prelude::*;

use crate::text;
use crate::text::{chars_of, concat2, concat3, ends_with_char, str_eq, string_of};

verus! {

broadcast use vstd::seq::group_seq_axioms;

/// The final component of a path, as `std::path::Path::file_name` gives it.
pub uninterp spec fn path_file_name(path: Seq<char>) -> Option<Seq<char>>;

/// A path without its final component, as `std::path::Path::parent` gives it.
pub uninterp spec fn path_parent(path: Seq<char>) -> Option<Seq<char>>;

/// The components of a path, as `std::path::Path::components` gives them.
pub uninterp spec fn path_components(path: Seq<char>) -> Seq<Seq<char>>;

/// What is left of a path below a base, as `std::path::Path::strip_prefix`
/// gives it; nothing where the base is no prefix of the path.
pub uninterp spec fn path_below(path: Seq<char>, base: Seq<char>) -> Option<Seq<char>>;

/// A path adjoined to a base, as `std::path::Path::join` gives it.
pub uninterp spec fn path_joined(base: Seq<char>, tail: Seq<char>) -> Seq<char>;

/// A path with another extension, as `std::path::Path::with_extension` gives it.
pub uninterp spec fn path_with_extension(path: Seq<char>, ext: Seq<char>) -> Seq<char>;

/// `std::path::Path::with_extension`: the path with its extension replaced. An
/// extension that holds a separator would panic.
#[verifier::external_body]
pub(crate) fn with_extension(path: &str, ext: &str) -> (r: String)
    requires
        !ext@.contains('/'),
        !ext@.contains('\\'),
    ensures
        r@ == path_with_extension(path@, ext@),
{
    std::path::Path::new(path).with_extension(ext).to_string_lossy().into_owned()
}

/// `std::path::Path::file_name`: the final component of the path, `None` where
/// it ends in a root, a prefix or `..`.
#[verifier::external_body]
pub(crate) fn file_name(path: &str) -> (r: Option<String>)
    ensures
        text::opt_text(r) == path_file_name(path@),
{
    std::path::Path::new(path).file_name().map(|n| n.to_string_lossy().into_owned())
}

/// `std::path::Path::parent`: the path without its final component, `None`
/// where it ends in a root or prefix, or is empty. What is left is shorter.
#[verifier::external_body]
pub(crate) fn parent(path: &str) -> (r: Option<String>)
    ensures
        text::opt_text(r) == path_parent(path@),
        r matches Some(p) ==> p@.len() < path@.len(),
{
    std::path::Path::new(path).parent().map(|p| p.to_string_lossy().into_owned())
}

/// `std::path::Path::components`: the components of the path, in order.
#[verifier::external_body]
pub(crate) fn components(path: &str) -> (r: Vec<String>)
    ensures
        text::texts(r@) == path_components(path@),
{
    std::path::Path::new(path).components().map(|c| c.as_os_str().to_string_lossy().into_owned()).collect()
}

/// `std::path::Path::strip_prefix`: the part of the path below the base, `None`
/// where the path does not start with the base.
#[verifier::external_body]
pub(crate) fn strip_base(path: &str, base: &str) -> (r: Option<String>)
    ensures
        text::opt_text(r) == path_below(path@, base@),
{
    match std::path::Path::new(path).strip_prefix(base) {
        Ok(p) => Some(p.to_string_lossy().into_owned()),
        Err(_) => None,
    }
}

/// `std::path::Path::join`: the tail adjoined to the base.
#[verifier::external_body]
pub(crate) fn join(base: &str, tail: &str) -> (r: String)
    ensures
        r@ == path_joined(base@, tail@),
{
    std::path::Path::new(base).join(tail).to_string_lossy().into_owned()
}

/// A path in quotes with its special characters escaped, as the `Debug` format
/// of `std::path::Path` gives it.
pub uninterp spec fn path_quoted(path: Seq<char>) -> Seq<char>;

/// The `Debug` format of `std::path::Path`: the path in quotes, with its special
/// characters escaped.
#[verifier::external_body]
pub(crate) fn quoted(path: &str) -> (r: String)
    ensures
        r@ == path_quoted(path@),
{
    format!("{:?}", std::path::Path::new(path))
}

/// The letter of a drive, as it counts where paths are compared: drives are named
/// without regard to case.
pub open spec fn drive_upper(c: char) -> char {
    if 'a' <= c && c <= 'z' {
        (c as u32 - 32) as char
    } else {
        c
    }
}

/// Where the letter of the drive stands in a component that names one: `C:`, or
/// `\\?\C:` in an extended-length path.
pub open spec fn drive_at(component: Seq<char>) -> Option<int> {
    if component.len() == 2 && component[1] == ':' {
        Some(0)
    } else if component.len() == 6 && component[5] == ':' && component.take(4) == "\\\\?\\"@ {
        Some(4)
    } else {
        None
    }
}

/// A component that begins a path, with its separators made equal: those of the
/// prefix of a network path may be of either kind. In an extended-length path
/// they count as they are spelled, and a lone separator is the root.
pub open spec fn even_separators(component: Seq<char>) -> Seq<char> {
    if component.len() < 2 || (component.len() > 2 && component[2] == '?') {
        component
    } else {
        component.map_values(
            |c: char|
                if c == '/' {
                    '\\'
                } else {
                    c
                },
        )
    }
}

/// The component that begins a path, as it counts where paths are compared.
pub open spec fn compared(component: Seq<char>) -> Seq<char> {
    match drive_at(component) {
        Some(i) => component.update(i, drive_upper(component[i])),
        None => even_separators(component),
    }
}

/// What tells paths apart: their components, the drive without regard to case and
/// the prefix without regard to the kind of its separators.
pub open spec fn path_key(path: Seq<char>) -> Seq<Seq<char>> {
    let c = path_components(path);
    if c.len() > 0 {
        c.update(0, compared(c[0]))
    } else {
        c
    }
}

/// What tells the paths of a list apart.
pub open spec fn path_keys(v: Seq<Seq<char>>) -> Seq<Seq<Seq<char>>> {
    v.map_values(|p: Seq<char>| path_key(p))
}

/// Whether two paths are the same: whether they have the same components, but for
/// the case of the drive and the separators of the prefix.
pub open spec fn same_components(a: Seq<char>, b: Seq<char>) -> bool {
    path_key(a) == path_key(b)
}

fn upper_drive(c: char) -> (r: char)
    ensures
        r == drive_upper(c),
{
    match c {
        'a' => 'A', 'b' => 'B', 'c' => 'C', 'd' => 'D', 'e' => 'E', 'f' => 'F', 'g' => 'G',
        'h' => 'H', 'i' => 'I', 'j' => 'J', 'k' => 'K', 'l' => 'L', 'm' => 'M', 'n' => 'N',
        'o' => 'O', 'p' => 'P', 'q' => 'Q', 'r' => 'R', 's' => 'S', 't' => 'T', 'u' => 'U',
        'v' => 'V', 'w' => 'W', 'x' => 'X', 'y' => 'Y', 'z' => 'Z', _ => c,
    }
}

fn evened(component: &str) -> (r: String)
    ensures
        r@ == even_separators(component@),
{
    let v: Vec<char> = chars_of(component);
    if v.len() < 2 || (v.len() > 2 && v[2] == '?') {
        return component.to_owned();
    }
    let mut r: String = String::new();
    let mut i: usize = 0;
    while i < v.len()
        invariant
            i <= v@.len(),
            v@ == component@,
            component@.len() >= 2,
            !(component@.len() > 2 && component@[2] == '?'),
            r@ =~= even_separators(component@).take(i as int),
        decreases v@.len() - i,
    {
        if v[i] == '/' {
            r.push('\\');
        } else {
            r.push(v[i]);
        }
        i += 1;
    }
    assert(even_separators(component@).take(v@.len() as int) =~= even_separators(component@));
    r
}

/// The component that begins a path, as it counts where paths are compared.
fn compared_component(component: &str) -> (r: String)
    ensures
        r@ == compared(component@),
{
    let v: Vec<char> = chars_of(component);
    let at: usize = if v.len() == 2 && v[1] == ':' {
        0
    } else if v.len() == 6 && v[5] == ':' && v[0] == '\\' && v[1] == '\\' && v[2] == '?' && v[3]
        == '\\' {
        proof {
            reveal_strlit("\\\\?\\");
            assert(component@.take(4) =~= "\\\\?\\"@);
        }
        4
    } else {
        proof {
            reveal_strlit("\\\\?\\");
            if drive_at(component@) is Some {
                let t = component@.take(4);
                assert(t[0] == '\\' && t[1] == '\\' && t[2] == '?' && t[3] == '\\');
            }
        }
        return evened(component);
    };
    let mut w: Vec<char> = v;
    let c: char = upper_drive(w[at]);
    w.set(at, c);
    let n: usize = w.len();
    let r: String = string_of(&w, 0, n);
    assert(r@ =~= compared(component@));
    r
}

/// What tells a path apart.
fn key_components(path: &str) -> (r: Vec<String>)
    ensures
        text::texts(r@) == path_key(path@),
{
    let mut v: Vec<String> = components(path);
    let ghost c = path_components(path@);
    assert(c.len() == v@.len());
    if v.len() > 0 {
        assert(c[0] == v@[0]@);
        let first: String = compared_component(&v[0]);
        v.set(0, first);
    }
    assert(text::texts(v@) =~= path_key(path@));
    v
}

/// Whether two paths are the same.
pub fn same_path(a: &str, b: &str) -> (r: bool)
    ensures
        r == same_components(a@, b@),
{
    let v: Vec<String> = key_components(a);
    let w: Vec<String> = key_components(b);
    let ghost x = path_key(a@);
    let ghost y = path_key(b@);
    assert(x.len() == v@.len() && y.len() == w@.len());
    if v.len() != w.len() {
        return false;
    }
    let mut i: usize = 0;
    while i < v.len()
        invariant
            i <= v@.len(),
            v@.len() == w@.len(),
            x == path_key(a@),
            y == path_key(b@),
            x == text::texts(v@),
            y == text::texts(w@),
            forall|j: int| 0 <= j < i ==> x[j] == y[j],
        decreases v@.len() - i,
    {
        assert(x[i as int] == v@[i as int]@);
        assert(y[i as int] == w@[i as int]@);
        if !str_eq(&v[i], &w[i]) {
            return false;
        }
        i += 1;
    }
    assert(x =~= y);
    true
}

/// Whether a text ends in a path separator.
pub open spec fn ends_in_separator(s: Seq<char>) -> bool {
    s.len() > 0 && (s.last() == '\\' || s.last() == '/')
}

/// Whether a path names a drive, but no directory of it.
pub open spec fn bare_drive(s: Seq<char>) -> bool {
    s.len() == 2 && s[1] == ':' && ('a' <= s[0] <= 'z' || 'A' <= s[0] <= 'Z')
}

/// The path of the entry `name` of the directory `dir`. After a drive without a
/// directory there is no separator: `C:x` lies where the drive stands.
pub open spec fn child(dir: Seq<char>, name: Seq<char>) -> Seq<char> {
    if dir.len() == 0 || ends_in_separator(dir) || bare_drive(dir) {
        dir + name
    } else {
        dir + "\\"@ + name
    }
}

fn is_bare_drive(s: &str) -> (r: bool)
    ensures
        r == bare_drive(s@),
{
    let v: Vec<char> = chars_of(s);
    v.len() == 2 && v[1] == ':' && (('a' <= v[0] && v[0] <= 'z') || ('A' <= v[0] && v[0] <= 'Z'))
}

/// The path of the entry `name` of the directory `dir`.
pub fn child_path(dir: &str, name: &str) -> (r: String)
    ensures
        r@ == child(dir@, name@),
{
    if dir.is_empty() || ends_with_char(dir, '\\') || ends_with_char(dir, '/') || is_bare_drive(
        dir,
    ) {
        concat2(dir, name)
    } else {
        concat3(dir, "\\", name)
    }
}

/// The position of the last `.` of `s`, or -1.
pub open spec fn last_dot(s: Seq<char>) -> int
    decreases s.len(),
{
    if s.len() == 0 {
        -1
    } else if s.last() == '.' {
        s.len() - 1
    } else {
        last_dot(s.drop_last())
    }
}

/// The extension of a file name: what follows its last dot, unless there is no
/// dot or the only one starts the name.
pub open spec fn name_extension(name: Seq<char>) -> Option<Seq<char>> {
    let k = last_dot(name);
    if k <= 0 || name == seq!['.', '.'] {
        None
    } else {
        Some(name.skip(k + 1))
    }
}

/// The extension of a path: that of its final component.
pub open spec fn path_extension(path: Seq<char>) -> Option<Seq<char>> {
    match path_file_name(path) {
        Some(name) => name_extension(name),
        None => None,
    }
}

/// The extension of a file name.
pub fn extension_of_name(name: &str) -> (r: Option<String>)
    ensures
        text::opt_text(r) == name_extension(name@),
{
    let v: Vec<char> = chars_of(name);
    if v.len() == 2 && v[0] == '.' && v[1] == '.' {
        assert(name@ =~= seq!['.', '.']);
        return None;
    }
    let mut n: usize = v.len();
    assert(v@.take(n as int) =~= name@);
    while n > 0 && v[n - 1] != '.'
        invariant
            n <= v@.len(),
            v@ == name@,
            last_dot(v@.take(n as int)) == last_dot(name@),
        decreases n,
    {
        assert(v@.take(n as int).drop_last() =~= v@.take(n - 1));
        n -= 1;
    }
    assert(name@ != seq!['.', '.']) by {
        if name@ == seq!['.', '.'] {
            assert(v@[0] == '.' && v@[1] == '.');
        }
    }
    if n <= 1 {
        assert(last_dot(name@) <= 0) by {
            if n == 1 {
                assert(v@.take(1).last() == '.');
            }
        }
        return None;
    }
    assert(v@.take(n as int).last() == '.');
    let r: String = string_of(&v, n, v.len());
    assert(r@ =~= name@.skip(n as int));
    Some(r)
}

/// The extension of a path.
pub fn extension(path: &str) -> (r: Option<String>)
    ensures
        text::opt_text(r) == path_extension(path@),
{
    match file_name(path) {
        Some(name) => extension_of_name(&name),
        None => None,
    }
}

// ── Laws ────────────────────────────────────────────────────────────────────

/// A child's path is that of the directory and the name, with one backslash
/// between them unless the directory ends in a separator, is a bare drive or is
/// empty.
pub proof fn law_child_is_below_its_directory(dir: Seq<char>, name: Seq<char>)
    ensures
        dir.is_prefix_of(child(dir, name)),
        name == child(dir, name).skip(child(dir, name).len() - name.len()),
        child(Seq::empty(), name) == name,
        dir.len() > 0 && (dir.last() == '\\' || dir.last() == '/') ==> child(dir, name) == dir
            + name,
        dir.len() > 0 && dir.last() != '\\' && dir.last() != '/' && dir.last() != ':' ==> child(
            dir,
            name,
        ) == dir.push('\\') + name,
        dir.len() == 2 && dir[1] == ':' && ('a' <= dir[0] <= 'z' || 'A' <= dir[0] <= 'Z') ==> child(
            dir,
            name,
        ) == dir + name,
{
    reveal_strlit("\\");
    let r = child(dir, name);
    assert(Seq::<char>::empty() + name =~= name);
    assert(r.take(dir.len() as int) =~= dir);
    assert(r.skip(r.len() - name.len()) =~= name);
    assert(dir + "\\"@ + name =~= dir.push('\\') + name);
}

proof fn lemma_last_dot(s: Seq<char>, k: int)
    requires
        0 <= k < s.len(),
        s[k] == '.',
        forall|i: int| k < i < s.len() ==> #[trigger] s[i] != '.',
    ensures
        last_dot(s) == k,
    decreases s.len(),
{
    if k < s.len() - 1 {
        assert(s.last() == s[s.len() - 1]);
        let d = s.drop_last();
        assert forall|i: int| k < i < d.len() implies #[trigger] d[i] != '.' by {
            assert(d[i] == s[i]);
        }
        lemma_last_dot(d, k);
    }
}

proof fn lemma_no_dot(s: Seq<char>)
    requires
        forall|i: int| 0 <= i < s.len() ==> #[trigger] s[i] != '.',
    ensures
        last_dot(s) == -1,
    decreases s.len(),
{
    if s.len() > 0 {
        assert(s.last() == s[s.len() - 1]);
        let d = s.drop_last();
        assert forall|i: int| 0 <= i < d.len() implies #[trigger] d[i] != '.' by {
            assert(d[i] == s[i]);
        }
        lemma_no_dot(d);
    }
}

/// The extension of a name is what follows its last dot, where something stands
/// before that dot.
pub proof fn law_extension_follows_the_last_dot(stem: Seq<char>, ext: Seq<char>)
    requires
        stem.len() > 0,
        forall|i: int| 0 <= i < ext.len() ==> #[trigger] ext[i] != '.',
        stem != seq!['.'] || ext.len() > 0,
    ensures
        name_extension(stem.push('.') + ext) == Some(ext),
{
    let s = stem.push('.') + ext;
    let k = stem.len() as int;
    assert forall|i: int| k < i < s.len() implies #[trigger] s[i] != '.' by {
        assert(s[i] == ext[i - k - 1]);
    }
    lemma_last_dot(s, k);
    assert(s.skip(k + 1) =~= ext);
    if s == seq!['.', '.'] {
        assert(s.len() == 2);
        assert(stem =~= seq!['.']);
    }
}

/// A name without a dot, or with one at its front only, has no extension.
pub proof fn law_name_without_dot_has_no_extension(name: Seq<char>)
    requires
        forall|i: int| 0 < i < name.len() ==> #[trigger] name[i] != '.',
    ensures
        name_extension(name) is None,
{
    if name.len() > 0 && name[0] == '.' {
        lemma_last_dot(name, 0);
    } else {
        lemma_no_dot(name);
    }
}

/// Two paths are the same where their components are, and only where they have as
/// many and these agree after the first; of the first, the case of a drive letter
/// does not count.
pub proof fn law_same_path_goes_by_components(a: Seq<char>, b: Seq<char>, i: int)
    ensures
        path_components(a) == path_components(b) ==> same_components(a, b),
        same_components(a, b) ==> path_components(a).len() == path_components(b).len(),
        same_components(a, b) && 0 < i < path_components(a).len() ==> path_components(a)[i]
            == path_components(b)[i],
        same_components(a, b) && path_components(a).len() > 0 ==> compared(path_components(a)[0])
            == compared(path_components(b)[0]),
        path_components(a).len() > 0 && path_components(a).len() == path_components(b).len()
            && compared(path_components(a)[0]) == compared(path_components(b)[0]) && (forall|k: int|
            0 < k < path_components(a).len() ==> #[trigger] path_components(a)[k]
                == path_components(b)[k]) ==> same_components(a, b),
{
    let x = path_components(a);
    let y = path_components(b);
    if same_components(a, b) {
        assert(path_key(a).len() == x.len());
        assert(path_key(b).len() == y.len());
        if x.len() > 0 {
            assert(path_key(a)[0] == compared(x[0]));
            assert(path_key(b)[0] == compared(y[0]));
        }
        if 0 < i < x.len() {
            assert(path_key(a)[i] == x[i]);
            assert(path_key(b)[i] == y[i]);
        }
    }
    if x.len() > 0 && x.len() == y.len() && compared(x[0]) == compared(y[0]) && (forall|k: int|
        0 < k < x.len() ==> #[trigger] x[k] == y[k]) {
        assert(path_key(a) =~= path_key(b));
    }
}

/// A drive is the same in either case of its letter; drives of different letters
/// are not the same.
pub proof fn law_drive_letters_ignore_case(a: char, b: char)
    requires
        'a' <= a <= 'z' || 'A' <= a <= 'Z',
        'a' <= b <= 'z' || 'A' <= b <= 'Z',
    ensures
        compared(seq![a, ':']) == compared(seq![b, ':']) <==> a == b || a as int == b as int + 32
            || b as int == a as int + 32,
{
    let x = seq![a, ':'];
    let y = seq![b, ':'];
    assert(compared(x)[0] == drive_upper(a));
    assert(compared(y)[0] == drive_upper(b));
    if drive_upper(a) == drive_upper(b) {
        assert(compared(x) =~= compared(y));
    }
}

/// A first component that is no drive counts as it is written, but for the
/// separators in it, which are all alike.
pub proof fn law_other_components_count_as_written(c: Seq<char>, i: int)
    requires
        drive_at(c) is None,
        0 <= i < c.len(),
    ensures
        compared(c).len() == c.len(),
        c[i] != '/' ==> compared(c)[i] == c[i],
        c[i] == '/' && c.len() >= 2 && (c.len() == 2 || c[2] != '?') ==> compared(c)[i] == '\\',
        c.len() < 2 || (c.len() > 2 && c[2] == '?') ==> compared(c) == c,
{
}

/// A drive is the same in either case of its letter in its extended-length spelling
/// too.
pub proof fn law_extended_drive_letters_ignore_case(a: char, b: char)
    requires
        'a' <= a <= 'z' || 'A' <= a <= 'Z',
        'a' <= b <= 'z' || 'A' <= b <= 'Z',
    ensures
        compared("\\\\?\\"@ + seq![a, ':']) == compared("\\\\?\\"@ + seq![b, ':']) <==> a == b || a as int
            == b as int + 32 || b as int == a as int + 32,
{
    reveal_strlit("\\\\?\\");
    let x = "\\\\?\\"@ + seq![a, ':'];
    let y = "\\\\?\\"@ + seq![b, ':'];
    assert(x.take(4) =~= "\\\\?\\"@);
    assert(y.take(4) =~= "\\\\?\\"@);
    assert(compared(x)[4] == drive_upper(a));
    assert(compared(y)[4] == drive_upper(b));
    if drive_upper(a) == drive_upper(b) {
        assert(compared(x) =~= compared(y));
    }
}

} // verus!
