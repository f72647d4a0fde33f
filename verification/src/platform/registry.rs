//! The entry in the list of installed programs.

use vstd::prelude::*;

use crate::clock;
use crate::clock::{compact_date_text, CalendarDay};
use crate::config;
use crate::paths;
use crate::paths::child_path;
use crate::platform::install::{install_dir, InstallError, EXE_NAME, VERSION};
use crate::platform::wide;
use crate::platform::wide::{code_text, encode_reg_sz};
use crate::text;
use crate::text::{concat2, concat3};

verus! {

broadcast use vstd::seq::group_seq_axioms;

/// The key of the entry, below `HKEY_CURRENT_USER`.
pub const UNINSTALL_SUBKEY: &'static str = "Software\\Microsoft\\Windows\\CurrentVersion\\Uninstall\\ImmichSync";

/// The publisher that the list shows.
pub const PUBLISHER: &'static str = "Bee's Roadhouse";

/// Where the list sends users who want to know more.
pub const ABOUT_URL: &'static str = "https://github.com/bees-roadhouse/immichsync";

/// Where the list sends users who need help.
pub const HELP_URL: &'static str = "https://github.com/bees-roadhouse/immichsync/issues";

/// The values of the entry.
#[derive(Debug)]
pub struct UninstallRegistryValues {
    /// The name that is listed.
    pub display_name: String,
    /// The command that removes the program.
    pub uninstall_string: String,
    /// The command that removes it without asking.
    pub quiet_uninstall_string: String,
    pub display_version: String,
    pub publisher: String,
    /// Where the icon comes from.
    pub display_icon: String,
    /// The directory of the program.
    pub install_location: String,
    /// The day of the installation.
    pub install_date: String,
    /// The size in kilobytes.
    pub estimated_size_kb: u32,
    pub url_info_about: String,
    pub help_link: String,
    /// 1: the program cannot be modified.
    pub no_modify: u32,
    /// 1: the program cannot be repaired.
    pub no_repair: u32,
}

/// The size in kilobytes of so many bytes, rounded up; its low 32 bits.
pub open spec fn kilobytes(bytes: u64) -> int {
    ((bytes + 1023) / 1024) % 0x1_0000_0000
}

/// A text in double quotes.
pub open spec fn in_quotes(s: Seq<char>) -> Seq<char> {
    "\""@ + s + "\""@
}

/// Whether `v` are the values for a program of this size that was installed to
/// `dir` on `day`.
pub open spec fn describes_install(
    v: UninstallRegistryValues,
    dir: Seq<char>,
    day: CalendarDay,
    exe_size_bytes: u64,
) -> bool {
    let exe = in_quotes(paths::child(dir, EXE_NAME@));
    &&& v.display_name@ == "ImmichSync"@
    &&& v.uninstall_string@ == exe + " --uninstall"@
    &&& v.quiet_uninstall_string@ == exe + " --uninstall --silent"@
    &&& v.display_version@ == VERSION@
    &&& v.publisher@ == PUBLISHER@
    &&& v.display_icon@ == exe + ",0"@
    &&& v.install_location@ == dir
    &&& v.install_date@ == clock::compact_date(day)
    &&& v.estimated_size_kb == kilobytes(exe_size_bytes)
    &&& v.url_info_about@ == ABOUT_URL@
    &&& v.help_link@ == HELP_URL@
    &&& v.no_modify == 1
    &&& v.no_repair == 1
}

/// Whether `v` are the values for a program of this size that was installed on
/// `day` below the local application data directory `base`.
pub open spec fn describes_install_below(
    v: UninstallRegistryValues,
    base: Seq<char>,
    day: CalendarDay,
    exe_size_bytes: u64,
) -> bool {
    describes_install(v, config::program_dir(base), day, exe_size_bytes)
}

fn kilobytes_of(bytes: u64) -> (r: u32)
    ensures
        r == kilobytes(bytes),
{
    let kb: u64 = if bytes % 1024 == 0 {
        bytes / 1024
    } else {
        bytes / 1024 + 1
    };
    assert(kb == (bytes + 1023) / 1024);
    assert(kb as u32 == kb % 0x1_0000_0000) by (bit_vector);
    #[verifier::truncate]
    (kb as u32)
}

/// The values for a program that was installed to `dir`.
pub fn build_uninstall_registry_values(
    install_dir: &str,
    install_date: CalendarDay,
    exe_size_bytes: u64,
) -> (r: UninstallRegistryValues)
    ensures
        describes_install(r, install_dir@, install_date, exe_size_bytes),
{
    let exe: String = concat3("\"", &child_path(install_dir, EXE_NAME), "\"");
    UninstallRegistryValues {
        display_name: "ImmichSync".to_owned(),
        uninstall_string: concat2(&exe, " --uninstall"),
        quiet_uninstall_string: concat2(&exe, " --uninstall --silent"),
        display_version: VERSION.to_owned(),
        publisher: PUBLISHER.to_owned(),
        display_icon: concat2(&exe, ",0"),
        install_location: install_dir.to_owned(),
        install_date: compact_date_text(install_date),
        estimated_size_kb: kilobytes_of(exe_size_bytes),
        url_info_about: ABOUT_URL.to_owned(),
        help_link: HELP_URL.to_owned(),
        no_modify: 1,
        no_repair: 1,
    }
}

/// The values for this program, installed today. `exe_size_bytes` is the size of
/// the installed executable, 0 where it cannot be told.
pub fn write_uninstall_registry(exe_size_bytes: u64) -> (r: Result<
    UninstallRegistryValues,
    InstallError,
>)
    ensures
        match r {
            Ok(v) => exists|base: Seq<char>, day: CalendarDay|
                1 <= day.month <= 12 && 1 <= day.day <= 31 && #[trigger] describes_install_below(
                    v,
                    base,
                    day,
                    exe_size_bytes,
                ),
            Err(e) => e == InstallError::DataDir(config::ConfigError::NoDataDir),
        },
{
    let dir: String = match install_dir() {
        Ok(d) => d,
        Err(e) => {
            return Err(e);
        },
    };
    let ghost base = choose|base: Seq<char>| dir@ == #[trigger] config::program_dir(base);
    let day: CalendarDay = clock::today();
    let v: UninstallRegistryValues = build_uninstall_registry_values(&dir, day, exe_size_bytes);
    assert(describes_install_below(v, base, day, exe_size_bytes));
    let r: Result<UninstallRegistryValues, InstallError> = Ok(v);
    assert(describes_install_below(r->Ok_0, base, day, exe_size_bytes));
    r
}

// ── Writing ─────────────────────────────────────────────────────────────────

/// A value of the registry.
#[derive(Debug)]
pub enum RegistryValue {
    /// A text (`REG_SZ`).
    Text(String),
    /// A number (`REG_DWORD`).
    Number(u32),
}

/// A value of the registry with its name.
#[derive(Debug)]
pub struct RegistryWrite {
    pub name: String,
    pub value: RegistryValue,
}

/// The contents of a [`RegistryWrite`].
pub enum NamedValue {
    Text { name: Seq<char>, text: Seq<char> },
    Number { name: Seq<char>, number: u32 },
}

/// The contents of a [`RegistryWrite`].
pub open spec fn named_value(w: RegistryWrite) -> NamedValue {
    match w.value {
        RegistryValue::Text(t) => NamedValue::Text { name: w.name@, text: t@ },
        RegistryValue::Number(n) => NamedValue::Number { name: w.name@, number: n },
    }
}

/// The contents of several [`RegistryWrite`]s.
pub open spec fn named_values(v: Seq<RegistryWrite>) -> Seq<NamedValue> {
    v.map_values(|w: RegistryWrite| named_value(w))
}

/// What is written for the entry, in order.
pub open spec fn entry_values(v: UninstallRegistryValues) -> Seq<NamedValue> {
    seq![
        NamedValue::Text { name: "DisplayName"@, text: v.display_name@ },
        NamedValue::Text { name: "UninstallString"@, text: v.uninstall_string@ },
        NamedValue::Text { name: "QuietUninstallString"@, text: v.quiet_uninstall_string@ },
        NamedValue::Text { name: "DisplayVersion"@, text: v.display_version@ },
        NamedValue::Text { name: "Publisher"@, text: v.publisher@ },
        NamedValue::Text { name: "DisplayIcon"@, text: v.display_icon@ },
        NamedValue::Text { name: "InstallLocation"@, text: v.install_location@ },
        NamedValue::Text { name: "InstallDate"@, text: v.install_date@ },
        NamedValue::Text { name: "URLInfoAbout"@, text: v.url_info_about@ },
        NamedValue::Text { name: "HelpLink"@, text: v.help_link@ },
        NamedValue::Number { name: "EstimatedSize"@, number: v.estimated_size_kb },
        NamedValue::Number { name: "NoModify"@, number: v.no_modify },
        NamedValue::Number { name: "NoRepair"@, number: v.no_repair },
    ]
}

fn text_write(name: &str, value: &str) -> (r: RegistryWrite)
    ensures
        named_value(r) == (NamedValue::Text { name: name@, text: value@ }),
{
    RegistryWrite { name: name.to_owned(), value: RegistryValue::Text(value.to_owned()) }
}

fn number_write(name: &str, value: u32) -> (r: RegistryWrite)
    ensures
        named_value(r) == (NamedValue::Number { name: name@, number: value }),
{
    RegistryWrite { name: name.to_owned(), value: RegistryValue::Number(value) }
}

impl UninstallRegistryValues {
    /// What is written for the entry, in order.
    pub fn writes(&self) -> (r: Vec<RegistryWrite>)
        ensures
            named_values(r@) == entry_values(*self),
    {
        let mut r: Vec<RegistryWrite> = Vec::new();
        r.push(text_write("DisplayName", &self.display_name));
        r.push(text_write("UninstallString", &self.uninstall_string));
        r.push(text_write("QuietUninstallString", &self.quiet_uninstall_string));
        r.push(text_write("DisplayVersion", &self.display_version));
        r.push(text_write("Publisher", &self.publisher));
        r.push(text_write("DisplayIcon", &self.display_icon));
        r.push(text_write("InstallLocation", &self.install_location));
        r.push(text_write("InstallDate", &self.install_date));
        r.push(text_write("URLInfoAbout", &self.url_info_about));
        r.push(text_write("HelpLink", &self.help_link));
        r.push(number_write("EstimatedSize", self.estimated_size_kb));
        r.push(number_write("NoModify", self.no_modify));
        r.push(number_write("NoRepair", self.no_repair));
        assert(named_values(r@) =~= entry_values(*self));
        r
    }
}

/// The bytes of a number, the low byte first.
pub open spec fn low_first(n: u32) -> Seq<u8> {
    seq![(n % 256) as u8, (n / 0x100 % 256) as u8, (n / 0x10000 % 256) as u8, (n / 0x1000000) as u8]
}

impl RegistryValue {
    /// The bytes that the registry holds for a value.
    pub fn bytes(&self) -> (r: Vec<u8>)
        ensures
            r@ == (match *self {
                RegistryValue::Text(t) => wide::reg_sz(t@),
                RegistryValue::Number(n) => low_first(n),
            }),
    {
        match self {
            RegistryValue::Text(t) => encode_reg_sz(t),
            RegistryValue::Number(n) => {
                let mut r: Vec<u8> = Vec::new();
                r.push((*n % 256) as u8);
                r.push((*n / 0x100 % 256) as u8);
                r.push((*n / 0x10000 % 256) as u8);
                r.push((*n / 0x1000000) as u8);
                assert(r@ =~= low_first(*n));
                r
            },
        }
    }
}

// ── Results ─────────────────────────────────────────────────────────────────

/// Success.
pub const ERROR_SUCCESS: u32 = 0;

/// There is no such key or value.
pub const ERROR_FILE_NOT_FOUND: u32 = 2;

fn failed(what: &str, code: u32) -> (r: InstallError)
    ensures
        r matches InstallError::Io(m) && m@ == what@ + " failed: "@ + wide::code_of(code),
{
    InstallError::Io(concat3(what, " failed: ", &code_text(code)))
}

/// What creating the key of the entry means.
pub fn key_created(code: u32) -> (r: Result<(), InstallError>)
    ensures
        r is Ok == (code == ERROR_SUCCESS),
        r matches Err(e) ==> (e matches InstallError::Io(m) && m@ == "RegCreateKeyExW failed: "@
            + wide::code_of(code)),
{
    if code == ERROR_SUCCESS {
        Ok(())
    } else {
        Err(InstallError::Io(concat2("RegCreateKeyExW failed: ", &code_text(code))))
    }
}

/// What writing the value `name` means. The first that fails ends the writing.
pub fn value_written(name: &str, code: u32) -> (r: Result<(), InstallError>)
    ensures
        r is Ok == (code == ERROR_SUCCESS),
        r matches Err(e) ==> (e matches InstallError::Io(m) && m@ == "RegSetValueExW("@ + name@
            + ")"@ + " failed: "@ + wide::code_of(code)),
{
    if code == ERROR_SUCCESS {
        Ok(())
    } else {
        Err(failed(&concat3("RegSetValueExW(", name, ")"), code))
    }
}

/// What deleting the entry means. An entry that is not there is as good as
/// deleted.
pub fn delete_uninstall_registry(code: u32) -> (r: Result<(), InstallError>)
    ensures
        r is Ok == (code == ERROR_SUCCESS || code == ERROR_FILE_NOT_FOUND),
        r matches Err(e) ==> (e matches InstallError::Io(m) && m@ == "RegDeleteTreeW failed: "@
            + wide::code_of(code)),
{
    if code == ERROR_SUCCESS || code == ERROR_FILE_NOT_FOUND {
        Ok(())
    } else {
        Err(InstallError::Io(concat2("RegDeleteTreeW failed: ", &code_text(code))))
    }
}

// ── Laws ────────────────────────────────────────────────────────────────────

/// Sizes are given in kilobytes that hold the bytes, and not one more.
pub proof fn law_sizes_are_rounded_up(bytes: u64)
    requires
        bytes <= 0x3FF_FFFF_FC00,
    ensures
        1024 * kilobytes(bytes) >= bytes,
        bytes > 0 ==> 1024 * (kilobytes(bytes) - 1) < bytes,
        bytes == 0 ==> kilobytes(bytes) == 0,
{
}

/// The entry in the list of programs names the installation: the commands start
/// its executable, in quotes, to remove it, the silent one without asking.
pub proof fn law_entry_names_the_installation(
    v: UninstallRegistryValues,
    dir: Seq<char>,
    day: CalendarDay,
    exe_size_bytes: u64,
)
    requires
        describes_install(v, dir, day, exe_size_bytes),
    ensures
        v.display_name@ == "ImmichSync"@,
        v.uninstall_string@ == "\""@ + paths::child(dir, "immichsync.exe"@) + "\""@
            + " --uninstall"@,
        v.quiet_uninstall_string@ == "\""@ + paths::child(dir, "immichsync.exe"@) + "\""@
            + " --uninstall --silent"@,
        v.display_icon@ == "\""@ + paths::child(dir, "immichsync.exe"@) + "\""@ + ",0"@,
        v.display_version@ == VERSION@,
        v.install_location@ == dir,
        v.install_date@ == clock::compact_date(day),
        v.estimated_size_kb == kilobytes(exe_size_bytes),
        v.no_modify == 1 && v.no_repair == 1,
{
}

/// Every value of the entry is written, under its own name.
pub proof fn law_every_value_is_written(v: UninstallRegistryValues)
    ensures
        ({
            let e = entry_values(v);
            &&& e.len() == 13
            &&& e.contains(NamedValue::Text { name: "DisplayName"@, text: v.display_name@ })
            &&& e.contains(NamedValue::Text { name: "UninstallString"@, text: v.uninstall_string@ })
            &&& e.contains(NamedValue::Text {
                name: "QuietUninstallString"@,
                text: v.quiet_uninstall_string@,
            })
            &&& e.contains(NamedValue::Text { name: "DisplayVersion"@, text: v.display_version@ })
            &&& e.contains(NamedValue::Text { name: "Publisher"@, text: v.publisher@ })
            &&& e.contains(NamedValue::Text { name: "DisplayIcon"@, text: v.display_icon@ })
            &&& e.contains(NamedValue::Text { name: "InstallLocation"@, text: v.install_location@ })
            &&& e.contains(NamedValue::Text { name: "InstallDate"@, text: v.install_date@ })
            &&& e.contains(NamedValue::Text { name: "URLInfoAbout"@, text: v.url_info_about@ })
            &&& e.contains(NamedValue::Text { name: "HelpLink"@, text: v.help_link@ })
            &&& e.contains(NamedValue::Number {
                name: "EstimatedSize"@,
                number: v.estimated_size_kb,
            })
            &&& e.contains(NamedValue::Number { name: "NoModify"@, number: v.no_modify })
            &&& e.contains(NamedValue::Number { name: "NoRepair"@, number: v.no_repair })
        }),
{
    let e = entry_values(v);
    assert(e[0] == NamedValue::Text { name: "DisplayName"@, text: v.display_name@ });
    assert(e[1] == NamedValue::Text { name: "UninstallString"@, text: v.uninstall_string@ });
    assert(e[2] == NamedValue::Text {
        name: "QuietUninstallString"@,
        text: v.quiet_uninstall_string@,
    });
    assert(e[3] == NamedValue::Text { name: "DisplayVersion"@, text: v.display_version@ });
    assert(e[4] == NamedValue::Text { name: "Publisher"@, text: v.publisher@ });
    assert(e[5] == NamedValue::Text { name: "DisplayIcon"@, text: v.display_icon@ });
    assert(e[6] == NamedValue::Text { name: "InstallLocation"@, text: v.install_location@ });
    assert(e[7] == NamedValue::Text { name: "InstallDate"@, text: v.install_date@ });
    assert(e[8] == NamedValue::Text { name: "URLInfoAbout"@, text: v.url_info_about@ });
    assert(e[9] == NamedValue::Text { name: "HelpLink"@, text: v.help_link@ });
    assert(e[10] == NamedValue::Number { name: "EstimatedSize"@, number: v.estimated_size_kb });
    assert(e[11] == NamedValue::Number { name: "NoModify"@, number: v.no_modify });
    assert(e[12] == NamedValue::Number { name: "NoRepair"@, number: v.no_repair });
}

/// A number is written in four bytes, the lowest first.
pub proof fn law_numbers_are_written_low_byte_first(n: u32)
    ensures
        low_first(n).len() == 4,
        low_first(n)[0] + 0x100 * low_first(n)[1] + 0x10000 * low_first(n)[2] + 0x1000000
            * low_first(n)[3] == n,
        low_first(n)[0] == n % 256,
{
}

} // verus!
