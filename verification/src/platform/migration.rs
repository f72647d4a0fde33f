//! Moving the data of earlier releases to where it is kept now.
//!
//! The first releases kept everything in `%APPDATA%\ImmichSync`, later ones in
//! `%APPDATA%\bees-roadhouse\immichsync`. Now the configuration is roaming and
//! the database and the logs are local. What is already in its new place is
//! never overwritten.

use vstd::prelude::*;

use crate::config;
use crate::config::{app_dir_in, local_base, roaming_base, ConfigError};
use crate::paths;
use crate::paths::{child_path, same_path};
use crate::platform::install::InstallError;
use crate::text;

verus! {

broadcast use vstd::seq::group_seq_axioms;

/// Whether a file is in its old and in its new place.
#[derive(Debug, Clone, Copy, PartialEq, Eq, Structural)]
pub struct FileState {
    pub source_exists: bool,
    pub dest_exists: bool,
}

/// An entry of the old directory of logs.
#[derive(Debug)]
pub struct LogFile {
    pub name: String,
    /// Whether it is a file.
    pub is_file: bool,
    /// Whether the new directory holds one of this name.
    pub dest_exists: bool,
}

/// The directories of logs.
#[derive(Debug)]
pub struct LogsState {
    pub new_dir_exists: bool,
    /// The entries of the old directory.
    pub files: Vec<LogFile>,
}

/// What is in the old and the new places.
#[derive(Debug)]
pub struct LayoutState {
    pub config: FileState,
    pub database: FileState,
    pub write_ahead_log: FileState,
    pub shared_memory: FileState,
    /// `None` where there is no old directory of logs.
    pub logs: Option<LogsState>,
}

/// A file that changes its place.
#[derive(Debug)]
pub struct Transfer {
    pub from: String,
    pub to: String,
}

/// How the logs change their place.
#[derive(Debug)]
pub struct LogsPlan {
    /// The directory to create first. Where that fails, the logs stay.
    pub create_dir: Option<String>,
    pub transfers: Vec<Transfer>,
    /// The directory to remove at the end, if it is empty.
    pub remove_dir: Option<String>,
}

/// How the data changes its place. A transfer that fails stops no other.
#[derive(Debug)]
pub struct MigrationPlan {
    /// Whether the files are copied, so that the old ones stay. Otherwise they
    /// are moved.
    pub keep_source: bool,
    pub transfers: Vec<Transfer>,
    pub logs: Option<LogsPlan>,
}

/// The old and the new place of a file.
pub struct Route {
    pub from: Seq<char>,
    pub to: Seq<char>,
}

/// The places that a transfer names.
pub open spec fn route(t: Transfer) -> Route {
    Route { from: t.from@, to: t.to@ }
}

/// The places that transfers name.
pub open spec fn routes(v: Seq<Transfer>) -> Seq<Route> {
    v.map_values(|t: Transfer| route(t))
}

/// Whether a file changes its place: it is in the old one, and not in the new
/// one.
pub open spec fn wanted(f: FileState) -> bool {
    f.source_exists && !f.dest_exists
}

/// The transfer of the file `name`, if it changes its place.
pub open spec fn routed(old: Seq<char>, new: Seq<char>, name: Seq<char>, f: FileState) -> Seq<Route> {
    if wanted(f) {
        seq![Route { from: paths::child(old, name), to: paths::child(new, name) }]
    } else {
        Seq::empty()
    }
}

/// The transfers of the database and its companions.
pub open spec fn database_routes(old: Seq<char>, new: Seq<char>, s: LayoutState) -> Seq<Route> {
    routed(old, new, "state.db"@, s.database) + routed(
        old,
        new,
        "state.db-wal"@,
        s.write_ahead_log,
    ) + routed(old, new, "state.db-shm"@, s.shared_memory)
}

/// The transfers of the logs.
pub open spec fn log_routes(old: Seq<char>, new: Seq<char>, files: Seq<LogFile>) -> Seq<Route>
    decreases files.len(),
{
    if files.len() == 0 {
        Seq::empty()
    } else {
        let f = files.last();
        let before = log_routes(old, new, files.drop_last());
        if f.is_file && !f.dest_exists {
            before.push(Route { from: paths::child(old, f.name@), to: paths::child(new, f.name@) })
        } else {
            before
        }
    }
}

/// Whether `p` is the plan for the logs below `old` and `new`. The old directory
/// is removed where `empties` says so.
pub open spec fn is_logs_plan(
    p: Option<LogsPlan>,
    old: Seq<char>,
    new: Seq<char>,
    logs: Option<LogsState>,
    empties: bool,
) -> bool {
    let from = paths::child(old, "logs"@);
    let to = paths::child(new, "logs"@);
    match logs {
        None => p is None,
        Some(l) => {
            &&& p is Some
            &&& text::opt_text(p->0.create_dir) == (if l.new_dir_exists {
                None
            } else {
                Some(to)
            })
            &&& routes(p->0.transfers@) == log_routes(from, to, l.files@)
            &&& text::opt_text(p->0.remove_dir) == (if empties {
                Some(from)
            } else {
                None
            })
        },
    }
}

/// The transfers of the logs, where there is an old directory of logs.
pub open spec fn logs_routes(old: Seq<char>, new: Seq<char>, logs: Option<LogsState>) -> Seq<Route> {
    match logs {
        Some(l) => log_routes(paths::child(old, "logs"@), paths::child(new, "logs"@), l.files@),
        None => Seq::empty(),
    }
}

/// All transfers of the later releases' data.
pub open spec fn mixed_routes(old: Seq<char>, new: Seq<char>, s: LayoutState) -> Seq<Route> {
    database_routes(old, new, s) + logs_routes(old, new, s.logs)
}

/// All transfers of the first releases' data.
pub open spec fn legacy_routes(
    old: Seq<char>,
    new_config: Seq<char>,
    new_local: Seq<char>,
    s: LayoutState,
) -> Seq<Route> {
    routed(old, new_config, "config.toml"@, s.config) + mixed_routes(old, new_local, s)
}

/// All transfers of a plan, in the order in which they are carried out.
pub open spec fn plan_routes(p: MigrationPlan) -> Seq<Route> {
    routes(p.transfers@) + match p.logs {
        Some(l) => routes(l.transfers@),
        None => Seq::empty(),
    }
}

fn add_file(v: &mut Vec<Transfer>, old_dir: &str, new_dir: &str, name: &str, f: FileState)
    ensures
        routes(final(v)@) == routes(old(v)@) + routed(old_dir@, new_dir@, name@, f),
{
    let ghost before = v@;
    if f.source_exists && !f.dest_exists {
        v.push(Transfer { from: child_path(old_dir, name), to: child_path(new_dir, name) });
        assert(routes(v@) =~= routes(before).push(route(v@.last())));
    }
    assert(routes(v@) =~= routes(before) + routed(old_dir@, new_dir@, name@, f));
}

fn plan_logs(old_dir: &str, new_dir: &str, logs: &Option<LogsState>, empties: bool) -> (r: Option<
    LogsPlan,
>)
    ensures
        is_logs_plan(r, old_dir@, new_dir@, *logs, empties),
{
    let l: &LogsState = match logs {
        Some(l) => l,
        None => {
            return None;
        },
    };
    let from: String = child_path(old_dir, "logs");
    let to: String = child_path(new_dir, "logs");
    let mut v: Vec<Transfer> = Vec::new();
    let mut i: usize = 0;
    assert(l.files@.take(0) =~= Seq::<LogFile>::empty());
    while i < l.files.len()
        invariant
            i <= l.files@.len(),
            routes(v@) =~= log_routes(from@, to@, l.files@.take(i as int)),
        decreases l.files@.len() - i,
    {
        let f: &LogFile = &l.files[i];
        assert(l.files@.take(i + 1).drop_last() =~= l.files@.take(i as int));
        assert(l.files@.take(i + 1).last() == *f);
        if f.is_file && !f.dest_exists {
            let ghost before = v@;
            v.push(Transfer { from: child_path(&from, &f.name), to: child_path(&to, &f.name) });
            assert(routes(v@) =~= routes(before).push(route(v@.last())));
        }
        i += 1;
    }
    assert(l.files@.take(l.files@.len() as int) =~= l.files@);
    Some(
        LogsPlan {
            create_dir: if l.new_dir_exists {
                None
            } else {
                Some(to)
            },
            transfers: v,
            remove_dir: if empties {
                Some(from)
            } else {
                None
            },
        },
    )
}

/// How the data of the first releases is copied to its new place: the
/// configuration to the roaming directory, the database and the logs to the
/// local one. The old files stay.
pub fn migrate_pre_namespace_layout(
    legacy_dir: &str,
    new_config_dir: &str,
    new_local_dir: &str,
    state: &LayoutState,
) -> (r: MigrationPlan)
    ensures
        r.keep_source,
        plan_routes(r) == legacy_routes(legacy_dir@, new_config_dir@, new_local_dir@, *state),
        routes(r.transfers@) == routed(
            legacy_dir@,
            new_config_dir@,
            "config.toml"@,
            state.config,
        ) + database_routes(legacy_dir@, new_local_dir@, *state),
        is_logs_plan(r.logs, legacy_dir@, new_local_dir@, state.logs, false),
{
    let mut v: Vec<Transfer> = Vec::new();
    assert(routes(v@) =~= Seq::<Route>::empty());
    add_file(&mut v, legacy_dir, new_config_dir, "config.toml", state.config);
    add_file(&mut v, legacy_dir, new_local_dir, "state.db", state.database);
    add_file(&mut v, legacy_dir, new_local_dir, "state.db-wal", state.write_ahead_log);
    add_file(&mut v, legacy_dir, new_local_dir, "state.db-shm", state.shared_memory);
    assert(routes(v@) =~= routed(legacy_dir@, new_config_dir@, "config.toml"@, state.config)
        + database_routes(legacy_dir@, new_local_dir@, *state));
    let r: MigrationPlan = MigrationPlan {
        keep_source: true,
        transfers: v,
        logs: plan_logs(legacy_dir, new_local_dir, &state.logs, false),
    };
    assert(plan_routes(r) =~= legacy_routes(legacy_dir@, new_config_dir@, new_local_dir@, *state));
    r
}

/// How the data of later releases is moved to its new place: the database and
/// the logs to the local directory. The configuration stays.
pub fn migrate_mixed_roaming_layout(old_dir: &str, new_local_dir: &str, state: &LayoutState) -> (r:
    MigrationPlan)
    ensures
        !r.keep_source,
        plan_routes(r) == mixed_routes(old_dir@, new_local_dir@, *state),
        routes(r.transfers@) == database_routes(old_dir@, new_local_dir@, *state),
        is_logs_plan(r.logs, old_dir@, new_local_dir@, state.logs, true),
{
    let mut v: Vec<Transfer> = Vec::new();
    assert(routes(v@) =~= Seq::<Route>::empty());
    add_file(&mut v, old_dir, new_local_dir, "state.db", state.database);
    add_file(&mut v, old_dir, new_local_dir, "state.db-wal", state.write_ahead_log);
    add_file(&mut v, old_dir, new_local_dir, "state.db-shm", state.shared_memory);
    assert(routes(v@) =~= database_routes(old_dir@, new_local_dir@, *state));
    let r: MigrationPlan = MigrationPlan {
        keep_source: false,
        transfers: v,
        logs: plan_logs(old_dir, new_local_dir, &state.logs, true),
    };
    assert(plan_routes(r) =~= mixed_routes(old_dir@, new_local_dir@, *state));
    r
}

// ── Moving a file ───────────────────────────────────────────────────────────

/// An attempt to move a file.
#[derive(Debug, Clone, Copy, PartialEq, Eq, Structural)]
pub enum MoveStep {
    /// Give it its new name.
    Rename,
    /// Copy it.
    Copy,
    /// Remove the old file.
    RemoveSource,
}

/// What follows a step of moving a file. A file that cannot be renamed, because
/// its new place is on another drive, is copied; the old one is removed only
/// once the copy is there.
pub fn after_move_step(step: MoveStep, succeeded: bool) -> (r: Option<MoveStep>)
    ensures
        r == (match (step, succeeded) {
            (MoveStep::Rename, false) => Some(MoveStep::Copy),
            (MoveStep::Copy, true) => Some(MoveStep::RemoveSource),
            _ => None,
        }),
{
    match step {
        MoveStep::Rename => {
            if succeeded {
                None
            } else {
                Some(MoveStep::Copy)
            }
        },
        MoveStep::Copy => {
            if succeeded {
                Some(MoveStep::RemoveSource)
            } else {
                None
            }
        },
        MoveStep::RemoveSource => None,
    }
}

// ── What to migrate ─────────────────────────────────────────────────────────

/// The directory of the first releases below the roaming application data
/// directory; nothing where that directory is not known.
pub open spec fn legacy_dir_of(base: Option<Seq<char>>) -> Option<Seq<char>> {
    match base {
        Some(b) => Some(paths::child(b, "ImmichSync"@)),
        None => None,
    }
}

/// The directory of the first releases below `base`.
pub fn legacy_data_dir_in(base: Option<String>) -> (r: Option<String>)
    ensures
        text::opt_text(r) == legacy_dir_of(text::opt_text(base)),
{
    match base {
        Some(b) => Some(child_path(&b, "ImmichSync")),
        None => None,
    }
}

/// The directory of the first releases. Which base the machine has is not
/// stated; see [`legacy_data_dir_in`] for what follows from it.
pub fn legacy_data_dir() -> (r: Option<String>)
    ensures
        exists|base: Option<Seq<char>>| text::opt_text(r) == #[trigger] legacy_dir_of(base),
{
    legacy_data_dir_in(roaming_base())
}

/// The directories of a migration from the first releases.
#[derive(Debug)]
pub struct MigrationDirs {
    pub legacy: String,
    pub new_config: String,
    pub new_local: String,
}

/// Whether `r` is what becomes of a migration from the first releases: nothing
/// where there is no old directory, an error where a new one is not known.
/// `roaming` and `local` are the application data directories.
pub open spec fn is_legacy_migration(
    r: Result<Option<MigrationDirs>, InstallError>,
    legacy: Option<String>,
    legacy_exists: bool,
    roaming: Option<Seq<char>>,
    local: Option<Seq<char>>,
) -> bool {
    if legacy is None || !legacy_exists {
        r matches Ok(None)
    } else if roaming is None || local is None {
        r matches Err(e) && e == InstallError::DataDir(ConfigError::NoDataDir)
    } else {
        &&& r matches Ok(Some(d))
        &&& Some(d.legacy) == legacy
        &&& d.new_config@ == config::app_dir(roaming->0)
        &&& d.new_local@ == config::app_dir(local->0)
    }
}

/// The directories of a migration from the first releases, given the application
/// data directories: the configuration goes below the roaming one, the rest
/// below the local one. `None` where there is nothing to migrate.
pub fn legacy_migration(
    legacy: Option<String>,
    legacy_exists: bool,
    roaming: Option<String>,
    local: Option<String>,
) -> (r: Result<Option<MigrationDirs>, InstallError>)
    ensures
        is_legacy_migration(
            r,
            legacy,
            legacy_exists,
            text::opt_text(roaming),
            text::opt_text(local),
        ),
{
    let legacy: String = match legacy {
        Some(d) => d,
        None => {
            return Ok(None);
        },
    };
    if !legacy_exists {
        return Ok(None);
    }
    let new_config: String = match app_dir_in(roaming) {
        Ok(d) => d,
        Err(e) => {
            return Err(InstallError::DataDir(e));
        },
    };
    let new_local: String = match app_dir_in(local) {
        Ok(d) => d,
        Err(e) => {
            return Err(InstallError::DataDir(e));
        },
    };
    Ok(Some(MigrationDirs { legacy, new_config, new_local }))
}

/// The directories of a migration from the first releases; `None` where there
/// is nothing to migrate. `legacy` is what [`legacy_data_dir`] gives. Which
/// application data directories the machine has is not stated; see
/// [`legacy_migration`] for what follows from them.
pub fn migrate_legacy_data(legacy: Option<String>, legacy_exists: bool) -> (r: Result<
    Option<MigrationDirs>,
    InstallError,
>)
    ensures
        exists|roaming: Option<Seq<char>>, local: Option<Seq<char>>|
            #[trigger] is_legacy_migration(r, legacy, legacy_exists, roaming, local),
{
    legacy_migration(legacy, legacy_exists, roaming_base(), local_base())
}

/// The directory of the later releases below the roaming application data
/// directory; nothing where that directory is not known.
pub open spec fn mixed_dir_of(base: Option<Seq<char>>) -> Option<Seq<char>> {
    match base {
        Some(b) => Some(config::app_dir(b)),
        None => None,
    }
}

/// The directory of the later releases below `base`.
pub fn mixed_data_dir_in(base: Option<String>) -> (r: Option<String>)
    ensures
        text::opt_text(r) == mixed_dir_of(text::opt_text(base)),
{
    match app_dir_in(base) {
        Ok(d) => Some(d),
        Err(_) => None,
    }
}

/// The directory of the later releases. Which base the machine has is not
/// stated; see [`mixed_data_dir_in`] for what follows from it.
pub fn mixed_data_dir() -> (r: Option<String>)
    ensures
        exists|base: Option<Seq<char>>| text::opt_text(r) == #[trigger] mixed_dir_of(base),
{
    mixed_data_dir_in(roaming_base())
}

/// Whether data is moved from `old_dir` to `new_local_dir`: the old directory
/// exists and is not the new one.
pub fn splits(old_dir: &str, old_exists: bool, new_local_dir: &str) -> (r: bool)
    ensures
        r == (old_exists && !paths::same_components(old_dir@, new_local_dir@)),
{
    old_exists && !same_path(old_dir, new_local_dir)
}

/// Whether `r` is what becomes of a migration from later releases: nothing where
/// there is no old directory or it is the new one, an error where the new one is
/// not known. `local` is the local application data directory.
pub open spec fn is_split_migration(
    r: Result<Option<Transfer>, InstallError>,
    old_dir: Option<String>,
    old_exists: bool,
    local: Option<Seq<char>>,
) -> bool {
    if old_dir is None || !old_exists {
        r matches Ok(None)
    } else if local is None {
        r matches Err(e) && e == InstallError::DataDir(ConfigError::NoDataDir)
    } else if paths::same_components(old_dir->0@, config::app_dir(local->0)) {
        r matches Ok(None)
    } else {
        r matches Ok(Some(t)) && Some(t.from) == old_dir && t.to@ == config::app_dir(local->0)
    }
}

/// The old and the new directory of a migration from later releases, given the
/// local application data directory; `None` where there is nothing to migrate.
pub fn split_migration(old_dir: Option<String>, old_exists: bool, local: Option<String>) -> (r:
    Result<Option<Transfer>, InstallError>)
    ensures
        is_split_migration(r, old_dir, old_exists, text::opt_text(local)),
{
    let from: String = match old_dir {
        Some(d) => d,
        None => {
            return Ok(None);
        },
    };
    if !old_exists {
        return Ok(None);
    }
    let to: String = match app_dir_in(local) {
        Ok(d) => d,
        Err(e) => {
            return Err(InstallError::DataDir(e));
        },
    };
    if splits(&from, old_exists, &to) {
        Ok(Some(Transfer { from, to }))
    } else {
        Ok(None)
    }
}

/// The old and the new directory of a migration from later releases; `None`
/// where there is nothing to migrate. `old_dir` is what [`mixed_data_dir`] gives.
/// Which local application data directory the machine has is not stated; see
/// [`split_migration`] for what follows from it.
pub fn migrate_to_split_layout(old_dir: Option<String>, old_exists: bool) -> (r: Result<
    Option<Transfer>,
    InstallError,
>)
    ensures
        exists|local: Option<Seq<char>>|
            #[trigger] is_split_migration(r, old_dir, old_exists, local),
{
    split_migration(old_dir, old_exists, local_base())
}

// ── Laws ────────────────────────────────────────────────────────────────────

/// The files of a machine: what stands at each path.
pub type Files = Map<Seq<char>, Seq<u8>>;

/// The files after one file was copied, or moved.
pub open spec fn after_transfer(files: Files, keep_source: bool, r: Route) -> Files {
    let copied = files.insert(r.to, files[r.from]);
    if keep_source {
        copied
    } else {
        copied.remove(r.from)
    }
}

/// The files after transfers were carried out, one after the other.
pub open spec fn carried_out(files: Files, keep_source: bool, r: Seq<Route>) -> Files
    decreases r.len(),
{
    if r.len() == 0 {
        files
    } else {
        after_transfer(carried_out(files, keep_source, r.drop_last()), keep_source, r.last())
    }
}

/// Whether a text can be the name of a file: it is not empty, and holds no
/// separator and no colon.
pub open spec fn is_name(s: Seq<char>) -> bool {
    s.len() > 0 && !s.contains('\\') && !s.contains('/') && !s.contains(':')
}

/// Whether a name can follow a text: it is empty, or ends in a separator or the
/// colon of a drive.
spec fn opens_name(s: Seq<char>) -> bool {
    s.len() == 0 || paths::ends_in_separator(s) || s.last() == ':'
}

/// The log `name`, below a data directory.
pub open spec fn log_key(name: Seq<char>) -> Seq<char> {
    "logs\\"@ + name
}

/// Whether a path below a data directory is that of machine-local state: of the
/// database, its companions, or a log.
pub open spec fn is_local_key(k: Seq<char>) -> bool {
    ||| k == "state.db"@
    ||| k == "state.db-wal"@
    ||| k == "state.db-shm"@
    ||| exists|n: Seq<char>| is_name(n) && k == #[trigger] log_key(n)
}

/// What the paths of the entries of a directory begin with.
pub open spec fn entered(dir: Seq<char>) -> Seq<char> {
    paths::child(dir, ""@)
}

/// Whether two directories are not the same, and neither is the directory of logs
/// of the other.
pub open spec fn apart(old: Seq<char>, new: Seq<char>) -> bool {
    &&& entered(old) != entered(new)
    &&& entered(old) != entered(paths::child(new, "logs"@))
    &&& entered(new) != entered(paths::child(old, "logs"@))
}

/// Whether the new directory of the configuration is not a directory of logs.
pub open spec fn config_apart(
    old: Seq<char>,
    new_config: Seq<char>,
    new_local: Seq<char>,
) -> bool {
    &&& entered(new_config) != entered(paths::child(old, "logs"@))
    &&& entered(new_config) != entered(paths::child(new_local, "logs"@))
}

/// Whether `f` says where the file `name` is.
pub open spec fn tells_file(
    f: FileState,
    files: Files,
    old: Seq<char>,
    new: Seq<char>,
    name: Seq<char>,
) -> bool {
    &&& f.source_exists == files.dom().contains(paths::child(old, name))
    &&& f.dest_exists == files.dom().contains(paths::child(new, name))
}

/// Whether `logs` lists the old directory of logs: every file of it once, and
/// whether the new directory holds one of the same name.
pub open spec fn tells_logs(
    logs: Option<LogsState>,
    files: Files,
    old: Seq<char>,
    new: Seq<char>,
) -> bool {
    match logs {
        None => forall|n: Seq<char>|
            is_name(n) ==> !files.dom().contains(paths::child(old, #[trigger] log_key(n))),
        Some(l) => {
            &&& forall|i: int| 0 <= i < l.files@.len() ==> tells_log(
                #[trigger] l.files@[i],
                files,
                old,
                new,
            )
            &&& forall|i: int, j: int|
                0 <= i < j < l.files@.len() ==> (#[trigger] l.files@[i]).name@ != (
                #[trigger] l.files@[j]).name@
            &&& forall|n: Seq<char>|
                is_name(n) && files.dom().contains(paths::child(old, #[trigger] log_key(n)))
                    ==> lists(l.files@, n)
        },
    }
}

/// Whether an entry of the old directory of logs is as `f` says.
pub open spec fn tells_log(f: LogFile, files: Files, old: Seq<char>, new: Seq<char>) -> bool {
    &&& is_name(f.name@)
    &&& f.is_file == files.dom().contains(paths::child(old, log_key(f.name@)))
    &&& f.dest_exists == files.dom().contains(paths::child(new, log_key(f.name@)))
}

/// Whether a list of logs names a file.
pub open spec fn lists(v: Seq<LogFile>, name: Seq<char>) -> bool {
    exists|i: int| 0 <= i < v.len() && (#[trigger] v[i]).name@ == name
}

/// Whether `s` says where the files are.
pub open spec fn tells(
    s: LayoutState,
    files: Files,
    old: Seq<char>,
    new_config: Seq<char>,
    new_local: Seq<char>,
) -> bool {
    &&& tells_file(s.config, files, old, new_config, "config.toml"@)
    &&& tells_local(s, files, old, new_local)
}

/// Whether `s` says where the machine-local state is.
pub open spec fn tells_local(s: LayoutState, files: Files, old: Seq<char>, new: Seq<char>) -> bool {
    &&& tells_file(s.database, files, old, new, "state.db"@)
    &&& tells_file(s.write_ahead_log, files, old, new, "state.db-wal"@)
    &&& tells_file(s.shared_memory, files, old, new, "state.db-shm"@)
    &&& tells_logs(s.logs, files, old, new)
}

/// Copying the data of the first releases leaves every file as it is, the old
/// ones and those that were in the new places alike. What is added is a copy of
/// an old file in its new place. Every old file is in its new place then, so a
/// second migration copies nothing.
pub proof fn law_old_data_is_copied(
    files: Files,
    old: Seq<char>,
    new_config: Seq<char>,
    new_local: Seq<char>,
    s: LayoutState,
    again: LayoutState,
)
    requires
        tells(s, files, old, new_config, new_local),
        apart(old, new_local),
        config_apart(old, new_config, new_local),
        tells(
            again,
            carried_out(files, true, legacy_routes(old, new_config, new_local, s)),
            old,
            new_config,
            new_local,
        ),
    ensures
        ({
            let r = legacy_routes(old, new_config, new_local, s);
            let after = carried_out(files, true, r);
            &&& forall|p: Seq<char>| #[trigger]
                files.dom().contains(p) ==> after.dom().contains(p) && after[p] == files[p]
            &&& forall|p: Seq<char>| #[trigger]
                after.dom().contains(p) && !files.dom().contains(p) ==> names_target(r, p)
            &&& forall|i: int|
                0 <= i < r.len() ==> after.dom().contains((#[trigger] r[i]).to) && after[r[i].to]
                    == files[r[i].from]
            &&& legacy_routes(old, new_config, new_local, again) == Seq::<Route>::empty()
        }),
{
    let r = legacy_routes(old, new_config, new_local, s);
    let after = carried_out(files, true, r);
    assert forall|a: Seq<char>, b: Seq<char>|
        is_local_key(a) && is_local_key(b) implies #[trigger] paths::child(old, a)
        != #[trigger] paths::child(new_local, b) by {
        lemma_apart(old, new_local, a, b);
    }
    assert forall|k: Seq<char>| is_local_key(k) implies paths::child(old, "config.toml"@)
        != #[trigger] paths::child(new_local, k) by {
        lemma_config_apart(old, new_local, k);
    }
    assert forall|k: Seq<char>| is_local_key(k) implies paths::child(new_config, "config.toml"@)
        != #[trigger] paths::child(old, k) by {
        lemma_config_apart(new_config, old, k);
    }
    lemma_legacy_routes(files, old, new_config, new_local, s);
    lemma_carried_out(files, true, r);
    assert forall|p: Seq<char>| #[trigger] files.dom().contains(p) implies after.dom().contains(p)
        && after[p] == files[p] by {
        if names_source(r, p) {
            let i = choose|i: int| 0 <= i < r.len() && (#[trigger] r[i]).from == p;
            assert(stays(files, after, r[i].from));
        } else {
            assert(stays(files, after, p));
        }
    }
    // The configuration.
    let c = "config.toml"@;
    let cr = routed(old, new_config, c, s.config);
    if wanted(again.config) {
        let p = paths::child(old, c);
        if files.dom().contains(p) {
            if wanted(s.config) {
                assert(r[0] == cr[0]);
                assert(after.dom().contains(r[0].to));
            }
        } else {
            assert(names_target(r, p));
            let i = choose|i: int| 0 <= i < r.len() && (#[trigger] r[i]).to == p;
            if i >= cr.len() {
                let m = mixed_routes(old, new_local, s);
                lemma_mixed_route(files, old, new_local, s, i - cr.len());
                assert(r[i] == m[i - cr.len()]);
            } else {
                assert(r[i] == cr[i]);
                assert(after.dom().contains(r[i].to));
            }
        }
    }
    assert(routed(old, new_config, c, again.config) =~= Seq::<Route>::empty());
    // The machine-local state.
    assert forall|k: Seq<char>| is_local_key(k) && #[trigger] after.dom().contains(
        paths::child(old, k),
    ) implies after.dom().contains(paths::child(new_local, k)) by {
        let p = paths::child(old, k);
        if !files.dom().contains(p) {
            assert(names_target(r, p));
            let i = choose|i: int| 0 <= i < r.len() && (#[trigger] r[i]).to == p;
            if i >= cr.len() {
                lemma_mixed_route(files, old, new_local, s, i - cr.len());
                assert(r[i] == mixed_routes(old, new_local, s)[i - cr.len()]);
            } else {
                assert(r[i] == cr[i]);
            }
            assert(false);
        }
        if !files.dom().contains(paths::child(new_local, k)) {
            let m = lemma_key_is_routed(files, old, new_local, s, k);
            assert(r[cr.len() + m] == mixed_routes(old, new_local, s)[m]);
            assert(after.dom().contains(r[cr.len() + m].to));
        }
    }
    lemma_nothing_is_routed(after, old, new_local, again);
    assert(legacy_routes(old, new_config, new_local, again) =~= Seq::<Route>::empty());
}

/// Moving the data of later releases takes each file of the machine-local state
/// that is not in its new place from the old place to the new one, with the same
/// content. Every other file is as before: one that was in both places, and
/// every file that is not machine-local state. A second migration moves nothing.
pub proof fn law_local_state_is_moved(
    files: Files,
    old: Seq<char>,
    new: Seq<char>,
    s: LayoutState,
    again: LayoutState,
)
    requires
        tells_local(s, files, old, new),
        apart(old, new),
        tells_local(again, carried_out(files, false, mixed_routes(old, new, s)), old, new),
    ensures
        ({
            let r = mixed_routes(old, new, s);
            let after = carried_out(files, false, r);
            &&& forall|k: Seq<char>|
                is_local_key(k) && files.dom().contains(#[trigger] paths::child(old, k))
                    && !files.dom().contains(paths::child(new, k)) ==> {
                    &&& !after.dom().contains(paths::child(old, k))
                    &&& after.dom().contains(paths::child(new, k))
                    &&& after[paths::child(new, k)] == files[paths::child(old, k)]
                }
            &&& forall|k: Seq<char>|
                is_local_key(k) && files.dom().contains(#[trigger] paths::child(old, k))
                    && files.dom().contains(paths::child(new, k)) ==> {
                    &&& stays(files, after, paths::child(old, k))
                    &&& stays(files, after, paths::child(new, k))
                }
            &&& forall|p: Seq<char>|
                (forall|k: Seq<char>|
                    is_local_key(k) ==> p != #[trigger] paths::child(old, k) && p != paths::child(
                        new,
                        k,
                    )) ==> #[trigger] stays(files, after, p)
            &&& mixed_routes(old, new, again) == Seq::<Route>::empty()
        }),
{
    let r = mixed_routes(old, new, s);
    let after = carried_out(files, false, r);
    assert forall|a: Seq<char>, b: Seq<char>|
        is_local_key(a) && is_local_key(b) implies #[trigger] paths::child(old, a)
        != #[trigger] paths::child(new, b) by {
        lemma_apart(old, new, a, b);
    }
    lemma_mixed_routes(files, old, new, s);
    lemma_carried_out(files, false, r);
    assert forall|k: Seq<char>|
        is_local_key(k) && files.dom().contains(#[trigger] paths::child(old, k))
            && !files.dom().contains(paths::child(new, k)) implies {
        &&& !after.dom().contains(paths::child(old, k))
        &&& after.dom().contains(paths::child(new, k))
        &&& after[paths::child(new, k)] == files[paths::child(old, k)]
    } by {
        let m = lemma_key_is_routed(files, old, new, s, k);
        assert(after[r[m].to] == files[r[m].from]);
    }
    assert forall|k: Seq<char>|
        is_local_key(k) && files.dom().contains(#[trigger] paths::child(old, k))
            && files.dom().contains(paths::child(new, k)) implies {
        &&& stays(files, after, paths::child(old, k))
        &&& stays(files, after, paths::child(new, k))
    } by {
        lemma_not_touched(files, old, new, s, k);
    }
    assert forall|p: Seq<char>|
        (forall|k: Seq<char>|
            is_local_key(k) ==> p != #[trigger] paths::child(old, k) && p != paths::child(
                new,
                k,
            )) implies #[trigger] stays(files, after, p) by {
        assert(!names_source(r, p) && !names_target(r, p)) by {
            if names_source(r, p) {
                let i = choose|i: int| 0 <= i < r.len() && (#[trigger] r[i]).from == p;
                lemma_mixed_route(files, old, new, s, i);
            }
            if names_target(r, p) {
                let i = choose|i: int| 0 <= i < r.len() && (#[trigger] r[i]).to == p;
                lemma_mixed_route(files, old, new, s, i);
                let k = choose|k: Seq<char>|
                    is_local_key(k) && r[i].from == #[trigger] paths::child(old, k) && r[i].to
                        == paths::child(new, k);
                assert(p != paths::child(old, k));
            }
        }
    }
    assert forall|k: Seq<char>| is_local_key(k) && #[trigger] after.dom().contains(
        paths::child(old, k),
    ) implies after.dom().contains(paths::child(new, k)) by {
        let p = paths::child(old, k);
        if !files.dom().contains(p) {
            assert(names_target(r, p));
            let i = choose|i: int| 0 <= i < r.len() && (#[trigger] r[i]).to == p;
            lemma_mixed_route(files, old, new, s, i);
            assert(false);
        }
        assert(stays(files, after, paths::child(new, k)));
    }
    lemma_nothing_is_routed(after, old, new, again);
}

/// Whether a file is as before: there with the same content, or not there.
pub open spec fn stays(before: Files, after: Files, p: Seq<char>) -> bool {
    &&& after.dom().contains(p) == before.dom().contains(p)
    &&& before.dom().contains(p) ==> after[p] == before[p]
}

/// Whether a path is the old place of a transfer.
pub open spec fn names_source(r: Seq<Route>, p: Seq<char>) -> bool {
    exists|i: int| 0 <= i < r.len() && (#[trigger] r[i]).from == p
}

/// Whether a path is the new place of a transfer.
pub open spec fn names_target(r: Seq<Route>, p: Seq<char>) -> bool {
    exists|i: int| 0 <= i < r.len() && (#[trigger] r[i]).to == p
}

/// Whether transfers can be carried out without getting into each other's way:
/// each takes a file that is there to a place where there is none, and no two
/// name the same place.
spec fn separate(files: Files, r: Seq<Route>) -> bool {
    &&& forall|i: int|
        0 <= i < r.len() ==> files.dom().contains((#[trigger] r[i]).from) && !files.dom().contains(
            r[i].to,
        )
    &&& forall|i: int, j: int|
        0 <= i < j < r.len() ==> (#[trigger] r[i]).from != (#[trigger] r[j]).from && r[i].to
            != r[j].to
}

proof fn lemma_carried_out(files: Files, keep_source: bool, r: Seq<Route>)
    requires
        separate(files, r),
    ensures
        ({
            let after = carried_out(files, keep_source, r);
            &&& forall|i: int|
                0 <= i < r.len() ==> after.dom().contains((#[trigger] r[i]).to) && after[r[i].to]
                    == files[r[i].from]
            &&& forall|i: int|
                0 <= i < r.len() ==> if keep_source {
                    stays(files, after, (#[trigger] r[i]).from)
                } else {
                    !after.dom().contains(r[i].from)
                }
            &&& forall|p: Seq<char>|
                !names_source(r, p) && !names_target(r, p) ==> #[trigger] stays(files, after, p)
            &&& forall|p: Seq<char>| #[trigger]
                after.dom().contains(p) && !files.dom().contains(p) ==> names_target(r, p)
        }),
    decreases r.len(),
{
    if r.len() > 0 {
        let q = r.drop_last();
        let t = r.last();
        let n = r.len() - 1;
        assert(t == r[n]);
        assert forall|i: int| 0 <= i < q.len() implies files.dom().contains((#[trigger] q[i]).from)
            && !files.dom().contains(q[i].to) by {
            assert(q[i] == r[i]);
        }
        assert forall|i: int, j: int| 0 <= i < j < q.len() implies (#[trigger] q[i]).from != (
        #[trigger] q[j]).from && q[i].to != q[j].to by {
            assert(q[i] == r[i] && q[j] == r[j]);
        }
        lemma_carried_out(files, keep_source, q);
        let before = carried_out(files, keep_source, q);
        let after = carried_out(files, keep_source, r);
        assert(after == after_transfer(before, keep_source, t));
        assert(!names_source(q, t.from)) by {
            if names_source(q, t.from) {
                let i = choose|i: int| 0 <= i < q.len() && (#[trigger] q[i]).from == t.from;
                assert(q[i] == r[i]);
            }
        }
        assert(!names_target(q, t.from)) by {
            if names_target(q, t.from) {
                let i = choose|i: int| 0 <= i < q.len() && (#[trigger] q[i]).to == t.from;
                assert(q[i] == r[i]);
            }
        }
        assert(stays(files, before, t.from));
        assert forall|i: int| 0 <= i < r.len() implies after.dom().contains((#[trigger] r[i]).to)
            && after[r[i].to] == files[r[i].from] by {
            assert(r[i].to != t.from);
            if i < n {
                assert(q[i] == r[i]);
                assert(r[i].to != r[n].to);
            }
        }
        assert forall|i: int| 0 <= i < r.len() implies if keep_source {
            stays(files, after, (#[trigger] r[i]).from)
        } else {
            !after.dom().contains(r[i].from)
        } by {
            assert(files.dom().contains(r[i].from) && !files.dom().contains(t.to));
            assert(r[i].from != t.to);
            if i < n {
                assert(q[i] == r[i]);
            }
        }
        assert forall|p: Seq<char>| !names_source(r, p) && !names_target(r, p) implies #[trigger] stays(
            files,
            after,
            p,
        ) by {
            assert(p != r[n].from && p != r[n].to);
            lemma_named_before(r, p);
            assert(stays(files, before, p));
        }
        assert forall|p: Seq<char>| #[trigger]
            after.dom().contains(p) && !files.dom().contains(p) implies names_target(r, p) by {
            if p == t.to {
                assert(r[n].to == p);
            } else {
                assert(before.dom().contains(p));
                assert(names_target(q, p));
                lemma_named_before(r, p);
            }
        }
    }
}

proof fn lemma_named_before(r: Seq<Route>, p: Seq<char>)
    requires
        r.len() > 0,
    ensures
        names_source(r.drop_last(), p) ==> names_source(r, p),
        names_target(r.drop_last(), p) ==> names_target(r, p),
{
    let q = r.drop_last();
    if names_source(q, p) {
        let i = choose|i: int| 0 <= i < q.len() && (#[trigger] q[i]).from == p;
        assert(r[i] == q[i]);
    }
    if names_target(q, p) {
        let i = choose|i: int| 0 <= i < q.len() && (#[trigger] q[i]).to == p;
        assert(r[i] == q[i]);
    }
}

/// A path is made of what the entries of its directory begin with and a name in
/// one way only.
proof fn lemma_split(d: Seq<char>, a: Seq<char>, e: Seq<char>, b: Seq<char>)
    requires
        opens_name(d),
        opens_name(e),
        is_name(a),
        is_name(b),
        d + a == e + b,
    ensures
        d == e,
        a == b,
{
    let p = d + a;
    assert(p == e + b);
    assert(p.len() == d.len() + a.len());
    assert(p.len() == e.len() + b.len());
    if d.len() < e.len() {
        let i = e.len() - 1 - d.len();
        assert(p[e.len() - 1] == e.last());
        assert(p[d.len() + i] == a[i]);
        assert(a.contains(e.last()));
    } else if e.len() < d.len() {
        let i = d.len() - 1 - e.len();
        assert(p[d.len() - 1] == d.last());
        assert((e + b)[e.len() + i] == b[i]);
        assert(b.contains(d.last()));
    }
    assert(p.take(d.len() as int) =~= d);
    assert(p.take(d.len() as int) =~= e);
    assert(p.skip(d.len() as int) =~= a);
    assert(p.skip(d.len() as int) =~= b);
}

/// The names of the files are names.
proof fn lemma_names()
    ensures
        is_name("config.toml"@),
        is_name("state.db"@),
        is_name("state.db-wal"@),
        is_name("state.db-shm"@),
        "config.toml"@ != "state.db"@,
        "config.toml"@ != "state.db-wal"@,
        "config.toml"@ != "state.db-shm"@,
{
    reveal_strlit("config.toml");
    reveal_strlit("state.db");
    reveal_strlit("state.db-wal");
    reveal_strlit("state.db-shm");
    assert("config.toml"@[0] == 'c');
    assert("state.db"@[0] == 's');
    assert("state.db-wal"@[0] == 's');
    assert("state.db-shm"@[0] == 's');
}

/// Where a path below a data directory lies: its directory and its name.
proof fn lemma_place(dir: Seq<char>, k: Seq<char>) -> (r: (Seq<char>, Seq<char>))
    requires
        is_local_key(k),
    ensures
        opens_name(r.0),
        is_name(r.1),
        paths::child(dir, k) == r.0 + r.1,
        r.0 == entered(dir) && r.1 != "config.toml"@ || r.0 == entered(
            paths::child(dir, "logs"@),
        ),
{
    reveal_strlit("");
    reveal_strlit("\\");
    lemma_names();
    let logs = paths::child(dir, "logs"@);
    assert(opens_name(entered(dir)));
    assert(opens_name(entered(logs)));
    if k == "state.db"@ || k == "state.db-wal"@ || k == "state.db-shm"@ {
        assert(paths::child(dir, k) =~= entered(dir) + k);
        (entered(dir), k)
    } else {
        let n = choose|n: Seq<char>| is_name(n) && k == #[trigger] log_key(n);
        lemma_log_place(dir, n);
        assert(paths::child(logs, n) =~= entered(logs) + n);
        (entered(logs), n)
    }
}

/// What is entered through different directories differs, so the machine-local
/// state has different places below two directories that are apart.
proof fn lemma_apart(old: Seq<char>, new: Seq<char>, a: Seq<char>, b: Seq<char>)
    requires
        apart(old, new),
        is_local_key(a),
        is_local_key(b),
    ensures
        paths::child(old, a) != paths::child(new, b),
{
    let x = lemma_place(old, a);
    let y = lemma_place(new, b);
    if paths::child(old, a) == paths::child(new, b) {
        lemma_split(x.0, x.1, y.0, y.1);
        let p = entered(paths::child(old, "logs"@));
        let q = entered(paths::child(new, "logs"@));
        if x.0 == p && y.0 == q {
            lemma_entered_logs(old);
            lemma_entered_logs(new);
            let n = "logs\\"@.len() as int;
            assert(p.take(p.len() - n) =~= entered(old));
            assert(q.take(q.len() - n) =~= entered(new));
        }
    }
}

proof fn lemma_entered_logs(dir: Seq<char>)
    ensures
        entered(paths::child(dir, "logs"@)) == entered(dir) + "logs\\"@,
{
    reveal_strlit("");
    reveal_strlit("\\");
    reveal_strlit("logs");
    reveal_strlit("logs\\");
    assert(paths::child(dir, "logs"@).last() == 's');
    assert(entered(paths::child(dir, "logs"@)) =~= entered(dir) + "logs\\"@);
}

/// The place of the configuration in `dir` is none of the machine-local state
/// below `other`, whose directory of logs is not `dir`.
proof fn lemma_config_apart(dir: Seq<char>, other: Seq<char>, k: Seq<char>)
    requires
        entered(dir) != entered(paths::child(other, "logs"@)),
        is_local_key(k),
    ensures
        paths::child(dir, "config.toml"@) != paths::child(other, k),
{
    reveal_strlit("");
    reveal_strlit("\\");
    lemma_names();
    let y = lemma_place(other, k);
    assert(paths::child(dir, "config.toml"@) =~= entered(dir) + "config.toml"@);
    assert(opens_name(entered(dir)));
    if paths::child(dir, "config.toml"@) == paths::child(other, k) {
        lemma_split(entered(dir), "config.toml"@, y.0, y.1);
    }
}

/// Entries of a directory with different names have different paths.
proof fn lemma_child_injective(dir: Seq<char>, a: Seq<char>, b: Seq<char>)
    requires
        paths::child(dir, a) == paths::child(dir, b),
    ensures
        a == b,
{
    let n = paths::child(dir, ""@).len() as int;
    reveal_strlit("");
    assert(paths::child(dir, a).skip(n) =~= a);
    assert(paths::child(dir, b).skip(n) =~= b);
}

/// The path of a log below the data directory.
proof fn lemma_log_place(dir: Seq<char>, name: Seq<char>)
    ensures
        paths::child(paths::child(dir, "logs"@), name) == paths::child(dir, log_key(name)),
{
    reveal_strlit("logs");
    reveal_strlit("\\");
    reveal_strlit("logs\\");
    assert(paths::child(dir, "logs"@).last() == 's');
    assert(paths::child(paths::child(dir, "logs"@), name) =~= paths::child(dir, log_key(name)));
}

/// The paths below the data directory of the files that change their place.
spec fn file_keys(name: Seq<char>, f: FileState) -> Seq<Seq<char>> {
    if wanted(f) {
        seq![name]
    } else {
        Seq::empty()
    }
}

spec fn log_keys(v: Seq<LogFile>) -> Seq<Seq<char>>
    decreases v.len(),
{
    if v.len() == 0 {
        Seq::empty()
    } else if v.last().is_file && !v.last().dest_exists {
        log_keys(v.drop_last()).push(log_key(v.last().name@))
    } else {
        log_keys(v.drop_last())
    }
}

spec fn local_keys(s: LayoutState) -> Seq<Seq<char>> {
    file_keys("state.db"@, s.database) + file_keys("state.db-wal"@, s.write_ahead_log) + file_keys(
        "state.db-shm"@,
        s.shared_memory,
    ) + match s.logs {
        Some(l) => log_keys(l.files@),
        None => Seq::empty(),
    }
}

spec fn keyed(old: Seq<char>, new: Seq<char>, keys: Seq<Seq<char>>) -> Seq<Route> {
    keys.map_values(
        |k: Seq<char>| Route { from: paths::child(old, k), to: paths::child(new, k) },
    )
}

proof fn lemma_log_routes_keyed(old: Seq<char>, new: Seq<char>, v: Seq<LogFile>)
    ensures
        log_routes(paths::child(old, "logs"@), paths::child(new, "logs"@), v) == keyed(
            old,
            new,
            log_keys(v),
        ),
    decreases v.len(),
{
    if v.len() > 0 {
        lemma_log_routes_keyed(old, new, v.drop_last());
        lemma_log_place(old, v.last().name@);
        lemma_log_place(new, v.last().name@);
    }
    assert(log_routes(paths::child(old, "logs"@), paths::child(new, "logs"@), v) =~= keyed(
        old,
        new,
        log_keys(v),
    ));
}

proof fn lemma_routes_keyed(old: Seq<char>, new: Seq<char>, s: LayoutState)
    ensures
        mixed_routes(old, new, s) == keyed(old, new, local_keys(s)),
{
    if s.logs is Some {
        lemma_log_routes_keyed(old, new, s.logs->0.files@);
    }
    assert(mixed_routes(old, new, s) =~= keyed(old, new, local_keys(s)));
}

/// A log has a key where it changes its place.
proof fn lemma_log_keys(v: Seq<LogFile>, k: Seq<char>)
    ensures
        log_keys(v).contains(k) <==> exists|i: int|
            0 <= i < v.len() && (#[trigger] v[i]).is_file && !v[i].dest_exists && log_key(
                v[i].name@,
            ) == k,
    decreases v.len(),
{
    if v.len() > 0 {
        let q = v.drop_last();
        let n = v.len() - 1;
        lemma_log_keys(q, k);
        assert(v[n] == v.last());
        let here = v.last().is_file && !v.last().dest_exists && log_key(v.last().name@) == k;
        if log_keys(v).contains(k) {
            let m = choose|m: int| 0 <= m < log_keys(v).len() && log_keys(v)[m] == k;
            if m < log_keys(q).len() {
                assert(log_keys(q)[m] == k);
                let i = choose|i: int|
                    0 <= i < q.len() && (#[trigger] q[i]).is_file && !q[i].dest_exists && log_key(
                        q[i].name@,
                    ) == k;
                assert(v[i] == q[i]);
            } else {
                assert(here);
            }
        }
        if exists|i: int|
            0 <= i < v.len() && (#[trigger] v[i]).is_file && !v[i].dest_exists && log_key(
                v[i].name@,
            ) == k {
            let i = choose|i: int|
                0 <= i < v.len() && (#[trigger] v[i]).is_file && !v[i].dest_exists && log_key(
                    v[i].name@,
                ) == k;
            if i < n {
                assert(q[i] == v[i]);
                let m = choose|m: int| 0 <= m < log_keys(q).len() && log_keys(q)[m] == k;
                assert(log_keys(v)[m] == k);
            } else {
                assert(log_keys(v)[log_keys(v).len() - 1] == k);
            }
        }
    }
}

proof fn lemma_log_keys_differ(v: Seq<LogFile>)
    requires
        forall|i: int, j: int|
            0 <= i < j < v.len() ==> (#[trigger] v[i]).name@ != (#[trigger] v[j]).name@,
    ensures
        log_keys(v).no_duplicates(),
    decreases v.len(),
{
    if v.len() > 0 {
        let q = v.drop_last();
        let n = v.len() - 1;
        assert forall|i: int, j: int| 0 <= i < j < q.len() implies (#[trigger] q[i]).name@ != (
        #[trigger] q[j]).name@ by {
            assert(q[i] == v[i] && q[j] == v[j]);
        }
        lemma_log_keys_differ(q);
        let k = log_key(v.last().name@);
        lemma_log_keys(q, k);
        if log_keys(q).contains(k) {
            let i = choose|i: int|
                0 <= i < q.len() && (#[trigger] q[i]).is_file && !q[i].dest_exists && log_key(
                    q[i].name@,
                ) == k;
            assert(q[i] == v[i]);
            assert(v[n] == v.last());
            assert(log_key(v[i].name@).skip("logs\\"@.len() as int) =~= v[i].name@);
            assert(k.skip("logs\\"@.len() as int) =~= v[n].name@);
        }
        assert(log_keys(v).no_duplicates());
    }
}

/// What the keys of the files are that change their place.
proof fn lemma_local_keys(files: Files, old: Seq<char>, new: Seq<char>, s: LayoutState)
    requires
        tells_local(s, files, old, new),
    ensures
        local_keys(s).no_duplicates(),
        forall|k: Seq<char>| #[trigger]
            local_keys(s).contains(k) <==> is_local_key(k) && files.dom().contains(
                paths::child(old, k),
            ) && !files.dom().contains(paths::child(new, k)),
{
    reveal_strlit("state.db");
    reveal_strlit("state.db-wal");
    reveal_strlit("state.db-shm");
    reveal_strlit("logs\\");
    let a = file_keys("state.db"@, s.database);
    let b = file_keys("state.db-wal"@, s.write_ahead_log);
    let c = file_keys("state.db-shm"@, s.shared_memory);
    let d = match s.logs {
        Some(l) => log_keys(l.files@),
        None => Seq::empty(),
    };
    let abc = a + b + c;
    let all = local_keys(s);
    assert(all == abc + d);
    assert("state.db-wal"@[9] == 'w' && "state.db-shm"@[9] == 's');
    assert forall|k: Seq<char>| #[trigger] d.contains(k) <==> (exists|n: Seq<char>|
        is_name(n) && k == #[trigger] log_key(n)) && files.dom().contains(paths::child(old, k))
        && !files.dom().contains(paths::child(new, k)) by {
        if let Some(l) = s.logs {
            let v = l.files@;
            lemma_log_keys(v, k);
            if d.contains(k) {
                let i = choose|i: int|
                    0 <= i < v.len() && (#[trigger] v[i]).is_file && !v[i].dest_exists && log_key(
                        v[i].name@,
                    ) == k;
                assert(tells_log(v[i], files, old, new));
                assert(is_name(v[i].name@) && k == log_key(v[i].name@));
            }
            if (exists|n: Seq<char>| is_name(n) && k == #[trigger] log_key(n))
                && files.dom().contains(paths::child(old, k)) && !files.dom().contains(
                paths::child(new, k),
            ) {
                let n = choose|n: Seq<char>| is_name(n) && k == #[trigger] log_key(n);
                assert(lists(v, n));
                let i = choose|i: int| 0 <= i < v.len() && (#[trigger] v[i]).name@ == n;
                assert(tells_log(v[i], files, old, new));
            }
        }
    }
    if let Some(l) = s.logs {
        lemma_log_keys_differ(l.files@);
    }
    assert(d.no_duplicates());
    assert forall|k: Seq<char>| d.contains(k) implies #[trigger] k.len() > 0 && k[0] == 'l' by {
        let n = choose|n: Seq<char>| is_name(n) && k == #[trigger] log_key(n);
    }
    assert forall|i: int| 0 <= i < abc.len() implies (#[trigger] abc[i]).len() > 0 && abc[i][0]
        == 's' by {}
    assert(abc.no_duplicates()) by {
        assert("state.db"@.len() != "state.db-wal"@.len());
        assert("state.db"@.len() != "state.db-shm"@.len());
        assert("state.db-wal"@ != "state.db-shm"@);
    }
    assert forall|i: int, j: int| 0 <= i < j < all.len() implies all[i] != all[j] by {
        if j < abc.len() {
            assert(all[i] == abc[i] && all[j] == abc[j]);
        } else if i >= abc.len() {
            assert(all[i] == d[i - abc.len()] && all[j] == d[j - abc.len()]);
        } else {
            assert(all[i] == abc[i] && all[j] == d[j - abc.len()]);
            assert(d.contains(all[j]));
            assert(all[j][0] == 'l');
        }
    }
    assert forall|k: Seq<char>| #[trigger] all.contains(k) <==> is_local_key(k)
        && files.dom().contains(paths::child(old, k)) && !files.dom().contains(
        paths::child(new, k),
    ) by {
        if all.contains(k) {
            let m = choose|m: int| 0 <= m < all.len() && all[m] == k;
            if m < abc.len() {
                assert(all[m] == abc[m]);
            } else {
                assert(d[m - abc.len()] == k);
                assert(d.contains(k));
            }
        }
        if is_local_key(k) && files.dom().contains(paths::child(old, k)) && !files.dom().contains(
            paths::child(new, k),
        ) {
            if k == "state.db"@ {
                assert(all[0] == k);
            } else if k == "state.db-wal"@ {
                assert(all[a.len() as int] == k);
            } else if k == "state.db-shm"@ {
                assert(all[(a.len() + b.len()) as int] == k);
            } else {
                assert(d.contains(k));
                let m = choose|m: int| 0 <= m < d.len() && d[m] == k;
                assert(all[abc.len() + m] == k);
            }
        }
    }
}

/// What a transfer of the machine-local state names.
proof fn lemma_mixed_route(files: Files, old: Seq<char>, new: Seq<char>, s: LayoutState, i: int)
    requires
        tells_local(s, files, old, new),
        0 <= i < mixed_routes(old, new, s).len(),
    ensures
        exists|k: Seq<char>|
            is_local_key(k) && mixed_routes(old, new, s)[i].from == #[trigger] paths::child(old, k)
                && mixed_routes(old, new, s)[i].to == paths::child(new, k) && files.dom().contains(
                paths::child(old, k),
            ) && !files.dom().contains(paths::child(new, k)),
{
    lemma_routes_keyed(old, new, s);
    lemma_local_keys(files, old, new, s);
    let k = local_keys(s)[i];
    assert(local_keys(s).contains(k));
    assert(mixed_routes(old, new, s)[i] == (Route {
        from: paths::child(old, k),
        to: paths::child(new, k),
    }));
}

/// A file of the machine-local state that is missing in its new place is
/// transferred.
proof fn lemma_key_is_routed(
    files: Files,
    old: Seq<char>,
    new: Seq<char>,
    s: LayoutState,
    k: Seq<char>,
) -> (m: int)
    requires
        tells_local(s, files, old, new),
        is_local_key(k),
        files.dom().contains(paths::child(old, k)),
        !files.dom().contains(paths::child(new, k)),
    ensures
        0 <= m < mixed_routes(old, new, s).len(),
        mixed_routes(old, new, s)[m] == (Route {
            from: paths::child(old, k),
            to: paths::child(new, k),
        }),
{
    lemma_routes_keyed(old, new, s);
    lemma_local_keys(files, old, new, s);
    assert(local_keys(s).contains(k));
    choose|m: int| 0 <= m < local_keys(s).len() && local_keys(s)[m] == k
}

proof fn lemma_mixed_routes(files: Files, old: Seq<char>, new: Seq<char>, s: LayoutState)
    requires
        tells_local(s, files, old, new),
    ensures
        separate(files, mixed_routes(old, new, s)),
{
    let r = mixed_routes(old, new, s);
    let keys = local_keys(s);
    lemma_routes_keyed(old, new, s);
    lemma_local_keys(files, old, new, s);
    assert forall|i: int| 0 <= i < r.len() implies files.dom().contains((#[trigger] r[i]).from)
        && !files.dom().contains(r[i].to) by {
        lemma_mixed_route(files, old, new, s, i);
    }
    assert forall|i: int, j: int| 0 <= i < j < r.len() implies (#[trigger] r[i]).from != (
    #[trigger] r[j]).from && r[i].to != r[j].to by {
        assert(keys[i] != keys[j]);
        if r[i].from == r[j].from {
            lemma_child_injective(old, keys[i], keys[j]);
        }
        if r[i].to == r[j].to {
            lemma_child_injective(new, keys[i], keys[j]);
        }
    }
}

proof fn lemma_legacy_routes(
    files: Files,
    old: Seq<char>,
    new_config: Seq<char>,
    new_local: Seq<char>,
    s: LayoutState,
)
    requires
        tells(s, files, old, new_config, new_local),
        config_apart(old, new_config, new_local),
    ensures
        separate(files, legacy_routes(old, new_config, new_local, s)),
{
    let c = routed(old, new_config, "config.toml"@, s.config);
    let m = mixed_routes(old, new_local, s);
    let r = legacy_routes(old, new_config, new_local, s);
    lemma_mixed_routes(files, old, new_local, s);
    assert forall|i: int| 0 <= i < r.len() implies files.dom().contains((#[trigger] r[i]).from)
        && !files.dom().contains(r[i].to) by {
        if i >= c.len() {
            assert(r[i] == m[i - c.len()]);
        }
    }
    assert forall|i: int, j: int| 0 <= i < j < r.len() implies (#[trigger] r[i]).from != (
    #[trigger] r[j]).from && r[i].to != r[j].to by {
        assert(r[j] == m[j - c.len()]);
        if i >= c.len() {
            assert(r[i] == m[i - c.len()]);
        } else {
            lemma_mixed_route(files, old, new_local, s, j - c.len());
            let k = choose|k: Seq<char>|
                is_local_key(k) && r[j].from == #[trigger] paths::child(old, k) && r[j].to
                    == paths::child(new_local, k) && files.dom().contains(paths::child(old, k))
                    && !files.dom().contains(paths::child(new_local, k));
            assert(k[0] != 'c') by {
                reveal_strlit("state.db");
                reveal_strlit("state.db-wal");
                reveal_strlit("state.db-shm");
                reveal_strlit("logs\\");
            }
            reveal_strlit("config.toml");
            if r[i].from == r[j].from {
                lemma_child_injective(old, "config.toml"@, k);
            }
            lemma_config_apart(new_config, new_local, k);
        }
    }
}

/// A file that is in both places is named by no transfer.
proof fn lemma_not_touched(
    files: Files,
    old: Seq<char>,
    new: Seq<char>,
    s: LayoutState,
    k: Seq<char>,
)
    requires
        tells_local(s, files, old, new),
        apart(old, new),
        is_local_key(k),
        files.dom().contains(paths::child(old, k)),
        files.dom().contains(paths::child(new, k)),
    ensures
        !names_source(mixed_routes(old, new, s), paths::child(old, k)),
        !names_target(mixed_routes(old, new, s), paths::child(old, k)),
        !names_source(mixed_routes(old, new, s), paths::child(new, k)),
        !names_target(mixed_routes(old, new, s), paths::child(new, k)),
{
    let r = mixed_routes(old, new, s);
    assert forall|i: int| 0 <= i < r.len() implies (#[trigger] r[i]).from != paths::child(old, k)
        && r[i].to != paths::child(old, k) && r[i].from != paths::child(new, k) && r[i].to
        != paths::child(new, k) by {
        lemma_mixed_route(files, old, new, s, i);
        let n = choose|n: Seq<char>|
            is_local_key(n) && r[i].from == #[trigger] paths::child(old, n) && r[i].to
                == paths::child(new, n) && files.dom().contains(paths::child(old, n))
                && !files.dom().contains(paths::child(new, n));
        if r[i].from == paths::child(old, k) {
            lemma_child_injective(old, n, k);
        }
        lemma_apart(old, new, n, k);
        lemma_apart(old, new, k, n);
    }
}

/// Nothing is transferred where every file is missing in its old place or there
/// in its new one.
proof fn lemma_nothing_is_routed(files: Files, old: Seq<char>, new: Seq<char>, s: LayoutState)
    requires
        tells_local(s, files, old, new),
        forall|k: Seq<char>|
            is_local_key(k) && #[trigger] files.dom().contains(paths::child(old, k))
                ==> files.dom().contains(paths::child(new, k)),
    ensures
        mixed_routes(old, new, s) == Seq::<Route>::empty(),
{
    let r = mixed_routes(old, new, s);
    if r.len() > 0 {
        lemma_mixed_route(files, old, new, s, 0);
    }
    assert(r =~= Seq::<Route>::empty());
}

/// No log is overwritten: every log that changes its place is a file that the
/// new directory does not hold.
pub proof fn law_logs_are_not_overwritten(
    old: Seq<char>,
    new: Seq<char>,
    files: Seq<LogFile>,
    k: int,
)
    requires
        0 <= k < log_routes(old, new, files).len(),
    ensures
        exists|i: int|
            0 <= i < files.len() && (#[trigger] files[i]).is_file && !files[i].dest_exists
                && log_routes(old, new, files)[k].to == paths::child(new, files[i].name@)
                && log_routes(old, new, files)[k].from == paths::child(old, files[i].name@),
    decreases files.len(),
{
    let before = log_routes(old, new, files.drop_last());
    if k < before.len() {
        law_logs_are_not_overwritten(old, new, files.drop_last(), k);
        let i = choose|i: int|
            0 <= i < files.drop_last().len() && (#[trigger] files.drop_last()[i]).is_file
                && !files.drop_last()[i].dest_exists && before[k].to == paths::child(
                new,
                files.drop_last()[i].name@,
            ) && before[k].from == paths::child(old, files.drop_last()[i].name@);
        assert(files[i] == files.drop_last()[i]);
        assert(log_routes(old, new, files)[k] == before[k]);
    } else {
        let i = files.len() - 1;
        assert(files[i] == files.last());
    }
}

/// The configuration of later releases stays where it is.
pub proof fn law_configuration_stays(old: Seq<char>, new: Seq<char>, s: LayoutState, k: int)
    requires
        0 <= k < database_routes(old, new, s).len(),
    ensures
        database_routes(old, new, s)[k].from != paths::child(old, "config.toml"@),
{
    reveal_strlit("config.toml");
    reveal_strlit("state.db");
    reveal_strlit("state.db-wal");
    reveal_strlit("state.db-shm");
    lemma_children_differ(old, "state.db"@, "config.toml"@);
    lemma_children_differ(old, "state.db-wal"@, "config.toml"@);
    lemma_children_differ(old, "state.db-shm"@, "config.toml"@);
    let a = routed(old, new, "state.db"@, s.database);
    let b = routed(old, new, "state.db-wal"@, s.write_ahead_log);
    let c = routed(old, new, "state.db-shm"@, s.shared_memory);
    if k < a.len() {
        assert(database_routes(old, new, s)[k] == a[k]);
    } else if k < a.len() + b.len() {
        assert(database_routes(old, new, s)[k] == b[k - a.len()]);
    } else {
        assert(database_routes(old, new, s)[k] == c[k - a.len() - b.len()]);
    }
}

/// Entries with names that start differently have different paths.
pub proof fn lemma_children_differ(dir: Seq<char>, a: Seq<char>, b: Seq<char>)
    requires
        a.len() > 0,
        b.len() > 0,
        a[0] != b[0],
    ensures
        paths::child(dir, a) != paths::child(dir, b),
{
    reveal_strlit("\\");
    let n = paths::child(dir, a).len() - a.len();
    assert(paths::child(dir, a)[n] == a[0]);
    assert(paths::child(dir, b)[n] == b[0]);
}

/// Every file of the old layout that is there, and whose place in the new one is
/// free, is taken over, under its name: the configuration, the database with what
/// belongs to it, and each log.
pub proof fn law_every_old_file_is_taken_over(
    old: Seq<char>,
    new_config: Seq<char>,
    new_local: Seq<char>,
    s: LayoutState,
    i: int,
)
    ensures
        ({
            let all = legacy_routes(old, new_config, new_local, s);
            let local = mixed_routes(old, new_local, s);
            let to = |dir: Seq<char>, name: Seq<char>|
                (Route { from: paths::child(old, name), to: paths::child(dir, name) });
            &&& s.config.source_exists && !s.config.dest_exists ==> all.contains(
                to(new_config, "config.toml"@),
            )
            &&& s.database.source_exists && !s.database.dest_exists ==> all.contains(
                to(new_local, "state.db"@),
            ) && local.contains(to(new_local, "state.db"@))
            &&& s.write_ahead_log.source_exists && !s.write_ahead_log.dest_exists ==> all.contains(
                to(new_local, "state.db-wal"@),
            ) && local.contains(to(new_local, "state.db-wal"@))
            &&& s.shared_memory.source_exists && !s.shared_memory.dest_exists ==> all.contains(
                to(new_local, "state.db-shm"@),
            ) && local.contains(to(new_local, "state.db-shm"@))
            &&& s.logs matches Some(l) ==> 0 <= i < l.files@.len() && l.files@[i].is_file
                && !l.files@[i].dest_exists ==> {
                let r = Route {
                    from: paths::child(paths::child(old, "logs"@), l.files@[i].name@),
                    to: paths::child(paths::child(new_local, "logs"@), l.files@[i].name@),
                };
                all.contains(r) && local.contains(r)
            }
        }),
{
    let config = routed(old, new_config, "config.toml"@, s.config);
    let a = routed(old, new_local, "state.db"@, s.database);
    let b = routed(old, new_local, "state.db-wal"@, s.write_ahead_log);
    let c = routed(old, new_local, "state.db-shm"@, s.shared_memory);
    let logs = logs_routes(old, new_local, s.logs);
    let local = mixed_routes(old, new_local, s);
    let all = legacy_routes(old, new_config, new_local, s);
    if wanted(s.config) {
        assert(all[0] == config[0]);
    }
    if wanted(s.database) {
        assert(local[0] == a[0]);
        assert(all[config.len() as int] == a[0]);
    }
    if wanted(s.write_ahead_log) {
        assert(local[a.len() as int] == b[0]);
        assert(all[(config.len() + a.len()) as int] == b[0]);
    }
    if wanted(s.shared_memory) {
        assert(local[(a.len() + b.len()) as int] == c[0]);
        assert(all[(config.len() + a.len() + b.len()) as int] == c[0]);
    }
    if let Some(l) = s.logs {
        if 0 <= i < l.files@.len() && l.files@[i].is_file && !l.files@[i].dest_exists {
            let k = lemma_log_is_routed(
                paths::child(old, "logs"@),
                paths::child(new_local, "logs"@),
                l.files@,
                i,
            );
            let n = a.len() + b.len() + c.len() + k;
            assert(local[n] == logs[k]);
            assert(all[config.len() + n] == logs[k]);
        }
    }
}

proof fn lemma_log_is_routed(
    old: Seq<char>,
    new: Seq<char>,
    files: Seq<LogFile>,
    i: int,
) -> (k: int)
    requires
        0 <= i < files.len(),
        files[i].is_file,
        !files[i].dest_exists,
    ensures
        0 <= k < log_routes(old, new, files).len(),
        log_routes(old, new, files)[k] == (Route {
            from: paths::child(old, files[i].name@),
            to: paths::child(new, files[i].name@),
        }),
    decreases files.len(),
{
    if i == files.len() - 1 {
        log_routes(old, new, files.drop_last()).len() as int
    } else {
        lemma_log_is_routed(old, new, files.drop_last(), i)
    }
}

/// The directory for the logs is made where it is missing; the old one goes only
/// where the logs are moved, and without old logs there is nothing to plan.
pub proof fn law_directories_of_the_logs(
    p: Option<LogsPlan>,
    old: Seq<char>,
    new: Seq<char>,
    logs: Option<LogsState>,
    empties: bool,
)
    requires
        is_logs_plan(p, old, new, logs, empties),
    ensures
        logs is None <==> p is None,
        logs matches Some(l) ==> {
            &&& l.new_dir_exists ==> p->0.create_dir is None
            &&& !l.new_dir_exists ==> text::opt_text(p->0.create_dir) == Some(
                paths::child(new, "logs"@),
            )
            &&& empties ==> text::opt_text(p->0.remove_dir) == Some(paths::child(old, "logs"@))
            &&& !empties ==> p->0.remove_dir is None
        },
{
}

/// The old layout is taken over where its directory is there; where the new
/// directories cannot be told, that is an error.
pub proof fn law_old_layout_is_taken_over(
    r: Result<Option<MigrationDirs>, InstallError>,
    legacy: Option<String>,
    legacy_exists: bool,
    roaming: Option<Seq<char>>,
    local: Option<Seq<char>>,
)
    requires
        is_legacy_migration(r, legacy, legacy_exists, roaming, local),
    ensures
        legacy is None || !legacy_exists <==> r matches Ok(None),
        legacy is Some && legacy_exists && roaming is Some && local is Some ==> (r matches Ok(
            Some(d),
        ) && Some(d.legacy) == legacy && d.new_config@ == config::app_dir(roaming->0)
            && d.new_local@ == config::app_dir(local->0)),
        legacy is Some && legacy_exists && (roaming is None || local is None) <==> r is Err,
{
}

/// The mixed layout is split where its directory is there and is not the local one
/// itself; then from the old directory to the local one.
pub proof fn law_mixed_layout_is_split(
    r: Result<Option<Transfer>, InstallError>,
    old_dir: Option<String>,
    old_exists: bool,
    local: Option<Seq<char>>,
)
    requires
        is_split_migration(r, old_dir, old_exists, local),
    ensures
        old_dir is None || !old_exists ==> r matches Ok(None),
        old_dir is Some && old_exists && local is None <==> r is Err,
        old_dir is Some && old_exists && local is Some && !paths::same_components(
            old_dir->0@,
            config::app_dir(local->0),
        ) <==> (r matches Ok(Some(t)) && Some(t.from) == old_dir && t.to@ == config::app_dir(
            local->0,
        )),
{
}

/// The layouts that came before lie in these directories below the base.
pub proof fn law_earlier_layouts_lie_below_the_base(base: Seq<char>)
    ensures
        legacy_dir_of(Some(base)) == Some(paths::child(base, "ImmichSync"@)),
        mixed_dir_of(Some(base)) == Some(config::app_dir(base)),
        legacy_dir_of(None) is None,
        mixed_dir_of(None) is None,
{
}

} // verus!
