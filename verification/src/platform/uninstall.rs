//! Removal of the program.
//!
//! The program, its shortcuts, its autostart entry and its entry in the list of
//! installed programs are removed. The configuration, the upload history and
//! the logs are kept.

use vstd::prelude::*;

use crate::config;
use crate::config::Config;
use crate::paths;
use crate::text;
use crate::text::concat3;

verus! {

broadcast use vstd::seq::group_seq_axioms;

/// The class of the window by which a running instance is told to end.
pub const SHUTDOWN_WINDOW_CLASS: &'static str = "ImmichSyncShutdown";

/// The name of the shortcuts.
pub const SHORTCUT_NAME: &'static str = "ImmichSync";

/// Milliseconds that a running instance has to end.
pub const STOP_WAIT_MS: u64 = 500;

/// A step of the removal. One that fails stops no other.
#[derive(Debug)]
pub enum UninstallStep {
    /// Tell a running instance to end.
    StopRunningInstance,
    /// Wait this long.
    Wait { ms: u64 },
    /// Delete the autostart entry.
    RemoveAutostart,
    /// Delete the shortcuts of this name.
    RemoveShortcuts { name: String },
    /// Delete the entry in the list of installed programs.
    RemoveRegistryEntry,
    /// Tell the user.
    ShowComplete,
    /// Have this directory deleted once the program has ended.
    DeleteLater { dir: String },
}

/// Whether `steps` are the steps of the removal.
pub open spec fn is_removal(steps: Seq<UninstallStep>, silent: bool, dir: Option<Seq<char>>) -> bool {
    let shown: int = if silent { 0 } else { 1 };
    let deleted: int = if dir is Some { 1 } else { 0 };
    &&& steps.len() == 5 + shown + deleted
    &&& steps[0] is StopRunningInstance
    &&& steps[1] == (UninstallStep::Wait { ms: STOP_WAIT_MS })
    &&& steps[2] is RemoveAutostart
    &&& steps[3] is RemoveShortcuts
    &&& steps[3]->name@ == SHORTCUT_NAME@
    &&& steps[4] is RemoveRegistryEntry
    &&& !silent ==> steps[5] is ShowComplete
    &&& dir is Some ==> steps[5 + shown] is DeleteLater && steps[5 + shown]->dir@ == dir->0
}

/// The steps of the removal, in order. `dir` is the directory of the installed
/// program, where it is known. A silent removal tells the user nothing.
pub fn run(silent: bool, dir: Option<String>) -> (r: Vec<UninstallStep>)
    ensures
        is_removal(r@, silent, text::opt_text(dir)),
{
    let mut r: Vec<UninstallStep> = Vec::new();
    r.push(UninstallStep::StopRunningInstance);
    r.push(UninstallStep::Wait { ms: STOP_WAIT_MS });
    r.push(UninstallStep::RemoveAutostart);
    r.push(UninstallStep::RemoveShortcuts { name: SHORTCUT_NAME.to_owned() });
    r.push(UninstallStep::RemoveRegistryEntry);
    if !silent {
        r.push(UninstallStep::ShowComplete);
    }
    if let Some(d) = dir {
        r.push(UninstallStep::DeleteLater { dir: d });
    }
    r
}

/// The command that deletes a directory once the program has ended.
pub fn self_delete_script(dir: &str) -> (r: String)
    ensures
        r@ == "ping 127.0.0.1 -n 5 >nul & rmdir /s /q \""@ + dir@ + "\" & exit"@,
{
    concat3("ping 127.0.0.1 -n 5 >nul & rmdir /s /q \"", dir, "\" & exit")
}

/// The text that tells the user that the program was removed, and what was
/// kept.
pub open spec fn complete_text(config_path: Seq<char>, local_path: Seq<char>) -> Seq<char> {
    "ImmichSync has been removed.\n\nYour settings and upload history are preserved at:\n"@
        + config_path + "\n"@ + local_path
        + "\n\nReinstall any time to resume from where you left off."@
}

/// The text that tells the user that the program was removed. A path that is
/// not known is left out.
pub fn complete_dialog_text(config_path: Option<&str>, local_path: Option<&str>) -> (r: String)
    ensures
        r@ == complete_text(
            match config_path {
                Some(p) => p@,
                None => ""@,
            },
            match local_path {
                Some(p) => p@,
                None => ""@,
            },
        ),
{
    let c: &str = match config_path {
        Some(p) => p,
        None => "",
    };
    let l: &str = match local_path {
        Some(p) => p,
        None => "",
    };
    let mut r: String = concat3(
        "ImmichSync has been removed.\n\nYour settings and upload history are preserved at:\n",
        c,
        "\n",
    );
    r.append(l);
    r.append("\n\nReinstall any time to resume from where you left off.");
    r
}

/// Whether `kept` are the paths that a removal keeps, for these application
/// data directories.
pub open spec fn is_kept(
    kept: Seq<Seq<char>>,
    roaming: Option<Seq<char>>,
    local: Option<Seq<char>>,
) -> bool {
    kept == (match roaming {
        Some(b) => seq![paths::child(config::app_dir(b), "config.toml"@)],
        None => Seq::empty(),
    }) + (match local {
        Some(b) => seq![config::app_dir(b)],
        None => Seq::empty(),
    })
}

/// The paths among `config_path` and `local_dir` that are known, in this order.
pub open spec fn known_paths(
    config_path: Option<Seq<char>>,
    local_dir: Option<Seq<char>>,
) -> Seq<Seq<char>> {
    (match config_path {
        Some(p) => seq![p],
        None => Seq::empty(),
    }) + (match local_dir {
        Some(p) => seq![p],
        None => Seq::empty(),
    })
}

/// The paths that a removal keeps: the configuration file and the directory of
/// machine-local state, where they are known.
pub fn preserved_paths_of(config_path: Option<String>, local_dir: Option<String>) -> (r: Vec<
    String,
>)
    ensures
        text::texts(r@) == known_paths(text::opt_text(config_path), text::opt_text(local_dir)),
{
    let ghost expected = known_paths(text::opt_text(config_path), text::opt_text(local_dir));
    let mut r: Vec<String> = Vec::new();
    if let Some(p) = config_path {
        r.push(p);
    }
    if let Some(p) = local_dir {
        r.push(p);
    }
    assert(text::texts(r@) =~= expected);
    r
}

/// The configuration file and the directory of machine-local state, which a
/// removal keeps. Which directories the machine has is not stated; see
/// [`preserved_paths_of`] for what follows from them.
pub fn preserved_data_paths() -> (r: Vec<String>)
    ensures
        exists|roaming: Option<Seq<char>>, local: Option<Seq<char>>|
            #[trigger] is_kept(text::texts(r@), roaming, local),
{
    let ghost mut roaming: Option<Seq<char>> = None;
    let ghost mut local: Option<Seq<char>> = None;
    let config_path: Option<String> = match Config::config_path() {
        Ok(p) => {
            proof {
                roaming = Some(
                    choose|base: Seq<char>|
                        p@ == paths::child(#[trigger] config::app_dir(base), "config.toml"@),
                );
            }
            Some(p)
        },
        Err(_) => None,
    };
    let local_dir: Option<String> = match Config::local_data_dir() {
        Ok(p) => {
            proof {
                local = Some(choose|base: Seq<char>| p@ == #[trigger] config::app_dir(base));
            }
            Some(p)
        },
        Err(_) => None,
    };
    let r: Vec<String> = preserved_paths_of(config_path, local_dir);
    assert(is_kept(text::texts(r@), roaming, local));
    r
}

/// The machine-local state is not in the directory that a removal deletes.
pub proof fn law_removal_keeps_local_data(base: Seq<char>)
    ensures
        !config::program_dir(base).is_prefix_of(config::app_dir(base)),
{
    reveal_strlit("Programs");
    reveal_strlit("bees-roadhouse");
    reveal_strlit("immichsync");
    reveal_strlit("\\");
    let p = paths::child(base, "Programs"@);
    let q = paths::child(base, "bees-roadhouse"@);
    let n = p.len() - "Programs"@.len();
    assert(p[n] == 'P');
    assert(q[n] == 'b');
    assert(config::program_dir(base)[n] == p[n]);
    assert(config::app_dir(base)[n] == q[n]);
}

/// Removing the program stops it first and takes away its autostart entry, its
/// shortcuts and its entry in the list of programs; the user is told unless that
/// is not wanted, and the directory goes last.
pub proof fn law_removal_is_complete(
    steps: Seq<UninstallStep>,
    silent: bool,
    dir: Option<Seq<char>>,
)
    requires
        is_removal(steps, silent, dir),
    ensures
        steps[0] is StopRunningInstance,
        steps[1] == (UninstallStep::Wait { ms: 500 }),
        exists|i: int| 1 < i < steps.len() && #[trigger] steps[i] is RemoveAutostart,
        exists|i: int| 1 < i < steps.len() && #[trigger] steps[i] is RemoveShortcuts
            && steps[i]->name@ == "ImmichSync"@,
        exists|i: int| 1 < i < steps.len() && #[trigger] steps[i] is RemoveRegistryEntry,
        silent ==> forall|i: int| 0 <= i < steps.len() ==> !(#[trigger] steps[i] is ShowComplete),
        !silent ==> exists|i: int| 1 < i < steps.len() && #[trigger] steps[i] is ShowComplete,
        dir matches Some(d) ==> steps.last() is DeleteLater && steps.last()->dir@ == d,
        dir is None ==> forall|i: int| 0 <= i < steps.len() ==> !(#[trigger] steps[i] is DeleteLater),
{
    assert(steps[2] is RemoveAutostart);
    assert(steps[3] is RemoveShortcuts);
    assert(steps[4] is RemoveRegistryEntry);
    if !silent {
        assert(steps[5] is ShowComplete);
    }
}

/// What is kept is the configuration and the local data, as far as they are known.
pub proof fn law_known_data_is_kept(
    kept: Seq<Seq<char>>,
    roaming: Option<Seq<char>>,
    local: Option<Seq<char>>,
    p: Seq<char>,
    q: Seq<char>,
)
    ensures
        is_kept(kept, roaming, local) ==> (kept.contains(p) <==> (roaming matches Some(b) && p
            == paths::child(config::app_dir(b), "config.toml"@)) || (local matches Some(b) && p
            == config::app_dir(b))),
        known_paths(Some(p), Some(q)) == seq![p, q],
        known_paths(Some(p), None) == seq![p],
        known_paths(None, Some(q)) == seq![q],
        known_paths(None, None).len() == 0,
{
    assert(known_paths(Some(p), Some(q)) =~= seq![p, q]);
    assert(known_paths(Some(p), None) =~= seq![p]);
    assert(known_paths(None, Some(q)) =~= seq![q]);
    if is_kept(kept, roaming, local) {
        if roaming is Some {
            assert(kept[0] == paths::child(config::app_dir(roaming->0), "config.toml"@));
        }
        if local is Some {
            assert(kept[kept.len() - 1] == config::app_dir(local->0));
        }
    }
}

} // verus!
