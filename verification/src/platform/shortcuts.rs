//! Shortcuts on the desktop and in the start menu.

use vstd::prelude::*;

use crate::paths;
use crate::paths::child_path;
use crate::text;
use crate::text::concat2;

verus! {

/// The id by which Windows knows the application. Notifications are shown only
/// for a program with a shortcut in the start menu that carries this id.
pub const APP_USER_MODEL_ID: &'static str = "BeesRoadhouse.ImmichSync";

/// What a shortcut holds.
#[derive(Debug)]
pub struct Shortcut {
    /// The file of the shortcut.
    pub lnk_path: String,
    /// The program that it starts, and whose icon it shows.
    pub target: String,
    pub description: String,
    /// The directory in which the program is started, if any.
    pub working_dir: Option<String>,
    /// The id of the application.
    pub app_id: String,
}

/// The file of the shortcut `name` in a folder.
pub open spec fn shortcut_file(folder: Seq<char>, name: Seq<char>) -> Seq<char> {
    paths::child(folder, name + ".lnk"@)
}

/// The file of the shortcut `name` in a folder.
pub fn shortcut_path(folder: &str, name: &str) -> (r: String)
    ensures
        r@ == shortcut_file(folder@, name@),
{
    child_path(folder, &concat2(name, ".lnk"))
}

/// The shortcut `name` to a program, in a folder.
pub fn create_shortcut(folder: &str, name: &str, exe_path: &str, description: &str) -> (r: Shortcut)
    ensures
        r.lnk_path@ == shortcut_file(folder@, name@),
        r.target@ == exe_path@,
        r.description@ == description@,
        text::opt_text(r.working_dir) == paths::path_parent(exe_path@),
        r.app_id@ == APP_USER_MODEL_ID@,
{
    Shortcut {
        lnk_path: shortcut_path(folder, name),
        target: exe_path.to_owned(),
        description: description.to_owned(),
        working_dir: paths::parent(exe_path),
        app_id: APP_USER_MODEL_ID.to_owned(),
    }
}

// ── Laws ────────────────────────────────────────────────────────────────────

/// A shortcut is a file in the folder, named like it.
pub proof fn law_shortcut_lies_in_the_folder(folder: Seq<char>, name: Seq<char>)
    ensures
        folder.is_prefix_of(shortcut_file(folder, name)),
        shortcut_file(folder, name).skip(
            shortcut_file(folder, name).len() - (name + ".lnk"@).len(),
        ) == name + ".lnk"@,
{
    paths::law_child_is_below_its_directory(folder, name + ".lnk"@);
}

} // verus!
