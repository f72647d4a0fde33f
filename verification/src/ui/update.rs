//! The dialog that offers an update.

use vstd::prelude::*;

use crate::text;
use crate::text::{concat2, concat3};
use crate::ui::trash_log;
use crate::ui::trash_log::megabytes;
use crate::updater::UpdateInfo;

verus! {

/// Where the dialog stands.
#[derive(Debug, Clone, Copy, PartialEq, Eq, Structural)]
pub enum DialogState {
    /// The update is offered.
    Prompt,
    /// The update is downloaded and put in place.
    Downloading,
    /// The update is in place.
    ReadyToRestart,
    /// Something went wrong.
    Error,
}

/// How far a download has come.
#[derive(Debug, Clone, Copy, PartialEq, Eq, Structural)]
pub enum DownloadProgress {
    /// So many bytes were loaded, of so many; 0 where that is not known.
    Loading { downloaded: u64, total: u64 },
    /// The update is in place.
    Applied,
    /// The download or the installation failed.
    Failed,
}

/// What the dialog says where something went wrong and nothing else is known.
pub const FAILURE_TEXT: &'static str = "Download or installation failed. Check logs for details.";

/// The dialog.
pub struct UpdateApp {
    pub info: UpdateInfo,
    pub state: DialogState,
    pub error_msg: String,
}

/// How the user leaves the dialog.
#[derive(Debug, Clone, Copy, PartialEq, Eq, Structural)]
pub enum DialogExit {
    /// The update is skipped, or the dialog was closed.
    Skip,
    /// The update is in place; it takes effect at once or later.
    Restart,
}

/// The exit code of the process that shows the dialog: 0 where an update was put
/// in place.
pub fn exit_code(exit: DialogExit) -> (r: i32)
    ensures
        r == (match exit {
            DialogExit::Skip => 1i32,
            DialogExit::Restart => 0i32,
        }),
{
    match exit {
        DialogExit::Skip => 1,
        DialogExit::Restart => 0,
    }
}

impl UpdateApp {
    /// The dialog as it is opened.
    pub fn new(info: UpdateInfo) -> (r: UpdateApp)
        ensures
            r.info == info,
            r.state is Prompt,
            r.error_msg@ == ""@,
    {
        UpdateApp { info, state: DialogState::Prompt, error_msg: "".to_owned() }
    }

    /// The lines that offer the update: the new version, the running one, and
    /// the size of the download where it is known.
    pub fn prompt_lines(&self) -> (r: Vec<String>)
        ensures
            text::texts(r@) == seq![
                "A new version of ImmichSync is available: v"@ + self.info.new_version@,
                "You are currently running v"@ + self.info.current_version@,
            ] + (if self.info.size > 0 {
                seq!["Download size: "@ + trash_log::megabytes_text(self.info.size) + " MB"@]
            } else {
                Seq::empty()
            }),
    {
        let mut r: Vec<String> = Vec::new();
        r.push(concat2("A new version of ImmichSync is available: v", &self.info.new_version));
        r.push(concat2("You are currently running v", &self.info.current_version));
        if self.info.size > 0 {
            r.push(concat3("Download size: ", &megabytes(self.info.size), " MB"));
        }
        assert(text::texts(r@) =~= seq![
            "A new version of ImmichSync is available: v"@ + self.info.new_version@,
            "You are currently running v"@ + self.info.current_version@,
        ] + (if self.info.size > 0 {
            seq!["Download size: "@ + trash_log::megabytes_text(self.info.size) + " MB"@]
        } else {
            Seq::empty()
        }));
        r
    }

    /// The line under the progress of a download.
    pub fn progress_line(downloaded: u64, total: u64) -> (r: String)
        ensures
            r@ == (if total > 0 {
                trash_log::megabytes_text(downloaded) + " MB / "@ + trash_log::megabytes_text(
                    total,
                ) + " MB"@
            } else {
                trash_log::megabytes_text(downloaded) + " MB downloaded"@
            }),
    {
        if total > 0 {
            let mut r: String = concat3(&megabytes(downloaded), " MB / ", &megabytes(total));
            r.append(" MB");
            r
        } else {
            concat2(&megabytes(downloaded), " MB downloaded")
        }
    }

    /// The line that says that the update is in place.
    pub fn ready_line(&self) -> (r: String)
        ensures
            r@ == "ImmichSync v"@ + self.info.new_version@
                + " has been installed. Restart to use the new version."@,
    {
        concat3(
            "ImmichSync v",
            &self.info.new_version,
            " has been installed. Restart to use the new version.",
        )
    }

    /// Take the update.
    pub fn start_download(&mut self)
        ensures
            final(self).state is Downloading,
            final(self).info == old(self).info,
            final(self).error_msg == old(self).error_msg,
    {
        self.state = DialogState::Downloading;
    }

    /// Take in how far the download has come. Only a download that is under way
    /// can end.
    pub fn check_download_state(&mut self, progress: DownloadProgress)
        ensures
            final(self).info == old(self).info,
            final(self).state == (match (old(self).state, progress) {
                (DialogState::Downloading, DownloadProgress::Applied) => DialogState::ReadyToRestart,
                (DialogState::Downloading, DownloadProgress::Failed) => DialogState::Error,
                (s, _) => s,
            }),
            final(self).error_msg@ == (if old(self).state is Downloading && progress is Failed
                && old(self).error_msg@.len() == 0 {
                FAILURE_TEXT@
            } else {
                old(self).error_msg@
            }),
    {
        match self.state {
            DialogState::Downloading => match progress {
                DownloadProgress::Applied => {
                    self.state = DialogState::ReadyToRestart;
                },
                DownloadProgress::Failed => {
                    self.state = DialogState::Error;
                    if self.error_msg.as_str().is_empty() {
                        self.error_msg = FAILURE_TEXT.to_owned();
                    }
                },
                DownloadProgress::Loading { .. } => {},
            },
            _ => {},
        }
    }
}

} // verus!
