//! Which notifications are shown.

use vstd::prelude::*;

use crate::config::Config;
use crate::text;
use crate::text::{concat2, u64_text};

verus! {

/// A notification: its title and its text.
#[derive(Debug)]
pub struct Toast {
    pub title: String,
    pub body: String,
}

/// The notification settings.
#[derive(Debug, Clone, Copy, PartialEq, Eq, Structural)]
pub struct Notifications {
    /// Whether notifications are shown at all.
    pub enabled: bool,
    /// Whether the end of a batch of uploads is notified.
    pub notify_on_complete: bool,
}

/// Whether `t` is a notification with this title and text.
pub open spec fn is_toast(t: Option<Toast>, title: Seq<char>, body: Seq<char>) -> bool {
    t matches Some(x) && x.title@ == title && x.body@ == body
}

/// The text that tells how many files were uploaded.
pub open spec fn uploaded_text(count: u32) -> Seq<char> {
    if count == 1 {
        "1 file uploaded successfully."@
    } else {
        text::decimal(count as nat) + " files uploaded successfully."@
    }
}

impl Notifications {
    /// The settings of a configuration.
    pub fn new(config: &Config) -> (r: Notifications)
        ensures
            r.enabled == config.ui.show_notifications,
            r.notify_on_complete == config.ui.notification_on_complete,
    {
        Notifications {
            enabled: config.ui.show_notifications,
            notify_on_complete: config.ui.notification_on_complete,
        }
    }

    /// The notification of a batch of `count` uploads; none where such
    /// notifications are off or nothing was uploaded.
    pub fn notify_upload_complete(&self, count: u32) -> (r: Option<Toast>)
        ensures
            if self.enabled && self.notify_on_complete && count > 0 {
                is_toast(r, "Upload Complete"@, uploaded_text(count))
            } else {
                r is None
            },
    {
        if !self.enabled || !self.notify_on_complete || count == 0 {
            return None;
        }
        let body: String = if count == 1 {
            "1 file uploaded successfully.".to_owned()
        } else {
            concat2(&u64_text(count as u64), " files uploaded successfully.")
        };
        Some(Toast { title: "Upload Complete".to_owned(), body })
    }

    /// The notification of an error, where notifications are on.
    pub fn notify_error(&self, msg: &str) -> (r: Option<Toast>)
        ensures
            if self.enabled {
                is_toast(r, "ImmichSync Error"@, msg@)
            } else {
                r is None
            },
    {
        self.show_toast_raw("ImmichSync Error", msg)
    }

    /// A notification with this title and text, where notifications are on.
    pub fn show_toast_raw(&self, title: &str, body: &str) -> (r: Option<Toast>)
        ensures
            if self.enabled {
                is_toast(r, title@, body@)
            } else {
                r is None
            },
    {
        if !self.enabled {
            return None;
        }
        Some(Toast { title: title.to_owned(), body: body.to_owned() })
    }
}

// ── Laws ────────────────────────────────────────────────────────────────────

/// The notice of finished uploads gives their number.
pub proof fn law_notice_gives_the_number(count: u32)
    ensures
        count == 1 ==> uploaded_text(count) == "1 file uploaded successfully."@,
        count != 1 ==> uploaded_text(count) == text::decimal(count as nat)
            + " files uploaded successfully."@,
{
}

/// A notice has the title and the text that it was given.
pub proof fn law_notice_says_what_it_was_given(t: Option<Toast>, title: Seq<char>, body: Seq<char>)
    requires
        is_toast(t, title, body),
    ensures
        t is Some,
        t->0.title@ == title,
        t->0.body@ == body,
{
}

} // verus!
