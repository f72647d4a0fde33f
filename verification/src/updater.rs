//! Update check and installation of updates.
//!
//! A release is an update if its version is newer than the running one and it
//! has the executable among its assets. A running executable cannot be
//! overwritten on Windows but can be renamed, so an update is put in place by
//! two renames.

use std::time::Duration;

use vstd::prelude::*;

use crate::clock;
use crate::paths;
use crate::text;
use crate::text::{concat2, concat3, drop_prefix, eq_ignore_ascii_case};

verus! {

broadcast use vstd::seq::group_seq_axioms;

/// The repository that is checked where none is configured.
pub const DEFAULT_REPO: &'static str = "gumbees/immichsync";

/// The asset of a release that is installed.
pub const ASSET_NAME: &'static str = "immichsync.exe";

/// Seconds between start-up and the first automatic check.
pub const STARTUP_DELAY_SECS: u64 = 30;

/// The time between start-up and the first automatic check.
pub fn startup_delay() -> (r: Duration)
    ensures
        clock::duration_parts(r) == (STARTUP_DELAY_SECS, 0u32),
{
    Duration::from_secs(STARTUP_DELAY_SECS)
}

/// The address of the latest release of a repository.
pub open spec fn api_url_of(repo: Seq<char>) -> Seq<char> {
    "https://api.github.com/repos/"@ + repo + "/releases/latest"@
}

/// The address of the latest release of a repository.
pub fn github_api_url(repo: &str) -> (r: String)
    ensures
        r@ == api_url_of(repo@),
{
    concat3("https://api.github.com/repos/", repo, "/releases/latest")
}

/// The repository to check: the default where none is configured.
pub fn effective_repo(repo: &str) -> (r: String)
    ensures
        r@ == (if repo@.len() == 0 {
            DEFAULT_REPO@
        } else {
            repo@
        }),
{
    if repo.is_empty() {
        DEFAULT_REPO.to_owned()
    } else {
        repo.to_owned()
    }
}

/// The time between two checks; zero hours disable them.
pub fn check_interval_from_hours(hours: u32) -> (r: Duration)
    ensures
        clock::duration_parts(r) == (
            if hours == 0 {
                u64::MAX
            } else {
                (hours * 3600) as u64
            },
            0u32,
        ),
{
    if hours == 0 {
        Duration::from_secs(u64::MAX)
    } else {
        Duration::from_secs(hours as u64 * 3600)
    }
}

// ── Versions ────────────────────────────────────────────────────────────────

/// Whether `semver::Version::parse` reads a text.
pub uninterp spec fn is_version(s: Seq<char>) -> bool;

/// Whether the version that the first text spells comes after that of the
/// second, in the order of `semver::Version`.
pub uninterp spec fn version_after(a: Seq<char>, b: Seq<char>) -> bool;

/// `semver::Version::parse`: the version that a text spells, where it spells
/// one, as the `Display` of `semver::Version` writes it. That is the text itself.
#[verifier::external_body]
pub(crate) fn parse_version(s: &str) -> (r: Option<String>)
    ensures
        r is Some <==> is_version(s@),
        r matches Some(t) ==> t@ == s@,
{
    match semver::Version::parse(s) {
        Ok(v) => Some(v.to_string()),
        Err(_) => None,
    }
}

/// The order of `semver::Version`: whether the version `a` comes after `b`. No
/// version comes after itself, and of two versions at most one comes after the
/// other.
#[verifier::external_body]
pub(crate) fn newer_version(a: &str, b: &str) -> (r: bool)
    requires
        is_version(a@),
        is_version(b@),
    ensures
        r == version_after(a@, b@),
        a@ == b@ ==> !r,
        r ==> !version_after(b@, a@),
{
    match (semver::Version::parse(a), semver::Version::parse(b)) {
        (Ok(x), Ok(y)) => x > y,
        _ => false,
    }
}

// ── Check ───────────────────────────────────────────────────────────────────

/// A release as the server describes it.
#[derive(Debug)]
pub struct GitHubRelease {
    pub tag_name: String,
    pub body: Option<String>,
    pub assets: Vec<GitHubAsset>,
}

/// A file of a release.
#[derive(Debug)]
pub struct GitHubAsset {
    pub name: String,
    pub browser_download_url: String,
    pub size: u64,
}

/// An available update.
#[derive(Debug)]
pub struct UpdateInfo {
    pub current_version: String,
    pub new_version: String,
    pub download_url: String,
    pub size: u64,
    pub changelog: String,
}

impl Clone for UpdateInfo {
    fn clone(&self) -> (r: Self)
        ensures
            r == *self,
    {
        UpdateInfo {
            current_version: self.current_version.clone(),
            new_version: self.new_version.clone(),
            download_url: self.download_url.clone(),
            size: self.size,
            changelog: self.changelog.clone(),
        }
    }
}

/// What a check found.
#[derive(Debug)]
pub enum UpdateCheckResult {
    /// A newer version.
    Available(UpdateInfo),
    /// Nothing newer.
    UpToDate,
    /// The check failed.
    Failed(String),
}

/// Why an update could not be checked or installed.
#[derive(Debug)]
pub enum UpdateError {
    Network(String),
    NoAsset,
    InvalidVersion(String),
    File(String),
}

/// The text of an [`UpdateError`].
pub open spec fn update_message(e: UpdateError) -> Seq<char> {
    match e {
        UpdateError::Network(m) => "network error: "@ + m@,
        UpdateError::NoAsset => "no matching asset '"@ + ASSET_NAME@ + "' in release"@,
        UpdateError::InvalidVersion(v) => "invalid version in release tag: "@ + v@,
        UpdateError::File(m) => "file error: "@ + m@,
    }
}

impl UpdateError {
    /// The message shown to the user.
    pub fn message(&self) -> (r: String)
        ensures
            r@ == update_message(*self),
    {
        match self {
            UpdateError::Network(m) => concat2("network error: ", m),
            UpdateError::NoAsset => concat3("no matching asset '", ASSET_NAME, "' in release"),
            UpdateError::InvalidVersion(v) => concat2("invalid version in release tag: ", v),
            UpdateError::File(m) => concat2("file error: ", m),
        }
    }
}

/// The version of a release: its tag, without a leading `v`.
pub open spec fn release_version(tag: Seq<char>) -> Seq<char> {
    text::without_prefix(tag, "v"@)
}

/// Whether an asset is the executable.
pub open spec fn is_executable(a: GitHubAsset) -> bool {
    text::same_ignoring_ascii_case(a.name@, ASSET_NAME@)
}

/// The first executable among the assets.
pub open spec fn executable_of(v: Seq<GitHubAsset>) -> Option<GitHubAsset>
    decreases v.len(),
{
    if v.len() == 0 {
        None
    } else if is_executable(v[0]) {
        Some(v[0])
    } else {
        executable_of(v.drop_first())
    }
}

/// What a release means for a running version.
pub enum Verdict {
    /// The tag of the release is no version.
    BadTag,
    /// The running version is no version.
    BadCurrent,
    /// The release is not newer.
    UpToDate,
    /// The release is newer, but the executable is missing.
    NoAsset,
    /// The release is an update, with this executable.
    Update(GitHubAsset),
}

/// What a release means for the running version `current`.
pub open spec fn verdict(release: GitHubRelease, current: Seq<char>) -> Verdict {
    let version = release_version(release.tag_name@);
    if !is_version(version) {
        Verdict::BadTag
    } else if !is_version(current) {
        Verdict::BadCurrent
    } else if !version_after(version, current) {
        Verdict::UpToDate
    } else {
        match executable_of(release.assets@) {
            None => Verdict::NoAsset,
            Some(a) => Verdict::Update(a),
        }
    }
}

/// Whether `info` describes the update from `current` to the release, with this
/// executable. An update is never a downgrade.
pub open spec fn describes(
    info: UpdateInfo,
    release: GitHubRelease,
    current: Seq<char>,
    asset: GitHubAsset,
) -> bool {
    &&& info.current_version@ == current
    &&& info.new_version@ == release_version(release.tag_name@)
    &&& info.download_url == asset.browser_download_url
    &&& info.size == asset.size
    &&& info.changelog@ == (match text::opt_text(release.body) {
        Some(b) => b,
        None => ""@,
    })
    &&& version_after(info.new_version@, current)
    &&& !version_after(current, info.new_version@)
    &&& info.new_version@ != current
}

/// What a release means for the running version `current`.
///
/// The tag and the running version must be versions. A version that is not
/// newer means that the application is up to date. A newer one must come with
/// the executable.
pub fn evaluate_release(release: &GitHubRelease, current: &str) -> (r: Result<
    UpdateCheckResult,
    UpdateError,
>)
    ensures
        match verdict(*release, current@) {
            Verdict::BadTag => r matches Err(UpdateError::InvalidVersion(v)) && v
                == release.tag_name,
            Verdict::BadCurrent => r matches Err(UpdateError::InvalidVersion(v)) && v@ == current@,
            Verdict::UpToDate => r matches Ok(UpdateCheckResult::UpToDate),
            Verdict::NoAsset => r matches Err(UpdateError::NoAsset),
            Verdict::Update(a) => r matches Ok(UpdateCheckResult::Available(info)) && describes(
                info,
                *release,
                current@,
                a,
            ),
        },
{
    let tag: String = drop_prefix(&release.tag_name, "v");
    let remote: String = match parse_version(&tag) {
        Some(v) => v,
        None => {
            return Err(UpdateError::InvalidVersion(release.tag_name.clone()));
        },
    };
    let running: String = match parse_version(current) {
        Some(v) => v,
        None => {
            return Err(UpdateError::InvalidVersion(current.to_owned()));
        },
    };
    if !newer_version(&remote, &running) {
        return Ok(UpdateCheckResult::UpToDate);
    }
    let mut i: usize = 0;
    assert(release.assets@.skip(0) =~= release.assets@);
    while i < release.assets.len() && !eq_ignore_ascii_case(&release.assets[i].name, ASSET_NAME)
        invariant
            i <= release.assets@.len(),
            executable_of(release.assets@.skip(i as int)) == executable_of(release.assets@),
        decreases release.assets@.len() - i,
    {
        assert(release.assets@.skip(i as int).drop_first() =~= release.assets@.skip(i + 1));
        i += 1;
    }
    if i == release.assets.len() {
        return Err(UpdateError::NoAsset);
    }
    let asset = &release.assets[i];
    Ok(
        UpdateCheckResult::Available(
            UpdateInfo {
                current_version: current.to_owned(),
                new_version: remote,
                download_url: asset.browser_download_url.clone(),
                size: asset.size,
                changelog: match &release.body {
                    Some(b) => b.clone(),
                    None => "".to_owned(),
                },
            },
        ),
    )
}

/// The result of a check. `fetched` is the latest release, or why it could not
/// be fetched.
pub fn check_for_update(fetched: Result<GitHubRelease, UpdateError>, current: &str) -> (r:
    UpdateCheckResult)
    ensures
        match fetched {
            Err(e) => r matches UpdateCheckResult::Failed(m) && m@ == update_message(e),
            Ok(release) => match verdict(release, current@) {
                Verdict::BadTag => r matches UpdateCheckResult::Failed(m) && m@
                    == "invalid version in release tag: "@ + release.tag_name@,
                Verdict::BadCurrent => r matches UpdateCheckResult::Failed(m) && m@
                    == "invalid version in release tag: "@ + current@,
                Verdict::UpToDate => r is UpToDate,
                Verdict::NoAsset => r matches UpdateCheckResult::Failed(m) && m@ == update_message(
                    UpdateError::NoAsset,
                ),
                Verdict::Update(a) => r matches UpdateCheckResult::Available(info) && describes(
                    info,
                    release,
                    current@,
                    a,
                ),
            },
        },
{
    match fetched {
        Err(e) => UpdateCheckResult::Failed(e.message()),
        Ok(release) => match evaluate_release(&release, current) {
            Ok(found) => found,
            Err(e) => UpdateCheckResult::Failed(e.message()),
        },
    }
}

// ── Installation ────────────────────────────────────────────────────────────

/// How to put a downloaded executable in place.
#[derive(Debug)]
pub struct ApplyPlan {
    /// What the running executable is renamed to; one that is left over from
    /// an earlier update is removed first.
    pub old_exe: String,
    /// The file that the new version is written to.
    pub version_file: String,
}

/// Where an update of the executable `current_exe` is downloaded to.
pub fn download_path(current_exe: &str) -> (r: String)
    ensures
        r@ == paths::path_with_extension(current_exe@, "exe.new"@),
{
    proof {
        reveal_strlit("exe.new");
    }
    paths::with_extension(current_exe, "exe.new")
}

/// What the executable `current_exe` is renamed to when it is replaced.
pub fn old_exe_path(current_exe: &str) -> (r: String)
    ensures
        r@ == paths::path_with_extension(current_exe@, "exe.old"@),
{
    proof {
        reveal_strlit("exe.old");
    }
    paths::with_extension(current_exe, "exe.old")
}

/// The file beside an executable that holds its version.
pub open spec fn version_file_beside(exe: Seq<char>) -> Seq<char> {
    match paths::path_parent(exe) {
        Some(dir) => paths::path_joined(dir, "version.txt"@),
        None => "version.txt"@,
    }
}

/// How to put a downloaded executable in the place of `current_exe`: the
/// running one is renamed, the new one takes its name, and the version is
/// written beside it.
pub fn apply_update(current_exe: &str) -> (r: ApplyPlan)
    ensures
        r.old_exe@ == paths::path_with_extension(current_exe@, "exe.old"@),
        r.version_file@ == version_file_beside(current_exe@),
{
    ApplyPlan {
        old_exe: old_exe_path(current_exe),
        version_file: match paths::parent(current_exe) {
            Some(dir) => paths::join(&dir, "version.txt"),
            None => "version.txt".to_owned(),
        },
    }
}

// ── Download and installation ───────────────────────────────────────────────

/// Where an update stands.
#[derive(Debug, Clone, Copy, PartialEq, Eq, Structural)]
pub enum ApplyPhase {
    /// It is being downloaded.
    Downloading,
    /// What an earlier update left is being removed.
    Clearing,
    /// The running executable is being renamed.
    Renaming,
    /// The new executable is being given its name.
    Placing,
    /// The new version is being written beside it.
    Noting,
    /// It is in place.
    Applied,
    /// It is not.
    Failed,
}

/// What an update asks for.
#[derive(Debug)]
pub enum ApplyAction {
    /// Download from this address to this file.
    Download { url: String, dest: String },
    /// Remove this file, where it exists.
    RemoveIfPresent { path: String },
    /// Rename a file.
    Rename { from: String, to: String },
    /// Write a text to a file.
    Write { path: String, text: String },
    /// Nothing.
    Finish,
}

/// The phase after an action ended. A leftover that cannot be removed and a
/// version that cannot be written do no harm; any other failure ends the update.
pub open spec fn after_apply(p: ApplyPhase, succeeded: bool) -> ApplyPhase {
    match p {
        ApplyPhase::Downloading => if succeeded {
            ApplyPhase::Clearing
        } else {
            ApplyPhase::Failed
        },
        ApplyPhase::Clearing => ApplyPhase::Renaming,
        ApplyPhase::Renaming => if succeeded {
            ApplyPhase::Placing
        } else {
            ApplyPhase::Failed
        },
        ApplyPhase::Placing => if succeeded {
            ApplyPhase::Noting
        } else {
            ApplyPhase::Failed
        },
        ApplyPhase::Noting => ApplyPhase::Applied,
        ApplyPhase::Applied => ApplyPhase::Applied,
        ApplyPhase::Failed => ApplyPhase::Failed,
    }
}

/// The download and the installation of an update.
pub struct ApplyRun {
    pub phase: ApplyPhase,
    pub url: String,
    pub new_version: String,
    /// The running executable.
    pub current_exe: String,
    /// Why the update failed.
    pub error: Option<UpdateError>,
}

/// Begin to download and install an update over the executable `current_exe`.
pub fn download_and_apply(info: &UpdateInfo, current_exe: &str) -> (r: ApplyRun)
    ensures
        r.phase is Downloading,
        r.url == info.download_url,
        r.new_version == info.new_version,
        r.current_exe@ == current_exe@,
        r.error is None,
{
    ApplyRun {
        phase: ApplyPhase::Downloading,
        url: info.download_url.clone(),
        new_version: info.new_version.clone(),
        current_exe: current_exe.to_owned(),
        error: None,
    }
}

impl ApplyRun {
    /// What to do next.
    pub fn action(&self) -> (r: ApplyAction)
        ensures
            match self.phase {
                ApplyPhase::Downloading => r matches ApplyAction::Download { url, dest } && url
                    == self.url && dest@ == paths::path_with_extension(
                    self.current_exe@,
                    "exe.new"@,
                ),
                ApplyPhase::Clearing => r matches ApplyAction::RemoveIfPresent { path } && path@
                    == paths::path_with_extension(self.current_exe@, "exe.old"@),
                ApplyPhase::Renaming => r matches ApplyAction::Rename { from, to } && from
                    == self.current_exe && to@ == paths::path_with_extension(
                    self.current_exe@,
                    "exe.old"@,
                ),
                ApplyPhase::Placing => r matches ApplyAction::Rename { from, to } && from@
                    == paths::path_with_extension(self.current_exe@, "exe.new"@) && to
                    == self.current_exe,
                ApplyPhase::Noting => r matches ApplyAction::Write { path, text } && path@
                    == version_file_beside(self.current_exe@) && text == self.new_version,
                ApplyPhase::Applied => r is Finish,
                ApplyPhase::Failed => r is Finish,
            },
    {
        match self.phase {
            ApplyPhase::Downloading => ApplyAction::Download {
                url: self.url.clone(),
                dest: download_path(&self.current_exe),
            },
            ApplyPhase::Clearing => ApplyAction::RemoveIfPresent {
                path: old_exe_path(&self.current_exe),
            },
            ApplyPhase::Renaming => ApplyAction::Rename {
                from: self.current_exe.clone(),
                to: old_exe_path(&self.current_exe),
            },
            ApplyPhase::Placing => ApplyAction::Rename {
                from: download_path(&self.current_exe),
                to: self.current_exe.clone(),
            },
            ApplyPhase::Noting => ApplyAction::Write {
                path: apply_update(&self.current_exe).version_file,
                text: self.new_version.clone(),
            },
            ApplyPhase::Applied | ApplyPhase::Failed => ApplyAction::Finish,
        }
    }

    /// Take in what came of an action. The error of the action that failed the
    /// update is kept.
    pub fn resume(&mut self, result: Result<(), UpdateError>)
        ensures
            final(self).phase == after_apply(old(self).phase, result is Ok),
            final(self).url == old(self).url,
            final(self).new_version == old(self).new_version,
            final(self).current_exe == old(self).current_exe,
            final(self).error == (if final(self).phase is Failed && old(self).phase !is Failed {
                Some(result->Err_0)
            } else {
                old(self).error
            }),
    {
        match result {
            Ok(()) => {
                self.phase = match self.phase {
                    ApplyPhase::Downloading => ApplyPhase::Clearing,
                    ApplyPhase::Clearing => ApplyPhase::Renaming,
                    ApplyPhase::Renaming => ApplyPhase::Placing,
                    ApplyPhase::Placing => ApplyPhase::Noting,
                    ApplyPhase::Noting => ApplyPhase::Applied,
                    ApplyPhase::Applied => ApplyPhase::Applied,
                    ApplyPhase::Failed => ApplyPhase::Failed,
                };
            },
            Err(e) => match self.phase {
                ApplyPhase::Downloading | ApplyPhase::Renaming | ApplyPhase::Placing => {
                    self.phase = ApplyPhase::Failed;
                    self.error = Some(e);
                },
                ApplyPhase::Clearing => {
                    self.phase = ApplyPhase::Renaming;
                },
                ApplyPhase::Noting => {
                    self.phase = ApplyPhase::Applied;
                },
                ApplyPhase::Applied | ApplyPhase::Failed => {},
            },
        }
    }
}

/// The phase of an update after some actions ended.
pub open spec fn apply_run(p: ApplyPhase, results: Seq<bool>) -> ApplyPhase
    decreases results.len(),
{
    if results.len() == 0 {
        p
    } else {
        after_apply(apply_run(p, results.drop_last()), results.last())
    }
}

/// An update ends after five actions at most, and it is in place exactly when
/// the download and both renamings succeeded.
pub proof fn law_update_is_applied_as_a_whole(results: Seq<bool>)
    requires
        results.len() == 5,
    ensures
        apply_run(ApplyPhase::Downloading, results) is Applied <==> results[0] && results[2]
            && results[3],
        apply_run(ApplyPhase::Downloading, results) is Failed <==> !(results[0] && results[2]
            && results[3]),
{
    let r4 = results.drop_last();
    let r3 = r4.drop_last();
    let r2 = r3.drop_last();
    let r1 = r2.drop_last();
    let r0 = r1.drop_last();
    assert(apply_run(ApplyPhase::Downloading, r0) is Downloading);
    assert(apply_run(ApplyPhase::Downloading, r1) == after_apply(
        ApplyPhase::Downloading,
        results[0],
    ));
    assert(r2.last() == results[1]);
    assert(r3.last() == results[2]);
    assert(r4.last() == results[3]);
    assert(results.last() == results[4]);
    assert(apply_run(ApplyPhase::Downloading, r2) == after_apply(
        apply_run(ApplyPhase::Downloading, r1),
        results[1],
    ));
    assert(apply_run(ApplyPhase::Downloading, r3) == after_apply(
        apply_run(ApplyPhase::Downloading, r2),
        results[2],
    ));
    assert(apply_run(ApplyPhase::Downloading, r4) == after_apply(
        apply_run(ApplyPhase::Downloading, r3),
        results[3],
    ));
}

/// The version of a release is its tag, without a `v` at its front.
pub proof fn law_version_is_the_tag(version: Seq<char>)
    ensures
        release_version("v"@ + version) == version,
        version.len() == 0 || version[0] != 'v' ==> release_version(version) == version,
{
    reveal_strlit("v");
    text::law_prefix_is_removed(version, "v"@);
    if version.len() > 0 && "v"@.is_prefix_of(version) {
        assert(version[0] == "v"@[0]);
    }
}

/// The executable of a release is the first of its files that is named like it, in
/// any case of letters, and missing only where none is.
pub proof fn law_first_executable_counts(v: Seq<GitHubAsset>, k: int)
    requires
        0 <= k < v.len(),
        text::same_ignoring_ascii_case(v[k].name@, "immichsync.exe"@),
        forall|i: int|
            0 <= i < k ==> !text::same_ignoring_ascii_case(
                (#[trigger] v[i]).name@,
                "immichsync.exe"@,
            ),
    ensures
        executable_of(v) == Some(v[k]),
    decreases v.len(),
{
    if k > 0 {
        let d = v.drop_first();
        assert(!is_executable(v[0]));
        assert forall|i: int| 0 <= i < k - 1 implies !text::same_ignoring_ascii_case(
            (#[trigger] d[i]).name@,
            "immichsync.exe"@,
        ) by {
            assert(d[i] == v[i + 1]);
        }
        law_first_executable_counts(d, k - 1);
    }
}

/// A release without a file named like the executable has none.
pub proof fn law_release_without_executable(v: Seq<GitHubAsset>)
    requires
        forall|i: int|
            0 <= i < v.len() ==> !text::same_ignoring_ascii_case(
                (#[trigger] v[i]).name@,
                "immichsync.exe"@,
            ),
    ensures
        executable_of(v) is None,
    decreases v.len(),
{
    if v.len() > 0 {
        let d = v.drop_first();
        assert(!is_executable(v[0]));
        assert forall|i: int| 0 <= i < d.len() implies !text::same_ignoring_ascii_case(
            (#[trigger] d[i]).name@,
            "immichsync.exe"@,
        ) by {
            assert(d[i] == v[i + 1]);
        }
        law_release_without_executable(d);
    }
}

/// A release is an update where its version is newer than the running one and it
/// has the executable, and only there; one that is not newer is none, whatever it
/// has.
pub proof fn law_only_newer_releases_are_updates(release: GitHubRelease, current: Seq<char>)
    requires
        is_version(release_version(release.tag_name@)),
        is_version(current),
    ensures
        ({
            let newer = version_after(release_version(release.tag_name@), current);
            let v = verdict(release, current);
            &&& !newer <==> v is UpToDate
            &&& newer && executable_of(release.assets@) is None <==> v is NoAsset
            &&& newer && executable_of(release.assets@) is Some ==> v == Verdict::Update(
                executable_of(release.assets@)->0,
            )
            &&& v is Update ==> newer && executable_of(release.assets@) is Some
        }),
{
}

/// A release or a program without a proper version is an error.
pub proof fn law_versions_must_be_proper(release: GitHubRelease, current: Seq<char>)
    ensures
        !is_version(release_version(release.tag_name@)) <==> verdict(release, current) is BadTag,
        is_version(release_version(release.tag_name@)) && !is_version(current) <==> verdict(
            release,
            current,
        ) is BadCurrent,
{
}

/// An update is described by its release: the version of the tag, and address and
/// size of the executable.
pub proof fn law_update_is_described_by_its_release(
    info: UpdateInfo,
    release: GitHubRelease,
    current: Seq<char>,
    asset: GitHubAsset,
)
    requires
        describes(info, release, current, asset),
    ensures
        info.current_version@ == current,
        info.new_version@ == release_version(release.tag_name@),
        info.download_url == asset.browser_download_url,
        info.size == asset.size,
        release.body matches Some(b) ==> info.changelog@ == b@,
        version_after(info.new_version@, current),
{
}

/// An update goes on after each step that succeeds, and ends at the first of those
/// that must not fail: the download and the two renamings. What is left of an
/// earlier update, and the note of the version, do not hold it up.
pub proof fn law_update_stops_at_the_first_failure(succeeded: bool)
    ensures
        after_apply(ApplyPhase::Downloading, true) is Clearing,
        after_apply(ApplyPhase::Downloading, false) is Failed,
        after_apply(ApplyPhase::Clearing, succeeded) is Renaming,
        after_apply(ApplyPhase::Renaming, true) is Placing,
        after_apply(ApplyPhase::Renaming, false) is Failed,
        after_apply(ApplyPhase::Placing, true) is Noting,
        after_apply(ApplyPhase::Placing, false) is Failed,
        after_apply(ApplyPhase::Noting, succeeded) is Applied,
        after_apply(ApplyPhase::Applied, succeeded) is Applied,
        after_apply(ApplyPhase::Failed, succeeded) is Failed,
{
}

/// The version is noted in a file beside the program, and releases are asked for
/// at the repository.
pub proof fn law_places_of_an_update(exe: Seq<char>, dir: Seq<char>, repo: Seq<char>)
    ensures
        paths::path_parent(exe) == Some(dir) ==> version_file_beside(exe) == paths::path_joined(
            dir,
            "version.txt"@,
        ),
        api_url_of(repo) == "https://api.github.com/repos/"@ + repo + "/releases/latest"@,
{
}

/// An error of an update ends with what went wrong.
pub proof fn law_update_error_ends_with_its_cause(m: String)
    ensures
        update_message(UpdateError::Network(m)).skip(
            update_message(UpdateError::Network(m)).len() - m@.len(),
        ) == m@,
        update_message(UpdateError::InvalidVersion(m)).skip(
            update_message(UpdateError::InvalidVersion(m)).len() - m@.len(),
        ) == m@,
        update_message(UpdateError::File(m)).skip(
            update_message(UpdateError::File(m)).len() - m@.len(),
        ) == m@,
{
}

} // verus!
