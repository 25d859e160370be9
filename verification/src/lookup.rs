//! The vocabulary of the search for the language server's entry script.
//!
//! The search alternates between decisions and work that only the host can
//! do: looking at the file system, telling the editor what is going on,
//! downloading an archive. The extension decides; the host does the work and
//! reports back. A [`LookupAction`] is what the extension asks for, a
//! [`LookupEvent`] is what the host reports.

use vstd::prelude::*;

use crate::install::{
    download_failure_spec, not_a_file_spec, server_script_path_spec, EXT_DIR, VSC_EXT_URL,
};

verus! {

/// What a look at a path in the file system found.
#[derive(Debug, PartialEq, Eq)]
pub enum PathProbe {
    /// The path names a regular file.
    File,
    /// The path names something that is not a regular file.
    NotAFile,
    /// The path could not be examined; `reason` is the system's message.
    Failed { reason: String },
}

/// Mathematical model of a [`PathProbe`].
pub enum PathProbeView {
    File,
    NotAFile,
    Failed { reason: Seq<char> },
}

impl View for PathProbe {
    type V = PathProbeView;

    open spec fn view(&self) -> PathProbeView {
        match *self {
            PathProbe::File => PathProbeView::File,
            PathProbe::NotAFile => PathProbeView::NotAFile,
            PathProbe::Failed { reason } => PathProbeView::Failed { reason: reason@ },
        }
    }
}

/// What the host reports to the extension.
#[derive(Debug, PartialEq, Eq)]
pub enum LookupEvent {
    /// The editor asks where the language server is.
    Requested,
    /// The remembered path has been examined.
    CacheProbed { probe: PathProbe },
    /// The editor has been told that an update check is under way.
    StatusReported,
    /// The download and unpacking of the archive ended, well or with the
    /// host's message.
    Downloaded { outcome: Result<(), String> },
    /// The path of the entry script inside the unpacked archive has been
    /// examined.
    InstallProbed { probe: PathProbe },
}

/// Mathematical model of a [`LookupEvent`].
pub enum LookupEventView {
    Requested,
    CacheProbed { probe: PathProbeView },
    StatusReported,
    Downloaded { outcome: Result<(), Seq<char>> },
    InstallProbed { probe: PathProbeView },
}

impl View for LookupEvent {
    type V = LookupEventView;

    open spec fn view(&self) -> LookupEventView {
        match *self {
            LookupEvent::Requested => LookupEventView::Requested,
            LookupEvent::CacheProbed { probe } => LookupEventView::CacheProbed { probe: probe@ },
            LookupEvent::StatusReported => LookupEventView::StatusReported,
            LookupEvent::Downloaded { outcome } => LookupEventView::Downloaded {
                outcome: match outcome {
                    Ok(_) => Ok(()),
                    Err(reason) => Err(reason@),
                },
            },
            LookupEvent::InstallProbed { probe } => LookupEventView::InstallProbed {
                probe: probe@,
            },
        }
    }
}

/// What the extension asks the host to do next.
#[derive(Debug, PartialEq, Eq)]
pub enum LookupAction {
    /// Examine the remembered `path` and report with
    /// [`LookupEvent::CacheProbed`].
    ProbeCached { path: String },
    /// Tell the editor that an update check is under way and report with
    /// [`LookupEvent::StatusReported`].
    ReportCheckingForUpdate,
    /// Download the zip archive at `url`, unpack it into `directory` and
    /// report with [`LookupEvent::Downloaded`].
    DownloadZip { url: String, directory: String },
    /// Examine the entry script's `path` and report with
    /// [`LookupEvent::InstallProbed`].
    ProbeInstalled { path: String },
    /// The search is over: `outcome` is the script's path, or the message
    /// that says why there is none.
    Finish { outcome: Result<String, String> },
}

/// Mathematical model of a [`LookupAction`].
pub enum LookupActionView {
    ProbeCached { path: Seq<char> },
    ReportCheckingForUpdate,
    DownloadZip { url: Seq<char>, directory: Seq<char> },
    ProbeInstalled { path: Seq<char> },
    Finish { outcome: Result<Seq<char>, Seq<char>> },
}

impl View for LookupAction {
    type V = LookupActionView;

    open spec fn view(&self) -> LookupActionView {
        match *self {
            LookupAction::ProbeCached { path } => LookupActionView::ProbeCached { path: path@ },
            LookupAction::ReportCheckingForUpdate => LookupActionView::ReportCheckingForUpdate,
            LookupAction::DownloadZip { url, directory } => LookupActionView::DownloadZip {
                url: url@,
                directory: directory@,
            },
            LookupAction::ProbeInstalled { path } => LookupActionView::ProbeInstalled {
                path: path@,
            },
            LookupAction::Finish { outcome } => LookupActionView::Finish {
                outcome: match outcome {
                    Ok(path) => Ok(path@),
                    Err(message) => Err(message@),
                },
            },
        }
    }
}

/// Whether `cached` is something the extension can come to remember:
/// nothing, or the path of the unpacked entry script.
pub open spec fn rememberable(cached: Option<Seq<char>>) -> bool {
    cached is None || cached == Some(server_script_path_spec())
}

/// The action that answers `event` when `cached` is the remembered path.
///
/// A request is answered from the cache where there is one, and the cached
/// path is only trusted while it still names a regular file. Everything else
/// leads through the status report and the download to the examination of
/// the unpacked script, whose result ends the search.
pub open spec fn next_action(cached: Option<Seq<char>>, event: LookupEventView)
    -> LookupActionView {
    match event {
        LookupEventView::Requested => match cached {
            Some(path) => LookupActionView::ProbeCached { path },
            None => LookupActionView::ReportCheckingForUpdate,
        },
        LookupEventView::CacheProbed { probe } => match (cached, probe) {
            (Some(path), PathProbeView::File) => LookupActionView::Finish { outcome: Ok(path) },
            _ => LookupActionView::ReportCheckingForUpdate,
        },
        LookupEventView::StatusReported => LookupActionView::DownloadZip {
            url: VSC_EXT_URL@,
            directory: EXT_DIR@,
        },
        LookupEventView::Downloaded { outcome } => match outcome {
            Ok(_) => LookupActionView::ProbeInstalled { path: server_script_path_spec() },
            Err(reason) => LookupActionView::Finish {
                outcome: Err(download_failure_spec(reason)),
            },
        },
        LookupEventView::InstallProbed { probe } => LookupActionView::Finish {
            outcome: match probe {
                PathProbeView::File => Ok(server_script_path_spec()),
                PathProbeView::NotAFile => Err(not_a_file_spec(server_script_path_spec())),
                PathProbeView::Failed { reason } => Err(reason),
            },
        },
    }
}

/// The path remembered after `event` when `cached` was remembered before it.
///
/// Only the sight of the unpacked script as a regular file changes what is
/// remembered.
pub open spec fn next_cache(cached: Option<Seq<char>>, event: LookupEventView) -> Option<
    Seq<char>,
> {
    match event {
        LookupEventView::InstallProbed { probe: PathProbeView::File } => Some(
            server_script_path_spec(),
        ),
        _ => cached,
    }
}

/// What a host has to say in the course of one search: what it finds when
/// it examines the remembered path, how the download ends, and what it finds
/// when it examines the unpacked script.
pub struct HostAnswers {
    pub cache_probe: PathProbeView,
    pub download: Result<(), Seq<char>>,
    pub install_probe: PathProbeView,
}

/// The event by which a host that holds `answers` reports on `action`.
/// After the end of one search the next one is requested.
pub open spec fn reply(action: LookupActionView, answers: HostAnswers) -> LookupEventView {
    match action {
        LookupActionView::ProbeCached { .. } => LookupEventView::CacheProbed {
            probe: answers.cache_probe,
        },
        LookupActionView::ReportCheckingForUpdate => LookupEventView::StatusReported,
        LookupActionView::DownloadZip { .. } => LookupEventView::Downloaded {
            outcome: answers.download,
        },
        LookupActionView::ProbeInstalled { .. } => LookupEventView::InstallProbed {
            probe: answers.install_probe,
        },
        LookupActionView::Finish { .. } => LookupEventView::Requested,
    }
}

/// Where a search stands that met `event` with `cached` remembered and then
/// went on, for at most `replies` further reports of a host that holds
/// `answers`, until it was over: what is remembered, and the last action.
pub open spec fn run(
    cached: Option<Seq<char>>,
    event: LookupEventView,
    answers: HostAnswers,
    replies: nat,
) -> (Option<Seq<char>>, LookupActionView)
    decreases replies,
{
    let action = next_action(cached, event);
    let remembered = next_cache(cached, event);
    if replies == 0 || action is Finish {
        (remembered, action)
    } else {
        run(remembered, reply(action, answers), answers, (replies - 1) as nat)
    }
}

/// Whether a search that starts with `cached` remembered is answered from
/// the cache by a host that holds `answers`.
pub open spec fn cache_hit(cached: Option<Seq<char>>, answers: HostAnswers) -> bool {
    cached is Some && answers.cache_probe is File
}

/// The outcome of a whole search that starts with `cached` remembered, on a
/// host that holds `answers`.
///
/// A remembered path that still names a regular file is the result. Failing
/// that, the archive is downloaded: a failed download is an error, and so is
/// an unpacked script that is missing or not a regular file.
pub open spec fn search_outcome(cached: Option<Seq<char>>, answers: HostAnswers) -> Result<
    Seq<char>,
    Seq<char>,
> {
    if cache_hit(cached, answers) {
        Ok(cached->0)
    } else {
        match answers.download {
            Err(reason) => Err(download_failure_spec(reason)),
            Ok(_) => match answers.install_probe {
                PathProbeView::File => Ok(server_script_path_spec()),
                PathProbeView::NotAFile => Err(not_a_file_spec(server_script_path_spec())),
                PathProbeView::Failed { reason } => Err(reason),
            },
        }
    }
}

/// What is remembered after a whole search that starts with `cached`
/// remembered, on a host that holds `answers`: the unpacked script's path
/// where the search found it, and what was remembered before otherwise.
pub open spec fn search_cache(cached: Option<Seq<char>>, answers: HostAnswers) -> Option<
    Seq<char>,
> {
    if !cache_hit(cached, answers) && search_outcome(cached, answers) is Ok {
        Some(server_script_path_spec())
    } else {
        cached
    }
}

/// Every search ends: whatever is remembered at its start and whatever the
/// host answers, the fourth report at the latest is met with
/// [`LookupActionView::Finish`]. The outcome is the one that
/// [`search_outcome`] describes, and a path that the search ends with is the
/// path remembered after it.
pub proof fn lemma_search_ends(cached: Option<Seq<char>>, answers: HostAnswers)
    ensures
        run(cached, LookupEventView::Requested, answers, 4) == (
            search_cache(cached, answers),
            LookupActionView::Finish { outcome: search_outcome(cached, answers) },
        ),
        search_outcome(cached, answers) matches Ok(path) ==> search_cache(cached, answers)
            == Some(path),
{
    reveal_with_fuel(run, 5);
}

/// The language server is never found anywhere but at the path of the
/// unpacked entry script: a search that starts from what an extension can
/// remember ends with that path or with an error, and leaves behind what an
/// extension can remember.
pub proof fn lemma_found_where_installed(cached: Option<Seq<char>>, answers: HostAnswers)
    requires
        rememberable(cached),
    ensures
        rememberable(search_cache(cached, answers)),
        search_outcome(cached, answers) matches Ok(path) ==> path == server_script_path_spec(),
{
}

} // verus!
