//! What a resolution stage can report: a value, a question to the host, or a
//! failure.

use crate::error::{ResolveError, ResolveErrorView};
use vstd::prelude::*;

verus! {

/// An operation that only the host can perform. The caller performs it and
/// stores the answer in the [`crate::replies::HostReplies`] it holds.
#[derive(Debug, Clone, PartialEq, Eq)]
pub enum Request {
    /// Query the latest published version of the package.
    LatestVersion { package: String },
    /// Query the installed version of the package, if it is installed.
    InstalledVersion { package: String },
    /// Install the package, or update it, to the given version.
    Install { package: String, version: String },
    /// Fetch the settings stored for the server in the current project.
    Settings { server_id: String },
    /// Read the current directory and the work-directory variables.
    WorkDirectories,
    /// Test whether the path names an existing regular file.
    IsFile { path: String },
    /// Resolve the path of the Node binary that the host uses.
    NodeBinaryPath,
}

/// The mathematical model of a [`Request`].
pub enum RequestView {
    LatestVersion { package: Seq<char> },
    InstalledVersion { package: Seq<char> },
    Install { package: Seq<char>, version: Seq<char> },
    Settings { server_id: Seq<char> },
    WorkDirectories,
    IsFile { path: Seq<char> },
    NodeBinaryPath,
}

impl View for Request {
    type V = RequestView;

    open spec fn view(&self) -> RequestView {
        match self {
            Request::LatestVersion { package } => RequestView::LatestVersion { package: package@ },
            Request::InstalledVersion { package } => RequestView::InstalledVersion {
                package: package@,
            },
            Request::Install { package, version } => RequestView::Install {
                package: package@,
                version: version@,
            },
            Request::Settings { server_id } => RequestView::Settings { server_id: server_id@ },
            Request::WorkDirectories => RequestView::WorkDirectories,
            Request::IsFile { path } => RequestView::IsFile { path: path@ },
            Request::NodeBinaryPath => RequestView::NodeBinaryPath,
        }
    }
}

/// The outcome of a stage, given what the host has answered so far.
#[derive(Debug, Clone, PartialEq, Eq)]
pub enum Progress<T> {
    /// The stage is complete and produced this value.
    Ready(T),
    /// The stage needs the host's answer to this request before it can go on.
    Ask(Request),
    /// The stage failed, and with it the whole resolution.
    Failed(ResolveError),
}

/// The mathematical model of a [`Progress`].
pub enum ProgressView<V> {
    Ready(V),
    Ask(RequestView),
    Failed(ResolveErrorView),
}

impl<T: View> View for Progress<T> {
    type V = ProgressView<T::V>;

    open spec fn view(&self) -> ProgressView<T::V> {
        match self {
            Progress::Ready(value) => ProgressView::Ready(value@),
            Progress::Ask(request) => ProgressView::Ask(request@),
            Progress::Failed(error) => ProgressView::Failed(error@),
        }
    }
}

} // verus!
