//! What the host has answered so far in one resolution.

use crate::entrypoint::{WorkDirEnvironment, WorkDirEnvironmentView};
use crate::progress::RequestView;
use crate::settings::{
    settings_reply_view, settings_result_view, StoredSettings, StoredSettingsView,
};
use vstd::prelude::*;

verus! {

/// The model of an answer that is text.
pub open spec fn text_result_view(answer: Result<String, String>) -> Result<
    Seq<char>,
    Seq<char>,
> {
    match answer {
        Ok(text) => Ok(text@),
        Err(message) => Err(message@),
    }
}

/// The model of an answer on the installed version.
pub open spec fn installed_result_view(answer: Result<Option<String>, String>) -> Result<
    Option<Seq<char>>,
    Seq<char>,
> {
    match answer {
        Ok(version) => Ok(version.deep_view()),
        Err(message) => Err(message@),
    }
}

/// The model of an answer on an installation.
pub open spec fn install_result_view(answer: Result<(), String>) -> Result<(), Seq<char>> {
    match answer {
        Ok(()) => Ok(()),
        Err(message) => Err(message@),
    }
}

/// The model of an answer that is text, `None` while it is not known.
pub open spec fn text_reply_view(reply: Option<Result<String, String>>) -> Option<
    Result<Seq<char>, Seq<char>>,
> {
    match reply {
        None => None,
        Some(answer) => Some(text_result_view(answer)),
    }
}

/// The model of an answer on the installed version, `None` while it is not
/// known.
pub open spec fn installed_reply_view(reply: Option<Result<Option<String>, String>>) -> Option<
    Result<Option<Seq<char>>, Seq<char>>,
> {
    match reply {
        None => None,
        Some(answer) => Some(installed_result_view(answer)),
    }
}

/// The model of an answer on an installation, `None` while it is not known.
pub open spec fn install_reply_view(reply: Option<Result<(), String>>) -> Option<
    Result<(), Seq<char>>,
> {
    match reply {
        None => None,
        Some(answer) => Some(install_result_view(answer)),
    }
}

/// The host's answer to one [`crate::progress::Request`]. `Err` holds the
/// host's message where the operation failed.
#[derive(Debug, PartialEq, Eq)]
pub enum Reply {
    /// The latest published version of the package.
    LatestVersion(Result<String, String>),
    /// The installed version of the package, `None` where it is not installed.
    InstalledVersion(Result<Option<String>, String>),
    /// How the installation went.
    Install(Result<(), String>),
    /// The settings stored for the server.
    Settings(Result<StoredSettings, String>),
    /// The directories below which the package may be installed.
    WorkDirectories(WorkDirEnvironment),
    /// Whether the path that was asked for is an existing regular file.
    IsFile(bool),
    /// The path of the Node binary.
    NodeBinaryPath(Result<String, String>),
}

/// The mathematical model of a [`Reply`].
pub enum ReplyView {
    LatestVersion(Result<Seq<char>, Seq<char>>),
    InstalledVersion(Result<Option<Seq<char>>, Seq<char>>),
    Install(Result<(), Seq<char>>),
    Settings(Result<StoredSettingsView, Seq<char>>),
    WorkDirectories(WorkDirEnvironmentView),
    IsFile(bool),
    NodeBinaryPath(Result<Seq<char>, Seq<char>>),
}

impl View for Reply {
    type V = ReplyView;

    open spec fn view(&self) -> ReplyView {
        match self {
            Reply::LatestVersion(answer) => ReplyView::LatestVersion(text_result_view(*answer)),
            Reply::InstalledVersion(answer) => ReplyView::InstalledVersion(
                installed_result_view(*answer),
            ),
            Reply::Install(answer) => ReplyView::Install(install_result_view(*answer)),
            Reply::Settings(answer) => ReplyView::Settings(settings_result_view(*answer)),
            Reply::WorkDirectories(env) => ReplyView::WorkDirectories(env@),
            Reply::IsFile(exists) => ReplyView::IsFile(*exists),
            Reply::NodeBinaryPath(answer) => ReplyView::NodeBinaryPath(text_result_view(*answer)),
        }
    }
}

/// Whether the reply is an answer to the request.
pub open spec fn answers(reply: ReplyView, request: RequestView) -> bool {
    match request {
        RequestView::LatestVersion { .. } => reply is LatestVersion,
        RequestView::InstalledVersion { .. } => reply is InstalledVersion,
        RequestView::Install { .. } => reply is Install,
        RequestView::Settings { .. } => reply is Settings,
        RequestView::WorkDirectories => reply is WorkDirectories,
        RequestView::IsFile { .. } => reply is IsFile,
        RequestView::NodeBinaryPath => reply is NodeBinaryPath,
    }
}

/// The host's answers so far, one field for each kind of
/// [`crate::progress::Request`]. A field is `None` until the request was
/// answered. A resolution starts from [`HostReplies::new`], and the caller
/// records the host's answer each time it is asked for one.
#[derive(Debug, Clone, PartialEq, Eq)]
pub struct HostReplies {
    /// The latest published version of the package.
    pub latest_version: Option<Result<String, String>>,
    /// The installed version of the package, `None` inside where it is not
    /// installed.
    pub installed_version: Option<Result<Option<String>, String>>,
    /// How the installation went.
    pub install: Option<Result<(), String>>,
    /// The settings stored for the server.
    pub settings: Option<Result<StoredSettings, String>>,
    /// The directories below which the package may be installed.
    pub work_dirs: Option<WorkDirEnvironment>,
    /// For each candidate probed so far, in the order in which they were
    /// asked for, whether it is an existing regular file.
    pub probes: Vec<bool>,
    /// The path of the Node binary.
    pub node_binary_path: Option<Result<String, String>>,
}

/// The mathematical model of a [`HostReplies`].
pub struct HostRepliesView {
    pub latest_version: Option<Result<Seq<char>, Seq<char>>>,
    pub installed_version: Option<Result<Option<Seq<char>>, Seq<char>>>,
    pub install: Option<Result<(), Seq<char>>>,
    pub settings: Option<Result<StoredSettingsView, Seq<char>>>,
    pub work_dirs: Option<WorkDirEnvironmentView>,
    pub probes: Seq<bool>,
    pub node_binary_path: Option<Result<Seq<char>, Seq<char>>>,
}

impl View for HostReplies {
    type V = HostRepliesView;

    open spec fn view(&self) -> HostRepliesView {
        HostRepliesView {
            latest_version: text_reply_view(self.latest_version),
            installed_version: installed_reply_view(self.installed_version),
            install: install_reply_view(self.install),
            settings: settings_reply_view(self.settings),
            work_dirs: self.work_dirs.deep_view(),
            probes: self.probes@,
            node_binary_path: text_reply_view(self.node_binary_path),
        }
    }
}

/// The state in which nothing has been asked yet.
pub open spec fn no_replies() -> HostRepliesView {
    HostRepliesView {
        latest_version: None,
        installed_version: None,
        install: None,
        settings: None,
        work_dirs: None,
        probes: Seq::empty(),
        node_binary_path: None,
    }
}

/// The replies after one more answer: it fills its field, and the answer on
/// a file is added behind those on the files asked for before.
pub open spec fn recorded(replies: HostRepliesView, reply: ReplyView) -> HostRepliesView {
    match reply {
        ReplyView::LatestVersion(answer) => HostRepliesView {
            latest_version: Some(answer),
            ..replies
        },
        ReplyView::InstalledVersion(answer) => HostRepliesView {
            installed_version: Some(answer),
            ..replies
        },
        ReplyView::Install(answer) => HostRepliesView { install: Some(answer), ..replies },
        ReplyView::Settings(answer) => HostRepliesView { settings: Some(answer), ..replies },
        ReplyView::WorkDirectories(env) => HostRepliesView { work_dirs: Some(env), ..replies },
        ReplyView::IsFile(exists) => HostRepliesView {
            probes: replies.probes.push(exists),
            ..replies
        },
        ReplyView::NodeBinaryPath(answer) => HostRepliesView {
            node_binary_path: Some(answer),
            ..replies
        },
    }
}

impl HostReplies {
    /// The replies at the start of a resolution: none.
    pub fn new() -> (r: Self)
        ensures
            r@ == no_replies(),
    {
        HostReplies {
            latest_version: None,
            installed_version: None,
            install: None,
            settings: None,
            work_dirs: None,
            probes: Vec::new(),
            node_binary_path: None,
        }
    }

    /// Records the host's answer to the request that was asked last.
    pub fn record(&mut self, reply: Reply)
        ensures
            final(self)@ == recorded(old(self)@, reply@),
    {
        match reply {
            Reply::LatestVersion(answer) => {
                self.latest_version = Some(answer);
            },
            Reply::InstalledVersion(answer) => {
                self.installed_version = Some(answer);
            },
            Reply::Install(answer) => {
                self.install = Some(answer);
            },
            Reply::Settings(answer) => {
                self.settings = Some(answer);
            },
            Reply::WorkDirectories(env) => {
                self.work_dirs = Some(env);
            },
            Reply::IsFile(exists) => {
                self.probes.push(exists);
            },
            Reply::NodeBinaryPath(answer) => {
                self.node_binary_path = Some(answer);
            },
        }
    }
}

} // verus!
