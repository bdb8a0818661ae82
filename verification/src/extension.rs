//! The resolver itself: from a requested server and the host's answers to
//! the command that launches it.

use crate::command::{build_command, launch_command, Command, CommandView};
use crate::configuration::{configuration_for, ContextServerConfiguration};
use crate::entrypoint::{
    entrypoint_candidates, entrypoint_progress, lemma_asked_file_is_next_candidate,
    lemma_at_most_seven_candidates, lemma_entrypoint_stage_asks_for_files_only,
    resolve_sentry_entrypoint,
};
use crate::error::{ResolveError, ResolveErrorView};
use crate::install::{ensure_sentry_mcp_installed, install_progress};
use crate::names::{CONTEXT_SERVER_ID, NPM_PACKAGE_NAME};
use crate::progress::{Progress, ProgressView, Request, RequestView};
use crate::replies::{answers, no_replies, recorded, HostReplies, HostRepliesView, ReplyView};
use crate::settings::{
    access_token, default_settings, lemma_token_is_missing_iff_blank, load_settings,
    required_access_token, settings_progress, SentryMcpSettingsView, StoredSettingsView,
};
use crate::text::{is_blank, same_text};
use vstd::prelude::*;

verus! {

/// The last stage: the entrypoint and the token are known, the Node binary
/// is asked for, and the command is built.
pub open spec fn progress_with_entrypoint(
    token: Seq<char>,
    entrypoint: Seq<char>,
    replies: HostRepliesView,
) -> ProgressView<CommandView> {
    match replies.node_binary_path {
        None => ProgressView::Ask(RequestView::NodeBinaryPath),
        Some(Err(message)) => ProgressView::Failed(ResolveErrorView::Host { message }),
        Some(Ok(node_binary)) => ProgressView::Ready(
            launch_command(node_binary, entrypoint, token),
        ),
    }
}

/// The stages that follow the credential check: the entrypoint is resolved.
pub open spec fn progress_with_token(token: Seq<char>, replies: HostRepliesView) -> ProgressView<
    CommandView,
> {
    match entrypoint_progress(replies.work_dirs, replies.probes) {
        ProgressView::Ready(entrypoint) => progress_with_entrypoint(token, entrypoint, replies),
        ProgressView::Ask(request) => ProgressView::Ask(request),
        ProgressView::Failed(error) => ProgressView::Failed(error),
    }
}

/// The stages that follow the decoding of the settings: the credential is
/// checked, and only a resolution that holds one goes on.
pub open spec fn progress_with_settings(
    settings: SentryMcpSettingsView,
    replies: HostRepliesView,
) -> ProgressView<CommandView> {
    match access_token(settings) {
        Ok(token) => progress_with_token(token, replies),
        Err(error) => ProgressView::Failed(error),
    }
}

/// The stages that follow the installation: the settings are loaded.
pub open spec fn progress_when_installed(replies: HostRepliesView) -> ProgressView<CommandView> {
    match settings_progress(replies.settings) {
        ProgressView::Ready(settings) => progress_with_settings(settings, replies),
        ProgressView::Ask(request) => ProgressView::Ask(request),
        ProgressView::Failed(error) => ProgressView::Failed(error),
    }
}

/// How far the resolution of the launch command for the server `id` has
/// come, given the host's answers so far. The stages run in one fixed order:
/// the identifier is checked, the package is brought up to date, the
/// settings are loaded, the credential is checked, the entrypoint is
/// located, the command is built. The first stage that lacks an answer asks
/// for it; the first that fails ends the resolution.
pub open spec fn command_progress(id: Seq<char>, replies: HostRepliesView) -> ProgressView<
    CommandView,
> {
    if id != CONTEXT_SERVER_ID@ {
        ProgressView::Failed(ResolveErrorView::UnsupportedServer { id })
    } else {
        match install_progress(replies.latest_version, replies.installed_version, replies.install) {
            ProgressView::Ready(_) => progress_when_installed(replies),
            ProgressView::Ask(request) => ProgressView::Ask(request),
            ProgressView::Failed(error) => ProgressView::Failed(error),
        }
    }
}

/// The resolver for the Sentry MCP context server. It holds no state: each
/// call works from its arguments alone.
#[derive(Debug, Clone, Copy, PartialEq, Eq)]
pub struct SentryMcpExtension;

impl SentryMcpExtension {
    /// Creates the resolver.
    pub fn new() -> Self {
        SentryMcpExtension
    }

    /// Resolves the command that launches the server `id`, as far as the
    /// host's answers allow: returns the command, the next request that
    /// the host has to answer, or the failure that ends the resolution.
    /// The caller performs each request, stores the answer in `replies`
    /// and calls again.
    pub fn context_server_command(&self, id: &str, replies: &HostReplies) -> (r: Progress<Command>)
        ensures
            r@ == command_progress(id@, replies@),
    {
        if !same_text(id, CONTEXT_SERVER_ID) {
            return Progress::Failed(ResolveError::UnsupportedServer { id: id.to_owned() });
        }
        match ensure_sentry_mcp_installed(
            &replies.latest_version,
            &replies.installed_version,
            &replies.install,
        ) {
            Progress::Ready(_) => {},
            Progress::Ask(request) => {
                return Progress::Ask(request);
            },
            Progress::Failed(error) => {
                return Progress::Failed(error);
            },
        }
        let settings = match load_settings(&replies.settings) {
            Progress::Ready(settings) => settings,
            Progress::Ask(request) => {
                return Progress::Ask(request);
            },
            Progress::Failed(error) => {
                return Progress::Failed(error);
            },
        };
        let token = match required_access_token(&settings) {
            Ok(token) => token,
            Err(error) => {
                return Progress::Failed(error);
            },
        };
        let entrypoint = match resolve_sentry_entrypoint(&replies.work_dirs, &replies.probes) {
            Progress::Ready(entrypoint) => entrypoint,
            Progress::Ask(request) => {
                return Progress::Ask(request);
            },
            Progress::Failed(error) => {
                return Progress::Failed(error);
            },
        };
        match &replies.node_binary_path {
            None => Progress::Ask(Request::NodeBinaryPath),
            Some(Err(message)) => Progress::Failed(
                ResolveError::Host { message: message.clone() },
            ),
            Some(Ok(node_binary)) => Progress::Ready(
                build_command(node_binary.clone(), entrypoint, token.as_str()),
            ),
        }
    }

    /// Returns the configuration to show for the server `id`, made of the
    /// three static texts, or `None` where the server is not the supported
    /// one.
    pub fn context_server_configuration(
        &self,
        id: &str,
        installation_instructions: &str,
        settings_schema: &str,
        default_settings: &str,
    ) -> (r: Option<ContextServerConfiguration>)
        ensures
            match r {
                Some(configuration) => configuration_for(
                    id@,
                    installation_instructions@,
                    settings_schema@,
                    default_settings@,
                ) == Some(configuration@),
                None => configuration_for(
                    id@,
                    installation_instructions@,
                    settings_schema@,
                    default_settings@,
                ).is_none(),
            },
    {
        if !same_text(id, CONTEXT_SERVER_ID) {
            return None;
        }
        Some(
            ContextServerConfiguration {
                installation_instructions: installation_instructions.to_owned(),
                settings_schema: settings_schema.to_owned(),
                default_settings: default_settings.to_owned(),
            },
        )
    }
}

/// A request for any server but the supported one fails at once, whatever
/// the host has answered: the resolver asks the host for nothing, so
/// nothing is installed, read or probed.
pub proof fn lemma_unsupported_server_fails_at_once(id: Seq<char>, replies: HostRepliesView)
    requires
        id != CONTEXT_SERVER_ID@,
    ensures
        command_progress(id, replies) == ProgressView::<CommandView>::Failed(
            ResolveErrorView::UnsupportedServer { id },
        ),
{
}

/// The resolver asks for an installation only where both versions are
/// known and differ and nothing was installed in this resolution yet, and
/// then for the latest version. So a package that is up to date is never
/// installed, and an outdated or absent one exactly once.
pub proof fn lemma_resolution_installs_only_outdated_package(
    id: Seq<char>,
    replies: HostRepliesView,
    package: Seq<char>,
    version: Seq<char>,
)
    requires
        command_progress(id, replies) == ProgressView::<CommandView>::Ask(
            RequestView::Install { package, version },
        ),
    ensures
        id == CONTEXT_SERVER_ID@,
        package == NPM_PACKAGE_NAME@,
        replies.latest_version == Some(Ok::<Seq<char>, Seq<char>>(version)),
        replies.installed_version matches Some(Ok(current)) && current != Some(version),
        replies.install is None,
{
    lemma_entrypoint_stage_asks_for_files_only(replies.work_dirs, replies.probes);
}

/// Where the installed version is not the latest one, or the package is
/// absent, and nothing was installed in this resolution yet, the resolver
/// asks for the installation of the latest version before anything else.
pub proof fn lemma_resolution_installs_outdated_package(
    replies: HostRepliesView,
    latest: Seq<char>,
    installed: Option<Seq<char>>,
)
    requires
        replies.latest_version == Some(Ok::<Seq<char>, Seq<char>>(latest)),
        replies.installed_version == Some(Ok::<Option<Seq<char>>, Seq<char>>(installed)),
        installed != Some(latest),
        replies.install is None,
    ensures
        command_progress(CONTEXT_SERVER_ID@, replies) == ProgressView::<CommandView>::Ask(
            RequestView::Install { package: NPM_PACKAGE_NAME@, version: latest },
        ),
{
}

/// A resolution whose settings hold no credential ends with the
/// missing-token error as soon as the settings are known: the check comes
/// before the search for the entrypoint, whatever the directories hold.
pub proof fn lemma_missing_token_ends_resolution(
    replies: HostRepliesView,
    settings: SentryMcpSettingsView,
)
    requires
        install_progress(replies.latest_version, replies.installed_version, replies.install)
            is Ready,
        settings_progress(replies.settings) == ProgressView::Ready(settings),
        is_blank(settings.sentry_access_token),
    ensures
        command_progress(CONTEXT_SERVER_ID@, replies) == ProgressView::<CommandView>::Failed(
            ResolveErrorView::MissingAccessToken,
        ),
{
    lemma_token_is_missing_iff_blank(settings);
}

/// With no settings stored, a resolution for an installed package fails with
/// the missing-token error.
pub proof fn lemma_absent_settings_end_resolution(replies: HostRepliesView)
    requires
        install_progress(replies.latest_version, replies.installed_version, replies.install)
            is Ready,
        replies.settings == Some(
            Ok::<StoredSettingsView, Seq<char>>(StoredSettingsView::Absent),
        ),
    ensures
        command_progress(CONTEXT_SERVER_ID@, replies) == ProgressView::<CommandView>::Failed(
            ResolveErrorView::MissingAccessToken,
        ),
{
    lemma_missing_token_ends_resolution(replies, default_settings());
}

/// A resolution in which every stage succeeds yields the Node binary as the
/// program, the entrypoint and the access-token flag as its two arguments,
/// and an empty environment.
pub proof fn lemma_resolved_command(
    replies: HostRepliesView,
    settings: SentryMcpSettingsView,
    token: Seq<char>,
    entrypoint: Seq<char>,
    node_binary: Seq<char>,
)
    requires
        install_progress(replies.latest_version, replies.installed_version, replies.install)
            is Ready,
        settings_progress(replies.settings) == ProgressView::Ready(settings),
        access_token(settings) == Ok::<Seq<char>, ResolveErrorView>(token),
        entrypoint_progress(replies.work_dirs, replies.probes) == ProgressView::Ready(entrypoint),
        replies.node_binary_path == Some(Ok::<Seq<char>, Seq<char>>(node_binary)),
    ensures
        command_progress(CONTEXT_SERVER_ID@, replies) == ProgressView::Ready(
            CommandView {
                command: node_binary,
                args: seq![entrypoint, "--access-token="@ + token],
                env: seq![],
            },
        ),
{
}

/// The resolver never asks for what it already knows: a request stands for
/// an answer that is still missing. A file is asked for only while every
/// candidate before it was probed and does not exist. So no host operation
/// is repeated within a resolution, and a resolution whose requests are
/// answered comes to an end.
pub proof fn lemma_nothing_is_asked_twice(
    id: Seq<char>,
    replies: HostRepliesView,
    request: RequestView,
)
    requires
        command_progress(id, replies) == ProgressView::<CommandView>::Ask(request),
    ensures
        id == CONTEXT_SERVER_ID@,
        match request {
            RequestView::LatestVersion { package } => package == NPM_PACKAGE_NAME@
                && replies.latest_version is None,
            RequestView::InstalledVersion { package } => package == NPM_PACKAGE_NAME@
                && replies.installed_version is None,
            RequestView::Install { package, version } => package == NPM_PACKAGE_NAME@
                && replies.install is None,
            RequestView::Settings { server_id } => server_id == CONTEXT_SERVER_ID@
                && replies.settings is None,
            RequestView::WorkDirectories => replies.work_dirs is None,
            RequestView::IsFile { path } => {
                &&& replies.work_dirs is Some
                &&& replies.probes.len() < entrypoint_candidates(replies.work_dirs->0).len()
                &&& path == entrypoint_candidates(replies.work_dirs->0)[replies.probes.len() as int]
                &&& forall|j: int| 0 <= j < replies.probes.len() ==> !#[trigger] replies.probes[j]
            },
            RequestView::NodeBinaryPath => replies.node_binary_path is None,
        },
{
    lemma_entrypoint_stage_asks_for_files_only(replies.work_dirs, replies.probes);
    if let RequestView::IsFile { path } = request {
        lemma_asked_file_is_next_candidate(
            entrypoint_candidates(replies.work_dirs->0),
            replies.probes,
            path,
        );
    }
}

/// One where the answer is still open, none where it is known.
pub open spec fn open_question(known: bool) -> nat {
    if known {
        0
    } else {
        1
    }
}

/// The number of answers that a resolution may still have to ask for: the
/// six that are asked once each, and a probe for each of the seven places
/// at most in which the entrypoint may lie.
pub open spec fn open_questions(replies: HostRepliesView) -> nat {
    let probes_left = if replies.probes.len() < 7 {
        (7 - replies.probes.len()) as nat
    } else {
        0nat
    };
    open_question(replies.latest_version is Some) + open_question(
        replies.installed_version is Some,
    ) + open_question(replies.install is Some) + open_question(replies.settings is Some)
        + open_question(replies.work_dirs is Some) + open_question(
        replies.node_binary_path is Some,
    ) + probes_left
}

/// At the start of a resolution thirteen questions are open, and never more.
pub proof fn lemma_thirteen_questions_at_most(replies: HostRepliesView)
    ensures
        open_questions(replies) <= 13,
        open_questions(no_replies()) == 13,
{
}

/// Every answer brings the resolution closer to its end: once the request
/// that the resolver asked is answered, fewer questions are open than
/// before. So a resolution asks the host at most thirteen times before it
/// yields the command or fails.
pub proof fn lemma_answer_brings_end_closer(
    id: Seq<char>,
    replies: HostRepliesView,
    request: RequestView,
    reply: ReplyView,
)
    requires
        command_progress(id, replies) == ProgressView::<CommandView>::Ask(request),
        answers(reply, request),
    ensures
        open_questions(recorded(replies, reply)) < open_questions(replies),
{
    lemma_nothing_is_asked_twice(id, replies, request);
    if replies.work_dirs is Some {
        lemma_at_most_seven_candidates(replies.work_dirs->0);
    }
}

} // verus!
