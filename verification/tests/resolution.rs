use sentry_mcp::command::Command;
use sentry_mcp::entrypoint::WorkDirEnvironment;
use sentry_mcp::error::ResolveError;
use sentry_mcp::extension::SentryMcpExtension;
use sentry_mcp::progress::{Progress, Request};
use sentry_mcp::replies::{HostReplies, Reply};
use sentry_mcp::settings::{SentryMcpSettings, StoredSettings};

const WORK_ENTRYPOINT: &str = "/zed/work/node_modules/@sentry/mcp-server/dist/index.js";
const CWD_ENTRYPOINT: &str = "./node_modules/@sentry/mcp-server/dist/index.js";

/// A host made of fixed answers, which records what it was asked.
struct Host {
    latest: Result<String, String>,
    installed: Result<Option<String>, String>,
    install: Result<(), String>,
    settings: Result<StoredSettings, String>,
    work_dirs: WorkDirEnvironment,
    files: Vec<String>,
    node: Result<String, String>,
    asked: Vec<Request>,
}

impl Host {
    /// A host on which everything succeeds: the package is current, a token
    /// is set, the entrypoint lies in the work directory.
    fn healthy() -> Host {
        Host {
            latest: Ok("1.4.2".to_string()),
            installed: Ok(Some("1.4.2".to_string())),
            install: Ok(()),
            settings: Ok(token(" my-token ")),
            work_dirs: WorkDirEnvironment {
                current_dir: Some(".".to_string()),
                work_dirs: [None, Some("/zed/work".to_string()), None],
                home: None,
                appdata: None,
            },
            files: vec![WORK_ENTRYPOINT.to_string()],
            node: Ok("/opt/zed/node".to_string()),
            asked: Vec::new(),
        }
    }

    fn answer(&mut self, request: Request) -> Reply {
        let reply = match &request {
            Request::LatestVersion { .. } => Reply::LatestVersion(self.latest.clone()),
            Request::InstalledVersion { .. } => Reply::InstalledVersion(self.installed.clone()),
            Request::Install { .. } => Reply::Install(self.install.clone()),
            Request::Settings { .. } => Reply::Settings(self.settings.clone()),
            Request::WorkDirectories => Reply::WorkDirectories(self.work_dirs.clone()),
            Request::IsFile { path } => Reply::IsFile(self.files.contains(path)),
            Request::NodeBinaryPath => Reply::NodeBinaryPath(self.node.clone()),
        };
        self.asked.push(request);
        reply
    }

    fn resolve(&mut self, id: &str) -> Result<Command, ResolveError> {
        let extension = SentryMcpExtension::new();
        let mut replies = HostReplies::new();
        for _ in 0..=13 {
            match extension.context_server_command(id, &replies) {
                Progress::Ready(command) => return Ok(command),
                Progress::Failed(error) => return Err(error),
                Progress::Ask(request) => replies.record(self.answer(request)),
            }
        }
        panic!("the resolution did not come to an end");
    }
}

fn token(text: &str) -> StoredSettings {
    StoredSettings::Decoded(SentryMcpSettings { sentry_access_token: text.to_string() })
}

fn package() -> String {
    "@sentry/mcp-server".to_string()
}

fn is_file(path: &str) -> Request {
    Request::IsFile { path: path.to_string() }
}

#[test]
fn healthy_host_yields_the_command() {
    let mut host = Host::healthy();
    assert_eq!(
        host.resolve("sentry-mcp"),
        Ok(Command {
            command: "/opt/zed/node".to_string(),
            args: vec![WORK_ENTRYPOINT.to_string(), "--access-token=my-token".to_string()],
            env: vec![],
        })
    );
}

#[test]
fn stages_run_in_order() {
    let mut host = Host::healthy();
    host.installed = Ok(Some("1.4.1".to_string()));
    assert!(host.resolve("sentry-mcp").is_ok());
    assert_eq!(
        host.asked,
        vec![
            Request::LatestVersion { package: package() },
            Request::InstalledVersion { package: package() },
            Request::Install { package: package(), version: "1.4.2".to_string() },
            Request::Settings { server_id: "sentry-mcp".to_string() },
            Request::WorkDirectories,
            is_file(CWD_ENTRYPOINT),
            is_file(WORK_ENTRYPOINT),
            Request::NodeBinaryPath,
        ]
    );
}

#[test]
fn unsupported_server_fails_before_any_host_operation() {
    let mut host = Host::healthy();
    assert_eq!(
        host.resolve("github-mcp"),
        Err(ResolveError::UnsupportedServer { id: "github-mcp".to_string() })
    );
    assert_eq!(host.asked, vec![]);
}

#[test]
fn unsupported_server_fails_whatever_is_known() {
    let extension = SentryMcpExtension::new();
    let mut host = Host::healthy();
    let mut replies = HostReplies::new();
    replies.record(host.answer(Request::LatestVersion { package: package() }));
    replies.record(host.answer(Request::Settings { server_id: "sentry-mcp".to_string() }));
    replies.record(host.answer(Request::NodeBinaryPath));
    for id in ["", "sentry", "sentry-mcp2", "SENTRY-MCP", " sentry-mcp"] {
        assert_eq!(
            extension.context_server_command(id, &replies),
            Progress::Failed(ResolveError::UnsupportedServer { id: id.to_string() })
        );
    }
}

#[test]
fn current_package_is_not_installed() {
    let mut host = Host::healthy();
    assert!(host.resolve("sentry-mcp").is_ok());
    assert!(!host.asked.iter().any(|request| matches!(request, Request::Install { .. })));
}

#[test]
fn outdated_package_is_installed_once_at_latest() {
    let mut host = Host::healthy();
    host.installed = Ok(Some("1.0.0".to_string()));
    assert!(host.resolve("sentry-mcp").is_ok());
    let installs: Vec<&Request> =
        host.asked.iter().filter(|request| matches!(request, Request::Install { .. })).collect();
    assert_eq!(installs, vec![&Request::Install { package: package(), version: "1.4.2".to_string() }]);
}

#[test]
fn absent_package_is_installed_once_at_latest() {
    let mut host = Host::healthy();
    host.installed = Ok(None);
    assert!(host.resolve("sentry-mcp").is_ok());
    let installs: Vec<&Request> =
        host.asked.iter().filter(|request| matches!(request, Request::Install { .. })).collect();
    assert_eq!(installs, vec![&Request::Install { package: package(), version: "1.4.2".to_string() }]);
}

#[test]
fn latest_version_failure_ends_the_resolution() {
    let mut host = Host::healthy();
    host.latest = Err("npm registry unreachable".to_string());
    assert_eq!(
        host.resolve("sentry-mcp"),
        Err(ResolveError::Host { message: "npm registry unreachable".to_string() })
    );
    assert_eq!(host.asked, vec![Request::LatestVersion { package: package() }]);
}

#[test]
fn installed_version_failure_ends_the_resolution() {
    let mut host = Host::healthy();
    host.installed = Err("package.json is damaged".to_string());
    assert_eq!(
        host.resolve("sentry-mcp"),
        Err(ResolveError::Host { message: "package.json is damaged".to_string() })
    );
    assert_eq!(host.asked.len(), 2);
}

#[test]
fn install_failure_ends_the_resolution() {
    let mut host = Host::healthy();
    host.installed = Ok(None);
    host.install = Err("npm install failed".to_string());
    assert_eq!(
        host.resolve("sentry-mcp"),
        Err(ResolveError::Host { message: "npm install failed".to_string() })
    );
    assert_eq!(host.asked.len(), 3);
}

#[test]
fn settings_failure_ends_the_resolution() {
    let mut host = Host::healthy();
    host.settings = Err("settings could not be read".to_string());
    assert_eq!(
        host.resolve("sentry-mcp"),
        Err(ResolveError::Host { message: "settings could not be read".to_string() })
    );
    assert_eq!(host.asked.last(), Some(&Request::Settings { server_id: "sentry-mcp".to_string() }));
}

#[test]
fn malformed_settings_end_the_resolution() {
    let mut host = Host::healthy();
    host.settings = Ok(StoredSettings::Malformed("invalid type: null".to_string()));
    let error = host.resolve("sentry-mcp").unwrap_err();
    assert_eq!(error, ResolveError::InvalidSettings { detail: "invalid type: null".to_string() });
    assert_eq!(error.message(), "Invalid settings for `sentry-mcp`: invalid type: null");
}

#[test]
fn whitespace_token_ends_the_resolution() {
    for blank in ["", " ", "\t\n", "   \u{a0} "] {
        let mut host = Host::healthy();
        host.settings = Ok(token(blank));
        assert_eq!(host.resolve("sentry-mcp"), Err(ResolveError::MissingAccessToken));
    }
}

#[test]
fn missing_settings_fail_before_the_entrypoint_is_searched() {
    let mut host = Host::healthy();
    host.settings = Ok(StoredSettings::Absent);
    host.work_dirs =
        WorkDirEnvironment { current_dir: Some(".".to_string()), work_dirs: [None, None, None], home: None, appdata: None };
    host.files = vec![];
    let error = host.resolve("sentry-mcp").unwrap_err();
    assert_eq!(error, ResolveError::MissingAccessToken);
    assert_eq!(
        error.message(),
        "Missing required setting: sentry_access_token. Open Configure for Sentry MCP Server and set `sentry_access_token`."
    );
    assert_eq!(
        host.asked,
        vec![
            Request::LatestVersion { package: package() },
            Request::InstalledVersion { package: package() },
            Request::Settings { server_id: "sentry-mcp".to_string() },
        ]
    );
}

#[test]
fn missing_entrypoint_ends_the_resolution() {
    let mut host = Host::healthy();
    host.files = vec![];
    let error = host.resolve("sentry-mcp").unwrap_err();
    assert_eq!(error, ResolveError::EntrypointNotFound);
    assert_eq!(
        error.message(),
        "Could not locate @sentry/mcp-server entrypoint in Zed extension work directory."
    );
    assert!(!host.asked.contains(&Request::NodeBinaryPath));
}

#[test]
fn entrypoint_in_working_directory_wins() {
    let mut host = Host::healthy();
    host.files = vec![WORK_ENTRYPOINT.to_string(), CWD_ENTRYPOINT.to_string()];
    let command = host.resolve("sentry-mcp").unwrap();
    assert_eq!(command.args, vec![CWD_ENTRYPOINT.to_string(), "--access-token=my-token".to_string()]);
    assert!(!host.asked.contains(&is_file(WORK_ENTRYPOINT)));
}

#[test]
fn node_failure_ends_the_resolution() {
    let mut host = Host::healthy();
    host.node = Err("node is not installed".to_string());
    assert_eq!(
        host.resolve("sentry-mcp"),
        Err(ResolveError::Host { message: "node is not installed".to_string() })
    );
    assert_eq!(host.asked.last(), Some(&Request::NodeBinaryPath));
}

#[test]
fn resolution_is_repeatable() {
    let mut host = Host::healthy();
    let first = host.resolve("sentry-mcp");
    let second = host.resolve("sentry-mcp");
    assert_eq!(first, second);
}

#[test]
fn host_is_asked_thirteen_times_at_most() {
    let mut host = Host::healthy();
    host.installed = Ok(None);
    host.work_dirs = WorkDirEnvironment {
        current_dir: Some("/cwd".to_string()),
        work_dirs: [Some("/one".to_string()), Some("/two".to_string()), Some("/three".to_string())],
        home: Some("/home/dev".to_string()),
        appdata: Some("/appdata".to_string()),
    };
    host.files =
        vec!["/appdata/Zed/extensions/work/sentry-mcp/node_modules/@sentry/mcp-server/dist/index.js"
            .to_string()];
    assert!(host.resolve("sentry-mcp").is_ok());
    assert_eq!(host.asked.len(), 13);
}

#[test]
fn answers_are_recorded_in_their_fields() {
    let mut replies = HostReplies::new();
    replies.record(Reply::LatestVersion(Ok("1.4.2".to_string())));
    replies.record(Reply::InstalledVersion(Ok(None)));
    replies.record(Reply::Install(Err("no network".to_string())));
    replies.record(Reply::Settings(Ok(StoredSettings::Absent)));
    replies.record(Reply::IsFile(false));
    replies.record(Reply::IsFile(true));
    replies.record(Reply::NodeBinaryPath(Ok("/opt/zed/node".to_string())));
    assert_eq!(
        replies,
        HostReplies {
            latest_version: Some(Ok("1.4.2".to_string())),
            installed_version: Some(Ok(None)),
            install: Some(Err("no network".to_string())),
            settings: Some(Ok(StoredSettings::Absent)),
            work_dirs: None,
            probes: vec![false, true],
            node_binary_path: Some(Ok("/opt/zed/node".to_string())),
        }
    );
    let env = WorkDirEnvironment {
        current_dir: None,
        work_dirs: [None, Some("/zed/work".to_string()), None],
        home: None,
        appdata: None,
    };
    replies.record(Reply::WorkDirectories(env.clone()));
    assert_eq!(replies.work_dirs, Some(env));
}

#[test]
fn later_answer_replaces_earlier_one() {
    let mut replies = HostReplies::new();
    replies.record(Reply::LatestVersion(Err("timeout".to_string())));
    replies.record(Reply::LatestVersion(Ok("2.0.0".to_string())));
    assert_eq!(replies.latest_version, Some(Ok("2.0.0".to_string())));
}

#[test]
fn nothing_is_known_at_the_start() {
    assert_eq!(
        HostReplies::new(),
        HostReplies {
            latest_version: None,
            installed_version: None,
            install: None,
            settings: None,
            work_dirs: None,
            probes: vec![],
            node_binary_path: None,
        }
    );
}
