//! The fixed names the resolver is built around.

use vstd::prelude::*;

verus! {

/// The identifier of the one context server this library resolves.
pub const CONTEXT_SERVER_ID: &'static str = "sentry-mcp";

/// The npm package that provides the server.
pub const NPM_PACKAGE_NAME: &'static str = "@sentry/mcp-server";

/// Where the package's entrypoint lies, relative to an extension work directory.
pub const NPM_ENTRYPOINT_RELATIVE: &'static str = "node_modules/@sentry/mcp-server/dist/index.js";

/// The environment variables that may name the extension work directory, in
/// the order in which they are tried.
pub const WORK_DIR_VARIABLES: [&'static str; 3] = [
    "ZED_EXTENSION_WORK_DIR",
    "ZED_WORKDIR",
    "ZED_EXT_WORK_DIR",
];

/// The environment variable that names the user's home directory.
pub const HOME_VARIABLE: &'static str = "HOME";

/// The environment variable that names the application-data directory.
pub const APPDATA_VARIABLE: &'static str = "APPDATA";

/// The extension work directory below the home directory, macOS layout.
pub const HOME_WORK_DIR_MACOS: &'static str =
    "Library/Application Support/Zed/extensions/work/sentry-mcp";

/// The extension work directory below the home directory, XDG layout.
pub const HOME_WORK_DIR_XDG: &'static str = ".local/share/zed/extensions/work/sentry-mcp";

/// The extension work directory below the application-data directory.
pub const APPDATA_WORK_DIR: &'static str = "Zed/extensions/work/sentry-mcp";

} // verus!
