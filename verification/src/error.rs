//! The ways in which resolving the launch command can fail.

use crate::names::CONTEXT_SERVER_ID;
use vstd::prelude::*;

verus! {

/// Why a resolution stopped. Every failure is terminal: nothing is retried.
#[derive(Debug, Clone, PartialEq, Eq)]
pub enum ResolveError {
    /// The requested context server is not the one this library resolves.
    UnsupportedServer { id: String },
    /// A host operation failed; the host's message is kept as it came.
    Host { message: String },
    /// The stored settings do not have the shape of the settings record.
    InvalidSettings { detail: String },
    /// The access token is absent, empty or whitespace only.
    MissingAccessToken,
    /// None of the candidate locations holds the entrypoint file.
    EntrypointNotFound,
}

/// The mathematical model of a [`ResolveError`].
pub enum ResolveErrorView {
    UnsupportedServer { id: Seq<char> },
    Host { message: Seq<char> },
    InvalidSettings { detail: Seq<char> },
    MissingAccessToken,
    EntrypointNotFound,
}

impl View for ResolveError {
    type V = ResolveErrorView;

    open spec fn view(&self) -> ResolveErrorView {
        match self {
            ResolveError::UnsupportedServer { id } => ResolveErrorView::UnsupportedServer {
                id: id@,
            },
            ResolveError::Host { message } => ResolveErrorView::Host { message: message@ },
            ResolveError::InvalidSettings { detail } => ResolveErrorView::InvalidSettings {
                detail: detail@,
            },
            ResolveError::MissingAccessToken => ResolveErrorView::MissingAccessToken,
            ResolveError::EntrypointNotFound => ResolveErrorView::EntrypointNotFound,
        }
    }
}

impl ResolveErrorView {
    /// The message shown to the user for this failure.
    pub open spec fn message(self) -> Seq<char> {
        match self {
            ResolveErrorView::UnsupportedServer { id } => "Unsupported context server id `"@ + id
                + "` for this extension"@,
            ResolveErrorView::Host { message } => message,
            ResolveErrorView::InvalidSettings { detail } => "Invalid settings for `"@
                + CONTEXT_SERVER_ID@ + "`: "@ + detail,
            ResolveErrorView::MissingAccessToken =>
                "Missing required setting: sentry_access_token. Open Configure for Sentry MCP Server and set `sentry_access_token`."@,
            ResolveErrorView::EntrypointNotFound =>
                "Could not locate @sentry/mcp-server entrypoint in Zed extension work directory."@,
        }
    }
}

impl ResolveError {
    /// The message shown to the user for this failure.
    pub fn message(&self) -> (r: String)
        ensures
            r@ == self@.message(),
    {
        match self {
            ResolveError::UnsupportedServer { id } => {
                let mut out = "Unsupported context server id `".to_owned();
                out.append(id.as_str());
                out.append("` for this extension");
                out
            },
            ResolveError::Host { message } => message.clone(),
            ResolveError::InvalidSettings { detail } => {
                let mut out = "Invalid settings for `".to_owned();
                out.append(CONTEXT_SERVER_ID);
                out.append("`: ");
                out.append(detail.as_str());
                out
            },
            ResolveError::MissingAccessToken => {
                "Missing required setting: sentry_access_token. Open Configure for Sentry MCP Server and set `sentry_access_token`.".to_owned()
            },
            ResolveError::EntrypointNotFound => {
                "Could not locate @sentry/mcp-server entrypoint in Zed extension work directory.".to_owned()
            },
        }
    }
}

} // verus!
