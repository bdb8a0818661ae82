//! The settings record, how it is obtained from what the host stores, and the
//! credential it must hold.

use crate::error::{ResolveError, ResolveErrorView};
use crate::names::CONTEXT_SERVER_ID;
use crate::progress::{Progress, ProgressView, Request, RequestView};
use crate::text::{
    is_blank, is_whitespace, lemma_trimmed_is_empty_iff_blank, lemma_trimmed_text_is_unchanged, trim,
    trimmed,
};
use vstd::prelude::*;

verus! {

/// The user's settings for the server.
#[derive(Debug, Clone, PartialEq, Eq)]
pub struct SentryMcpSettings {
    /// The access token handed to the server; empty where none is set.
    pub sentry_access_token: String,
}

/// The mathematical model of a [`SentryMcpSettings`].
pub struct SentryMcpSettingsView {
    pub sentry_access_token: Seq<char>,
}

impl View for SentryMcpSettings {
    type V = SentryMcpSettingsView;

    open spec fn view(&self) -> SentryMcpSettingsView {
        SentryMcpSettingsView { sentry_access_token: self.sentry_access_token@ }
    }
}

/// The settings that hold when the user has set none: an empty access token.
pub open spec fn default_settings() -> SentryMcpSettingsView {
    SentryMcpSettingsView { sentry_access_token: Seq::empty() }
}

impl Default for SentryMcpSettings {
    fn default() -> (r: Self)
        ensures
            r@ == default_settings(),
    {
        Self { sentry_access_token: String::new() }
    }
}

/// What the host stores for the server, after decoding.
#[derive(Debug, Clone, PartialEq, Eq)]
pub enum StoredSettings {
    /// Nothing is stored.
    Absent,
    /// A value is stored and has the shape of the settings record. A value
    /// without an access token decodes to the empty token.
    Decoded(SentryMcpSettings),
    /// A value is stored and does not have that shape; the decoder's
    /// diagnostic says why.
    Malformed(String),
}

/// The mathematical model of a [`StoredSettings`].
pub enum StoredSettingsView {
    Absent,
    Decoded(SentryMcpSettingsView),
    Malformed(Seq<char>),
}

impl View for StoredSettings {
    type V = StoredSettingsView;

    open spec fn view(&self) -> StoredSettingsView {
        match self {
            StoredSettings::Absent => StoredSettingsView::Absent,
            StoredSettings::Decoded(settings) => StoredSettingsView::Decoded(settings@),
            StoredSettings::Malformed(diagnostic) => StoredSettingsView::Malformed(diagnostic@),
        }
    }
}

/// The model of the host's answer on the stored settings.
pub open spec fn settings_result_view(answer: Result<StoredSettings, String>) -> Result<
    StoredSettingsView,
    Seq<char>,
> {
    match answer {
        Ok(stored) => Ok(stored@),
        Err(message) => Err(message@),
    }
}

/// The model of the host's answer on the stored settings, `None` while it is
/// not known.
pub open spec fn settings_reply_view(reply: Option<Result<StoredSettings, String>>) -> Option<
    Result<StoredSettingsView, Seq<char>>,
> {
    match reply {
        None => None,
        Some(answer) => Some(settings_result_view(answer)),
    }
}

/// The outcome of the settings stage: the stored value is asked for; a
/// failure of the host is passed on; absent settings are the defaults; a
/// malformed value is an error that carries the decoder's diagnostic.
pub open spec fn settings_progress(
    reply: Option<Result<StoredSettingsView, Seq<char>>>,
) -> ProgressView<SentryMcpSettingsView> {
    match reply {
        None => ProgressView::Ask(RequestView::Settings { server_id: CONTEXT_SERVER_ID@ }),
        Some(Err(message)) => ProgressView::Failed(ResolveErrorView::Host { message }),
        Some(Ok(StoredSettingsView::Absent)) => ProgressView::Ready(default_settings()),
        Some(Ok(StoredSettingsView::Decoded(settings))) => ProgressView::Ready(settings),
        Some(Ok(StoredSettingsView::Malformed(detail))) => ProgressView::Failed(
            ResolveErrorView::InvalidSettings { detail },
        ),
    }
}

/// Turns the host's answer on the stored settings into the settings record.
pub fn load_settings(reply: &Option<Result<StoredSettings, String>>) -> (r: Progress<
    SentryMcpSettings,
>)
    ensures
        r@ == settings_progress(settings_reply_view(*reply)),
{
    match reply {
        None => Progress::Ask(Request::Settings { server_id: CONTEXT_SERVER_ID.to_owned() }),
        Some(Err(message)) => Progress::Failed(ResolveError::Host { message: message.clone() }),
        Some(Ok(StoredSettings::Absent)) => Progress::Ready(SentryMcpSettings::default()),
        Some(Ok(StoredSettings::Decoded(settings))) => Progress::Ready(
            SentryMcpSettings { sentry_access_token: settings.sentry_access_token.clone() },
        ),
        Some(Ok(StoredSettings::Malformed(diagnostic))) => Progress::Failed(
            ResolveError::InvalidSettings { detail: diagnostic.clone() },
        ),
    }
}

/// The credential that the settings hold: the access token without leading
/// and trailing whitespace, or the missing-token error where nothing is left.
pub open spec fn access_token(settings: SentryMcpSettingsView) -> Result<
    Seq<char>,
    ResolveErrorView,
> {
    let token = trimmed(settings.sentry_access_token);
    if token.len() == 0 {
        Err(ResolveErrorView::MissingAccessToken)
    } else {
        Ok(token)
    }
}

/// Extracts the access token, which must not be empty after trimming.
pub fn required_access_token(settings: &SentryMcpSettings) -> (r: Result<String, ResolveError>)
    ensures
        match r {
            Ok(token) => access_token(settings@) == Ok::<Seq<char>, ResolveErrorView>(token@),
            Err(error) => access_token(settings@) == Err::<Seq<char>, ResolveErrorView>(error@),
        },
{
    let token = trim(settings.sentry_access_token.as_str());
    if token.as_str().is_empty() {
        Err(ResolveError::MissingAccessToken)
    } else {
        Ok(token)
    }
}

/// Where the host stores no settings, the settings are the defaults, and
/// their access token is empty.
pub proof fn lemma_absent_settings_have_empty_token()
    ensures
        settings_progress(Some(Ok(StoredSettingsView::Absent))) == ProgressView::Ready(
            default_settings(),
        ),
        default_settings().sentry_access_token.len() == 0,
{
}

/// Settings that were decoded are handed on as they are: the access token
/// is exactly the decoded one.
pub proof fn lemma_decoded_settings_are_kept(settings: SentryMcpSettingsView)
    ensures
        settings_progress(Some(Ok(StoredSettingsView::Decoded(settings)))) == ProgressView::Ready(
            settings,
        ),
{
}

/// A token that neither starts nor ends with whitespace is the credential,
/// unchanged.
pub proof fn lemma_trimmed_token_is_kept(settings: SentryMcpSettingsView)
    requires
        settings.sentry_access_token.len() > 0,
        !is_whitespace(settings.sentry_access_token[0]),
        !is_whitespace(settings.sentry_access_token.last()),
    ensures
        access_token(settings) == Ok::<Seq<char>, ResolveErrorView>(settings.sentry_access_token),
{
    lemma_trimmed_text_is_unchanged(settings.sentry_access_token);
}

/// The credential is missing exactly where the token is empty or holds
/// nothing but whitespace.
pub proof fn lemma_token_is_missing_iff_blank(settings: SentryMcpSettingsView)
    ensures
        access_token(settings) == Err::<Seq<char>, ResolveErrorView>(
            ResolveErrorView::MissingAccessToken,
        ) <==> is_blank(settings.sentry_access_token),
{
    lemma_trimmed_is_empty_iff_blank(settings.sentry_access_token);
}

} // verus!
