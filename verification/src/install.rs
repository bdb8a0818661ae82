//! Keeping the installed package at the latest published version.

use crate::error::{ResolveError, ResolveErrorView};
use crate::names::NPM_PACKAGE_NAME;
use crate::progress::{Progress, ProgressView, Request, RequestView};
use crate::replies::{install_reply_view, installed_reply_view, text_reply_view};
use vstd::prelude::*;

verus! {

/// Whether the package has to be installed: it is absent, or its version is
/// not the latest.
pub open spec fn needs_install(latest: Seq<char>, installed: Option<Seq<char>>) -> bool {
    installed != Some(latest)
}

/// The outcome of the installation stage. The latest version is asked for,
/// then the installed one; the package is installed at the latest version
/// where the two differ, and only then. A failure of the host at any of the
/// three is passed on.
pub open spec fn install_progress(
    latest: Option<Result<Seq<char>, Seq<char>>>,
    installed: Option<Result<Option<Seq<char>>, Seq<char>>>,
    install: Option<Result<(), Seq<char>>>,
) -> ProgressView<()> {
    match latest {
        None => ProgressView::Ask(RequestView::LatestVersion { package: NPM_PACKAGE_NAME@ }),
        Some(Err(message)) => ProgressView::Failed(ResolveErrorView::Host { message }),
        Some(Ok(latest)) => match installed {
            None => ProgressView::Ask(
                RequestView::InstalledVersion { package: NPM_PACKAGE_NAME@ },
            ),
            Some(Err(message)) => ProgressView::Failed(ResolveErrorView::Host { message }),
            Some(Ok(installed)) => if !needs_install(latest, installed) {
                ProgressView::Ready(())
            } else {
                match install {
                    None => ProgressView::Ask(
                        RequestView::Install { package: NPM_PACKAGE_NAME@, version: latest },
                    ),
                    Some(Err(message)) => ProgressView::Failed(
                        ResolveErrorView::Host { message },
                    ),
                    Some(Ok(())) => ProgressView::Ready(()),
                }
            },
        },
    }
}

/// Whether the installed version differs from the latest one.
fn version_differs(latest: &String, installed: &Option<String>) -> (r: bool)
    ensures
        r == needs_install(latest@, installed.deep_view()),
{
    match installed {
        None => true,
        Some(version) => *version != *latest,
    }
}

/// Makes sure that the package is installed at its latest version.
pub fn ensure_sentry_mcp_installed(
    latest: &Option<Result<String, String>>,
    installed: &Option<Result<Option<String>, String>>,
    install: &Option<Result<(), String>>,
) -> (r: Progress<()>)
    ensures
        r@ == install_progress(
            text_reply_view(*latest),
            installed_reply_view(*installed),
            install_reply_view(*install),
        ),
{
    let latest_version = match latest {
        None => {
            return Progress::Ask(Request::LatestVersion { package: NPM_PACKAGE_NAME.to_owned() });
        },
        Some(Err(message)) => {
            return Progress::Failed(ResolveError::Host { message: message.clone() });
        },
        Some(Ok(version)) => version,
    };
    let installed_version = match installed {
        None => {
            return Progress::Ask(
                Request::InstalledVersion { package: NPM_PACKAGE_NAME.to_owned() },
            );
        },
        Some(Err(message)) => {
            return Progress::Failed(ResolveError::Host { message: message.clone() });
        },
        Some(Ok(version)) => version,
    };
    if !version_differs(latest_version, installed_version) {
        return Progress::Ready(());
    }
    match install {
        None => Progress::Ask(
            Request::Install {
                package: NPM_PACKAGE_NAME.to_owned(),
                version: latest_version.clone(),
            },
        ),
        Some(Err(message)) => Progress::Failed(ResolveError::Host { message: message.clone() }),
        Some(Ok(())) => Progress::Ready(()),
    }
}

/// Where the installed version is the latest one, the stage is complete
/// without an installation, whatever is known of one.
pub proof fn lemma_current_package_is_not_installed(
    latest: Seq<char>,
    install: Option<Result<(), Seq<char>>>,
)
    ensures
        install_progress(Some(Ok(latest)), Some(Ok(Some(latest))), install) == ProgressView::Ready(
            (),
        ),
{
}

/// Where the installed version is not the latest one, or the package is
/// absent, the stage asks for one installation, of the latest version; once
/// that is answered it asks for no other.
pub proof fn lemma_outdated_package_is_installed_once(
    latest: Seq<char>,
    installed: Option<Seq<char>>,
    outcome: Result<(), Seq<char>>,
)
    requires
        installed != Some(latest),
    ensures
        install_progress(Some(Ok(latest)), Some(Ok(installed)), None) == ProgressView::<()>::Ask(
            RequestView::Install { package: NPM_PACKAGE_NAME@, version: latest },
        ),
        !(install_progress(Some(Ok(latest)), Some(Ok(installed)), Some(outcome)) is Ask),
{
}

/// An installation is asked for only where both versions are known and
/// differ and no installation was made yet, and then for the latest version.
pub proof fn lemma_install_is_asked_only_for_outdated_package(
    latest: Option<Result<Seq<char>, Seq<char>>>,
    installed: Option<Result<Option<Seq<char>>, Seq<char>>>,
    install: Option<Result<(), Seq<char>>>,
    package: Seq<char>,
    version: Seq<char>,
)
    requires
        install_progress(latest, installed, install) == ProgressView::<()>::Ask(
            RequestView::Install { package, version },
        ),
    ensures
        package == NPM_PACKAGE_NAME@,
        latest == Some(Ok::<Seq<char>, Seq<char>>(version)),
        installed matches Some(Ok(current)) && current != Some(version),
        install is None,
{
}

} // verus!
