//! Where the package's entrypoint may lie, and which location wins.

use crate::error::{ResolveError, ResolveErrorView};
use crate::names::{
    APPDATA_WORK_DIR, HOME_WORK_DIR_MACOS, HOME_WORK_DIR_XDG, NPM_ENTRYPOINT_RELATIVE,
};
use crate::progress::{Progress, ProgressView, Request, RequestView};
use std::path::Path;
use vstd::prelude::*;

verus! {

/// The path that `Path::join` forms from the directory `base` and the path
/// `rel`. It depends on the two paths alone; the separator that stands
/// between them is that of the platform the library is built for.
pub uninterp spec fn joined_path(base: Seq<char>, rel: Seq<char>) -> Seq<char>;

/// Calls `Path::join` on `base` with `rel` and hands the joined path back as
/// text. Both inputs are text, so the joined path is text too and nothing is
/// lost in the conversion. Trusted, not proved.
#[verifier::external_body]
fn join_path(base: &str, rel: &str) -> (r: String)
    ensures
        r@ == joined_path(base@, rel@),
{
    Path::new(base).join(rel).to_string_lossy().into_owned()
}

/// The directories, as the process sees them, below which the package may be
/// installed. A field is `None` where the directory is not known.
#[derive(Debug, Clone, PartialEq, Eq)]
pub struct WorkDirEnvironment {
    /// The current working directory.
    pub current_dir: Option<String>,
    /// The values of [`crate::names::WORK_DIR_VARIABLES`], in that order.
    pub work_dirs: [Option<String>; 3],
    /// The value of [`crate::names::HOME_VARIABLE`].
    pub home: Option<String>,
    /// The value of [`crate::names::APPDATA_VARIABLE`].
    pub appdata: Option<String>,
}

/// The mathematical model of a [`WorkDirEnvironment`].
pub struct WorkDirEnvironmentView {
    pub current_dir: Option<Seq<char>>,
    pub work_dirs: Seq<Option<Seq<char>>>,
    pub home: Option<Seq<char>>,
    pub appdata: Option<Seq<char>>,
}

impl View for WorkDirEnvironment {
    type V = WorkDirEnvironmentView;

    open spec fn view(&self) -> WorkDirEnvironmentView {
        WorkDirEnvironmentView {
            current_dir: self.current_dir.deep_view(),
            work_dirs: self.work_dirs.deep_view(),
            home: self.home.deep_view(),
            appdata: self.appdata.deep_view(),
        }
    }
}

impl DeepView for WorkDirEnvironment {
    type V = WorkDirEnvironmentView;

    open spec fn deep_view(&self) -> WorkDirEnvironmentView {
        self@
    }
}

/// The entrypoint's path below the work directory `dir`.
pub open spec fn entrypoint_in(dir: Seq<char>) -> Seq<char> {
    joined_path(dir, NPM_ENTRYPOINT_RELATIVE@)
}

/// The candidate that a directory contributes: none where it is not known.
pub open spec fn candidates_in(dir: Option<Seq<char>>) -> Seq<Seq<char>> {
    match dir {
        Some(dir) => seq![entrypoint_in(dir)],
        None => seq![],
    }
}

/// The candidates below the home directory: the macOS layout, then the XDG
/// layout.
pub open spec fn candidates_below_home(home: Option<Seq<char>>) -> Seq<Seq<char>> {
    match home {
        Some(home) => seq![
            entrypoint_in(joined_path(home, HOME_WORK_DIR_MACOS@)),
            entrypoint_in(joined_path(home, HOME_WORK_DIR_XDG@)),
        ],
        None => seq![],
    }
}

/// The candidate below the application-data directory.
pub open spec fn candidates_below_appdata(appdata: Option<Seq<char>>) -> Seq<Seq<char>> {
    match appdata {
        Some(appdata) => seq![entrypoint_in(joined_path(appdata, APPDATA_WORK_DIR@))],
        None => seq![],
    }
}

/// The candidate locations of the entrypoint, highest priority first: the
/// current directory, the three work-directory variables in their order, the
/// two layouts below the home directory, the application-data directory.
pub open spec fn entrypoint_candidates(env: WorkDirEnvironmentView) -> Seq<Seq<char>> {
    candidates_in(env.current_dir) + candidates_in(env.work_dirs[0]) + candidates_in(
        env.work_dirs[1],
    ) + candidates_in(env.work_dirs[2]) + candidates_below_home(env.home)
        + candidates_below_appdata(env.appdata)
}

/// The candidates that the first `n` work-directory variables contribute.
spec fn candidates_in_work_dirs(dirs: Seq<Option<Seq<char>>>, n: int) -> Seq<Seq<char>>
    decreases n,
{
    if n <= 0 {
        seq![]
    } else {
        candidates_in_work_dirs(dirs, n - 1) + candidates_in(dirs[n - 1])
    }
}

/// Appends the entrypoint's path below `dir`.
fn push_entrypoint_in(paths: &mut Vec<String>, dir: &str)
    ensures
        final(paths).deep_view() == old(paths).deep_view().push(entrypoint_in(dir@)),
{
    let path = join_path(dir, NPM_ENTRYPOINT_RELATIVE);
    paths.push(path);
}

/// Lists the candidate locations of the entrypoint, highest priority first.
pub fn sentry_entrypoint_candidates(env: &WorkDirEnvironment) -> (paths: Vec<String>)
    ensures
        paths.deep_view() == entrypoint_candidates(env@),
{
    let mut paths: Vec<String> = Vec::new();
    if let Some(cwd) = &env.current_dir {
        push_entrypoint_in(&mut paths, cwd.as_str());
    }
    let mut i: usize = 0;
    while i < 3
        invariant
            i <= 3,
            env@.work_dirs.len() == 3,
            paths.deep_view() == candidates_in(env@.current_dir) + candidates_in_work_dirs(
                env@.work_dirs,
                i as int,
            ),
        decreases 3 - i,
    {
        if let Some(dir) = &env.work_dirs[i] {
            push_entrypoint_in(&mut paths, dir.as_str());
        }
        i = i + 1;
    }
    assert(paths.deep_view() =~= candidates_in(env@.current_dir) + candidates_in(
        env@.work_dirs[0],
    ) + candidates_in(env@.work_dirs[1]) + candidates_in(env@.work_dirs[2])) by {
        reveal_with_fuel(candidates_in_work_dirs, 4);
    }
    if let Some(home) = &env.home {
        let macos = join_path(home.as_str(), HOME_WORK_DIR_MACOS);
        push_entrypoint_in(&mut paths, macos.as_str());
        let xdg = join_path(home.as_str(), HOME_WORK_DIR_XDG);
        push_entrypoint_in(&mut paths, xdg.as_str());
    }
    if let Some(appdata) = &env.appdata {
        let dir = join_path(appdata.as_str(), APPDATA_WORK_DIR);
        push_entrypoint_in(&mut paths, dir.as_str());
    }
    paths
}

/// The outcome of the search, given the candidates in priority order and
/// what probing found so far: `probes[i]` says whether `candidates[i]` is an
/// existing regular file. The first candidate that exists wins; a candidate
/// that was not probed yet is asked for; with none left the search fails.
pub open spec fn first_existing(candidates: Seq<Seq<char>>, probes: Seq<bool>) -> ProgressView<
    Seq<char>,
>
    decreases candidates.len(),
{
    if candidates.len() == 0 {
        ProgressView::Failed(ResolveErrorView::EntrypointNotFound)
    } else if probes.len() == 0 {
        ProgressView::Ask(RequestView::IsFile { path: candidates[0] })
    } else if probes[0] {
        ProgressView::Ready(candidates[0])
    } else {
        first_existing(candidates.drop_first(), probes.drop_first())
    }
}

/// The outcome of the entrypoint stage: the directories are asked for first,
/// then the candidates are searched.
pub open spec fn entrypoint_progress(
    work_dirs: Option<WorkDirEnvironmentView>,
    probes: Seq<bool>,
) -> ProgressView<Seq<char>> {
    match work_dirs {
        None => ProgressView::Ask(RequestView::WorkDirectories),
        Some(env) => first_existing(entrypoint_candidates(env), probes),
    }
}

/// Candidates that were probed and do not exist play no part in the search.
pub proof fn lemma_search_skips_missing(candidates: Seq<Seq<char>>, probes: Seq<bool>, n: int)
    requires
        0 <= n <= candidates.len(),
        n <= probes.len(),
        forall|j: int| 0 <= j < n ==> !#[trigger] probes[j],
    ensures
        first_existing(candidates, probes) == first_existing(
            candidates.skip(n),
            probes.skip(n),
        ),
    decreases n,
{
    if n == 0 {
        assert(candidates.skip(0) =~= candidates);
        assert(probes.skip(0) =~= probes);
    } else {
        let rest = candidates.drop_first();
        let rest_probes = probes.drop_first();
        lemma_search_skips_missing(rest, rest_probes, n - 1);
        assert(rest.skip(n - 1) =~= candidates.skip(n));
        assert(rest_probes.skip(n - 1) =~= probes.skip(n));
    }
}

/// Searches the candidates in priority order for the first that exists.
pub fn first_existing_candidate(candidates: &Vec<String>, probes: &Vec<bool>) -> (r: Progress<
    String,
>)
    ensures
        r@ == first_existing(candidates.deep_view(), probes@),
{
    let ghost paths = candidates.deep_view();
    let mut i: usize = 0;
    while i < candidates.len() && i < probes.len() && !probes[i]
        invariant
            i <= candidates.len(),
            i <= probes.len(),
            paths == candidates.deep_view(),
            forall|j: int| 0 <= j < i ==> !#[trigger] probes@[j],
        decreases candidates.len() - i,
    {
        i = i + 1;
    }
    proof {
        lemma_search_skips_missing(paths, probes@, i as int);
    }
    if i >= candidates.len() {
        Progress::Failed(ResolveError::EntrypointNotFound)
    } else if i >= probes.len() {
        Progress::Ask(Request::IsFile { path: candidates[i].clone() })
    } else {
        Progress::Ready(candidates[i].clone())
    }
}

/// Resolves the entrypoint: asks for the directories, then for each candidate
/// in priority order whether it exists, until one does or none is left.
pub fn resolve_sentry_entrypoint(work_dirs: &Option<WorkDirEnvironment>, probes: &Vec<bool>) -> (r:
    Progress<String>)
    ensures
        r@ == entrypoint_progress(work_dirs.deep_view(), probes@),
{
    match work_dirs {
        None => Progress::Ask(Request::WorkDirectories),
        Some(env) => {
            let candidates = sentry_entrypoint_candidates(env);
            first_existing_candidate(&candidates, probes)
        },
    }
}

/// Of several candidates that exist, the one of highest priority wins: the
/// search returns the first candidate whose probe found a file.
pub proof fn lemma_first_existing_candidate_wins(
    candidates: Seq<Seq<char>>,
    probes: Seq<bool>,
    i: int,
)
    requires
        0 <= i < candidates.len(),
        i < probes.len(),
        probes[i],
        forall|j: int| 0 <= j < i ==> !#[trigger] probes[j],
    ensures
        first_existing(candidates, probes) == ProgressView::Ready(candidates[i]),
{
    lemma_search_skips_missing(candidates, probes, i);
}

/// While no probed candidate exists and some are left, the search asks for
/// the next candidate in priority order, and for no other.
pub proof fn lemma_candidates_are_probed_in_order(candidates: Seq<Seq<char>>, probes: Seq<bool>)
    requires
        probes.len() < candidates.len(),
        forall|j: int| 0 <= j < probes.len() ==> !#[trigger] probes[j],
    ensures
        first_existing(candidates, probes) == ProgressView::<Seq<char>>::Ask(
            RequestView::IsFile { path: candidates[probes.len() as int] },
        ),
{
    let n = probes.len() as int;
    lemma_search_skips_missing(candidates, probes, n);
}

/// Where every candidate was probed and none exists, the search fails.
pub proof fn lemma_no_candidate_exists(candidates: Seq<Seq<char>>, probes: Seq<bool>)
    requires
        candidates.len() <= probes.len(),
        forall|j: int| 0 <= j < candidates.len() ==> !#[trigger] probes[j],
    ensures
        first_existing(candidates, probes) == ProgressView::<Seq<char>>::Failed(
            ResolveErrorView::EntrypointNotFound,
        ),
{
    lemma_search_skips_missing(candidates, probes, candidates.len() as int);
}

/// The candidates stand in priority order: the one in the current directory
/// before those of the work-directory variables, these before the two below
/// the home directory, and the one below the application-data directory
/// last.
pub proof fn lemma_candidates_stand_in_priority_order(
    current_dir: Seq<char>,
    work_dirs: Seq<Seq<char>>,
    home: Seq<char>,
    appdata: Seq<char>,
)
    requires
        work_dirs.len() == 3,
    ensures
        entrypoint_candidates(
            WorkDirEnvironmentView {
                current_dir: Some(current_dir),
                work_dirs: work_dirs.map_values(|dir: Seq<char>| Some(dir)),
                home: Some(home),
                appdata: Some(appdata),
            },
        ) == seq![
            entrypoint_in(current_dir),
            entrypoint_in(work_dirs[0]),
            entrypoint_in(work_dirs[1]),
            entrypoint_in(work_dirs[2]),
            entrypoint_in(joined_path(home, HOME_WORK_DIR_MACOS@)),
            entrypoint_in(joined_path(home, HOME_WORK_DIR_XDG@)),
            entrypoint_in(joined_path(appdata, APPDATA_WORK_DIR@)),
        ],
{
}

/// Where the entrypoint exists in the current directory, that one is
/// resolved, whatever else exists.
pub proof fn lemma_current_directory_wins(env: WorkDirEnvironmentView, probes: Seq<bool>)
    requires
        env.current_dir is Some,
        probes.len() > 0,
        probes[0],
    ensures
        entrypoint_progress(Some(env), probes) == ProgressView::Ready(
            entrypoint_in(env.current_dir->0),
        ),
{
    lemma_first_existing_candidate_wins(entrypoint_candidates(env), probes, 0);
}

/// The entrypoint stage asks the host for the directories while they are not
/// known, and from then on for nothing but whether a candidate is a file.
pub proof fn lemma_entrypoint_stage_asks_for_files_only(
    work_dirs: Option<WorkDirEnvironmentView>,
    probes: Seq<bool>,
)
    ensures
        entrypoint_progress(work_dirs, probes) matches ProgressView::Ask(request) ==> if work_dirs
            is None {
            request is WorkDirectories
        } else {
            request is IsFile
        },
{
    if let Some(env) = work_dirs {
        lemma_search_asks_for_files_only(entrypoint_candidates(env), probes);
    }
}

proof fn lemma_search_asks_for_files_only(candidates: Seq<Seq<char>>, probes: Seq<bool>)
    ensures
        first_existing(candidates, probes) matches ProgressView::Ask(request) ==> request is IsFile,
    decreases candidates.len(),
{
    if candidates.len() > 0 && probes.len() > 0 && !probes[0] {
        lemma_search_asks_for_files_only(candidates.drop_first(), probes.drop_first());
    }
}

/// The file that the search asks for is the candidate that comes next: all
/// candidates before it were probed, and none of them exists.
pub proof fn lemma_asked_file_is_next_candidate(
    candidates: Seq<Seq<char>>,
    probes: Seq<bool>,
    path: Seq<char>,
)
    requires
        first_existing(candidates, probes) == ProgressView::<Seq<char>>::Ask(
            RequestView::IsFile { path },
        ),
    ensures
        probes.len() < candidates.len(),
        path == candidates[probes.len() as int],
        forall|j: int| 0 <= j < probes.len() ==> !#[trigger] probes[j],
    decreases candidates.len(),
{
    if candidates.len() > 0 && probes.len() > 0 && !probes[0] {
        let rest = candidates.drop_first();
        let rest_probes = probes.drop_first();
        lemma_asked_file_is_next_candidate(rest, rest_probes, path);
        assert forall|j: int| 0 <= j < probes.len() implies !#[trigger] probes[j] by {
            if j > 0 {
                assert(probes[j] == rest_probes[j - 1]);
            }
        }
    }
}

/// The entrypoint may lie in seven places at most.
pub proof fn lemma_at_most_seven_candidates(env: WorkDirEnvironmentView)
    ensures
        entrypoint_candidates(env).len() <= 7,
{
}

} // verus!
