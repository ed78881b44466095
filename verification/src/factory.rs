//! Making the managers: from one text that says where the codebases are, or
//! from the static configuration.

use crate::config::Config;
use crate::location::{url_join, url_parse, url_to_file_path, Url, UrlView};
use crate::manager::{
    BranchUrl, BranchUrlView, DiffStep, DiffStepView, LocalBzrVcsManager, LocalGitVcsManager,
    RemoteBzrVcsManager, RemoteGitVcsManager, VcsManager,
};
use crate::revision::RevisionId;
use crate::text::{
    chars_of, find_from, first_index, pieces_view, same_text, split, split_once, split_once_text,
    split_text, text_of, text_view,
};
use crate::vcs::VcsType;
use vstd::prelude::*;

verus! {

/// A manager of any of the four sorts.
#[derive(Debug, PartialEq, Eq)]
pub enum AnyVcsManager {
    LocalGit(LocalGitVcsManager),
    LocalBzr(LocalBzrVcsManager),
    RemoteGit(RemoteGitVcsManager),
    RemoteBzr(RemoteBzrVcsManager),
}

/// What an `AnyVcsManager` holds: the sort, with the path of the local
/// directory or the base URL.
pub enum AnyVcsManagerView {
    LocalGit(Seq<char>),
    LocalBzr(Seq<char>),
    RemoteGit(UrlView),
    RemoteBzr(UrlView),
}

impl View for AnyVcsManager {
    type V = AnyVcsManagerView;

    open spec fn view(&self) -> AnyVcsManagerView {
        match self {
            AnyVcsManager::LocalGit(manager) => AnyVcsManagerView::LocalGit(manager@),
            AnyVcsManager::LocalBzr(manager) => AnyVcsManagerView::LocalBzr(manager@),
            AnyVcsManager::RemoteGit(manager) => AnyVcsManagerView::RemoteGit(manager@),
            AnyVcsManager::RemoteBzr(manager) => AnyVcsManagerView::RemoteBzr(manager@),
        }
    }
}

impl AnyVcsManagerView {
    /// The kind of version control that a manager of this sort is for.
    pub open spec fn kind(self) -> VcsType {
        match self {
            AnyVcsManagerView::LocalGit(_) => VcsType::Git,
            AnyVcsManagerView::LocalBzr(_) => VcsType::Bzr,
            AnyVcsManagerView::RemoteGit(_) => VcsType::Git,
            AnyVcsManagerView::RemoteBzr(_) => VcsType::Bzr,
        }
    }
}

impl VcsManager for AnyVcsManager {
    open spec fn kind(&self) -> VcsType {
        self@.kind()
    }

    open spec fn branch_url(&self, codebase: Seq<char>, branch_name: Seq<char>) -> Option<
        BranchUrlView,
    > {
        match self {
            AnyVcsManager::LocalGit(manager) => manager.branch_url(codebase, branch_name),
            AnyVcsManager::LocalBzr(manager) => manager.branch_url(codebase, branch_name),
            AnyVcsManager::RemoteGit(manager) => manager.branch_url(codebase, branch_name),
            AnyVcsManager::RemoteBzr(manager) => manager.branch_url(codebase, branch_name),
        }
    }

    open spec fn diff_step(
        &self,
        codebase: Seq<char>,
        old_revid: Seq<u8>,
        new_revid: Seq<u8>,
    ) -> Option<DiffStepView> {
        match self {
            AnyVcsManager::LocalGit(manager) => manager.diff_step(codebase, old_revid, new_revid),
            AnyVcsManager::LocalBzr(manager) => manager.diff_step(codebase, old_revid, new_revid),
            AnyVcsManager::RemoteGit(manager) => manager.diff_step(codebase, old_revid, new_revid),
            AnyVcsManager::RemoteBzr(manager) => manager.diff_step(codebase, old_revid, new_revid),
        }
    }

    fn vcs_type(&self) -> (r: VcsType) {
        match self {
            AnyVcsManager::LocalGit(manager) => manager.vcs_type(),
            AnyVcsManager::LocalBzr(manager) => manager.vcs_type(),
            AnyVcsManager::RemoteGit(manager) => manager.vcs_type(),
            AnyVcsManager::RemoteBzr(manager) => manager.vcs_type(),
        }
    }

    fn get_branch_url(&self, codebase: &str, branch_name: &str) -> (r: Option<BranchUrl>) {
        match self {
            AnyVcsManager::LocalGit(manager) => manager.get_branch_url(codebase, branch_name),
            AnyVcsManager::LocalBzr(manager) => manager.get_branch_url(codebase, branch_name),
            AnyVcsManager::RemoteGit(manager) => manager.get_branch_url(codebase, branch_name),
            AnyVcsManager::RemoteBzr(manager) => manager.get_branch_url(codebase, branch_name),
        }
    }

    fn get_diff(&self, codebase: &str, old_revid: &RevisionId, new_revid: &RevisionId) -> (r:
        Option<DiffStep>) {
        match self {
            AnyVcsManager::LocalGit(manager) => manager.get_diff(codebase, old_revid, new_revid),
            AnyVcsManager::LocalBzr(manager) => manager.get_diff(codebase, old_revid, new_revid),
            AnyVcsManager::RemoteGit(manager) => manager.get_diff(codebase, old_revid, new_revid),
            AnyVcsManager::RemoteBzr(manager) => manager.get_diff(codebase, old_revid, new_revid),
        }
    }
}

/// Whatever the manager, the diff between a revision and itself is empty, and
/// known without a look at the codebase.
pub proof fn lemma_diff_with_itself_is_empty(
    manager: AnyVcsManager,
    codebase: Seq<char>,
    revid: Seq<u8>,
)
    ensures
        manager.diff_step(codebase, revid, revid) == Some(DiffStepView::Done(Seq::<u8>::empty())),
{
}

/// The managers by kind of version control: at most one for each.
#[derive(Debug, PartialEq, Eq)]
pub struct VcsManagers {
    pub git: Option<AnyVcsManager>,
    pub bzr: Option<AnyVcsManager>,
}

/// What a `VcsManagers` holds.
pub struct VcsManagersView {
    pub git: Option<AnyVcsManagerView>,
    pub bzr: Option<AnyVcsManagerView>,
}

/// `manager` with the view of what it holds.
pub open spec fn manager_view(manager: Option<AnyVcsManager>) -> Option<AnyVcsManagerView> {
    match manager {
        Some(manager) => Some(manager@),
        None => None,
    }
}

impl View for VcsManagers {
    type V = VcsManagersView;

    open spec fn view(&self) -> VcsManagersView {
        VcsManagersView { git: manager_view(self.git), bzr: manager_view(self.bzr) }
    }
}

impl VcsManagersView {
    /// No manager for any kind.
    pub open spec fn empty() -> VcsManagersView {
        VcsManagersView { git: None, bzr: None }
    }

    /// The manager for `kind`, if there is one.
    pub open spec fn of(self, kind: VcsType) -> Option<AnyVcsManagerView> {
        match kind {
            VcsType::Git => self.git,
            VcsType::Bzr => self.bzr,
        }
    }

    /// These managers, with `manager` for `kind` in place of the one that
    /// there may have been.
    pub open spec fn with(self, kind: VcsType, manager: AnyVcsManagerView) -> VcsManagersView {
        match kind {
            VcsType::Git => VcsManagersView { git: Some(manager), ..self },
            VcsType::Bzr => VcsManagersView { bzr: Some(manager), ..self },
        }
    }

    /// Every manager is for the kind that it is kept under.
    pub open spec fn keyed_by_kind(self) -> bool {
        &&& self.git matches Some(manager) ==> manager.kind() == VcsType::Git
        &&& self.bzr matches Some(manager) ==> manager.kind() == VcsType::Bzr
    }
}

impl VcsManagers {
    /// No manager for any kind.
    pub fn new() -> (r: Self)
        ensures
            r@ == VcsManagersView::empty(),
    {
        VcsManagers { git: None, bzr: None }
    }

    /// The manager for `kind`, if there is one.
    pub fn get(&self, kind: VcsType) -> (r: Option<&AnyVcsManager>)
        ensures
            (match r {
                Some(manager) => Some(manager@),
                None => None,
            }) == self@.of(kind),
    {
        match kind {
            VcsType::Git => self.git.as_ref(),
            VcsType::Bzr => self.bzr.as_ref(),
        }
    }

    /// Puts `manager` in for `kind`, in place of the one that there may have been.
    pub fn insert(&mut self, kind: VcsType, manager: AnyVcsManager)
        ensures
            final(self)@ == old(self)@.with(kind, manager@),
    {
        match kind {
            VcsType::Git => {
                self.git = Some(manager);
            },
            VcsType::Bzr => {
                self.bzr = Some(manager);
            },
        }
    }
}

/// Why no managers could be made.
#[derive(Clone, Copy, Debug, PartialEq, Eq, Hash, Structural)]
pub enum LocationError {
    /// A text that should be a URL is none.
    InvalidUrl,
    /// A `file` URL names no local path, or one that is not Unicode text.
    NoFilePath,
}

/// A remote manager for `kind` below `base_url`.
pub open spec fn remote_manager(kind: VcsType, base_url: UrlView) -> AnyVcsManagerView {
    match kind {
        VcsType::Git => AnyVcsManagerView::RemoteGit(base_url),
        VcsType::Bzr => AnyVcsManagerView::RemoteBzr(base_url),
    }
}

/// A local manager for `kind` below the directory `base_path`.
pub open spec fn local_manager(kind: VcsType, base_path: Seq<char>) -> AnyVcsManagerView {
    match kind {
        VcsType::Git => AnyVcsManagerView::LocalGit(base_path),
        VcsType::Bzr => AnyVcsManagerView::LocalBzr(base_path),
    }
}

/// Whether `location` is written as pairs of a kind and a URL.
pub open spec fn has_pairs(location: Seq<char>) -> bool {
    first_index(location, '=') is Some
}

/// The remote manager for `kind` below the URL that is `segment` seen from `base`.
pub open spec fn manager_below(kind: VcsType, base: UrlView, segment: Seq<char>) -> Result<
    AnyVcsManagerView,
    LocationError,
> {
    match url_join(base.text, segment) {
        Some(url) => Ok(remote_manager(kind, url)),
        None => Err(LocationError::InvalidUrl),
    }
}

/// The managers for a location that is one base URL: a remote manager for git
/// below its `git`, and one for Bazaar below its `bzr`.
pub open spec fn managers_below(location: Seq<char>) -> Result<VcsManagersView, LocationError> {
    match url_parse(location) {
        Some(base) => match manager_below(VcsType::Git, base, "git"@) {
            Ok(git) => match manager_below(VcsType::Bzr, base, "bzr"@) {
                Ok(bzr) => Ok(VcsManagersView { git: Some(git), bzr: Some(bzr) }),
                Err(error) => Err(error),
            },
            Err(error) => Err(error),
        },
        None => Err(LocationError::InvalidUrl),
    }
}

/// The kind of version control that `pair` names before its first `=`:
/// `git` or `bzr`. `None` for a pair without `=` and for one that names
/// anything else.
pub open spec fn pair_kind(pair: Seq<char>) -> Option<VcsType> {
    match split_once_text(pair, '=') {
        Some((kind, url)) => {
            if kind == "git"@ {
                Some(VcsType::Git)
            } else if kind == "bzr"@ {
                Some(VcsType::Bzr)
            } else {
                None
            }
        },
        None => None,
    }
}

/// What stands behind the first `=` of `pair`: the text of a URL.
pub open spec fn pair_url(pair: Seq<char>) -> Seq<char> {
    match split_once_text(pair, '=') {
        Some((kind, url)) => url,
        None => Seq::empty(),
    }
}

/// Whether `location`, if it is written as pairs, names a known kind of
/// version control in each of them. For any other location there are no
/// managers to be had: whoever makes them has to stop.
pub open spec fn names_known_kinds(location: Seq<char>) -> bool {
    has_pairs(location) ==> forall|i: int|
        0 <= i < split_text(location, ',').len() ==> (#[trigger] pair_kind(
            split_text(location, ',')[i],
        )) is Some
}

/// The kind and the manager that the pair `pair` asks for: `git=` or `bzr=`
/// and a URL.
pub open spec fn manager_of_pair(pair: Seq<char>) -> Result<
    (VcsType, AnyVcsManagerView),
    LocationError,
>
    recommends
        pair_kind(pair) is Some,
{
    let kind = pair_kind(pair).unwrap();
    match url_parse(pair_url(pair)) {
        Some(url) => Ok((kind, remote_manager(kind, url))),
        None => Err(LocationError::InvalidUrl),
    }
}

/// The managers that `pairs` ask for, taken in order: a later pair replaces
/// the manager that an earlier one asked for, and the first pair whose URL is
/// none decides the failure.
pub open spec fn managers_of_pairs(pairs: Seq<Seq<char>>) -> Result<VcsManagersView, LocationError>
    decreases pairs.len(),
{
    if pairs.len() == 0 {
        Ok(VcsManagersView::empty())
    } else {
        match managers_of_pairs(pairs.drop_last()) {
            Ok(managers) => match manager_of_pair(pairs.last()) {
                Ok((kind, manager)) => Ok(managers.with(kind, manager)),
                Err(error) => Err(error),
            },
            Err(error) => Err(error),
        }
    }
}

/// The managers for `location`: pairs of a kind and a URL with commas
/// between them, or one base URL.
pub open spec fn managers_at(location: Seq<char>) -> Result<VcsManagersView, LocationError> {
    if has_pairs(location) {
        managers_of_pairs(split_text(location, ','))
    } else {
        managers_below(location)
    }
}

/// `result` with the view of what it holds.
pub open spec fn managers_view(result: Result<VcsManagers, LocationError>) -> Result<
    VcsManagersView,
    LocationError,
> {
    match result {
        Ok(managers) => Ok(managers@),
        Err(error) => Err(error),
    }
}

fn make_remote(kind: VcsType, base_url: Url) -> (r: AnyVcsManager)
    ensures
        r@ == remote_manager(kind, base_url@),
{
    match kind {
        VcsType::Git => AnyVcsManager::RemoteGit(RemoteGitVcsManager::new(base_url)),
        VcsType::Bzr => AnyVcsManager::RemoteBzr(RemoteBzrVcsManager::new(base_url)),
    }
}

fn make_local(kind: VcsType, base_path: String) -> (r: AnyVcsManager)
    ensures
        r@ == local_manager(kind, base_path@),
{
    match kind {
        VcsType::Git => AnyVcsManager::LocalGit(LocalGitVcsManager::new(base_path)),
        VcsType::Bzr => AnyVcsManager::LocalBzr(LocalBzrVcsManager::new(base_path)),
    }
}

fn make_below(kind: VcsType, base: &Url, segment: &str) -> (r: Result<AnyVcsManager, LocationError>)
    ensures
        (match r {
            Ok(manager) => Ok(manager@),
            Err(error) => Err(error),
        }) == manager_below(kind, base@, segment@),
{
    match base.join(segment) {
        Some(url) => Ok(make_remote(kind, url)),
        None => Err(LocationError::InvalidUrl),
    }
}

/// The kind that `pair` names before its first `=`, with what stands behind
/// the `=`.
fn split_pair(pair: &Vec<char>) -> (r: Option<(VcsType, Vec<char>)>)
    ensures
        match r {
            Some((kind, url)) => pair_kind(pair@) == Some(kind) && url@ == pair_url(pair@),
            None => pair_kind(pair@) is None,
        },
{
    match split_once(pair, '=') {
        Some((kind, url)) => {
            let kind = text_of(&kind);
            if same_text(kind.as_str(), "git") {
                Some((VcsType::Git, url))
            } else if same_text(kind.as_str(), "bzr") {
                Some((VcsType::Bzr, url))
            } else {
                None
            }
        },
        None => None,
    }
}

fn make_of_pair(pair: &Vec<char>) -> (r: Result<(VcsType, AnyVcsManager), LocationError>)
    requires
        pair_kind(pair@) is Some,
    ensures
        (match r {
            Ok((kind, manager)) => Ok((kind, manager@)),
            Err(error) => Err(error),
        }) == manager_of_pair(pair@),
{
    match split_pair(pair) {
        Some((kind, url)) => match Url::parse(text_of(&url).as_str()) {
            Some(url) => Ok((kind, make_remote(kind, url))),
            None => Err(LocationError::InvalidUrl),
        },
        None => vstd::pervasive::unreached(),
    }
}

/// Whether `get_vcs_managers` can be called with `location`: whether the
/// location, if it is written as pairs, names `git` or `bzr` in each of them.
pub fn can_get_vcs_managers(location: &str) -> (r: bool)
    ensures
        r == names_known_kinds(location@),
{
    let text = chars_of(location);
    proof {
        assert(text@.skip(0) =~= text@);
    }
    if find_from(&text, 0, '=').is_none() {
        return true;
    }
    let pairs = split(location, ',');
    let mut index: usize = 0;
    while index < pairs.len()
        invariant
            index <= pairs.len(),
            has_pairs(location@),
            pieces_view(pairs@) == split_text(location@, ','),
            forall|i: int|
                0 <= i < index ==> (#[trigger] pair_kind(split_text(location@, ',')[i])) is Some,
        decreases pairs.len() - index,
    {
        proof {
            assert(pieces_view(pairs@)[index as int] == pairs@[index as int]@);
        }
        if split_pair(&pairs[index]).is_none() {
            assert(pair_kind(split_text(location@, ',')[index as int]) is None);
            return false;
        }
        index += 1;
    }
    true
}

/// The managers for `location`. A location without `=` is a base URL: there
/// is a remote manager for git below its `git` and one for Bazaar below its
/// `bzr`. Any other location is a list of pairs like `git=https://…` with
/// commas between them, each of which asks for one remote manager. A pair
/// has to name `git` or `bzr`: for a location with any other pair there is
/// nothing to return.
pub fn get_vcs_managers(location: &str) -> (r: Result<VcsManagers, LocationError>)
    requires
        names_known_kinds(location@),
    ensures
        managers_view(r) == managers_at(location@),
{
    let text = chars_of(location);
    proof {
        assert(text@.skip(0) =~= text@);
    }
    if find_from(&text, 0, '=').is_none() {
        match Url::parse(location) {
            Some(base) => {
                let git = match make_below(VcsType::Git, &base, "git") {
                    Ok(git) => git,
                    Err(error) => {
                        return Err(error);
                    },
                };
                let bzr = match make_below(VcsType::Bzr, &base, "bzr") {
                    Ok(bzr) => bzr,
                    Err(error) => {
                        return Err(error);
                    },
                };
                Ok(VcsManagers { git: Some(git), bzr: Some(bzr) })
            },
            None => Err(LocationError::InvalidUrl),
        }
    } else {
        let pairs = split(location, ',');
        let mut managers = VcsManagers::new();
        let mut index: usize = 0;
        while index < pairs.len()
            invariant
                index <= pairs.len(),
                has_pairs(location@),
                names_known_kinds(location@),
                pieces_view(pairs@) == split_text(location@, ','),
                managers_of_pairs(pieces_view(pairs@).take(index as int)) == Ok::<
                    VcsManagersView,
                    LocationError,
                >(managers@),
            decreases pairs.len() - index,
        {
            proof {
                let upto = pieces_view(pairs@).take(index + 1);
                assert(upto.drop_last() =~= pieces_view(pairs@).take(index as int));
                assert(upto.last() == pairs@[index as int]@);
                assert(pair_kind(split_text(location@, ',')[index as int]) is Some);
                lemma_failure_stays(pieces_view(pairs@), index + 1);
            }
            match make_of_pair(&pairs[index]) {
                Ok((kind, manager)) => {
                    managers.insert(kind, manager);
                },
                Err(error) => {
                    return Err(error);
                },
            }
            index += 1;
        }
        proof {
            assert(pieces_view(pairs@).take(index as int) =~= pieces_view(pairs@));
        }
        Ok(managers)
    }
}

/// Once the first `upto` pairs cannot be followed, neither can all of them,
/// and the failure is the same.
proof fn lemma_failure_stays(pairs: Seq<Seq<char>>, upto: int)
    requires
        0 <= upto <= pairs.len(),
    ensures
        managers_of_pairs(pairs.take(upto)) is Err ==> managers_of_pairs(pairs)
            == managers_of_pairs(pairs.take(upto)),
    decreases pairs.len() - upto,
{
    if upto < pairs.len() {
        assert(pairs.take(upto + 1).drop_last() =~= pairs.take(upto));
        lemma_failure_stays(pairs, upto + 1);
    } else {
        assert(pairs.take(upto) =~= pairs);
    }
}

/// The manager for `kind` at `location`: a local one for a `file` URL, below
/// the path that the URL names, and a remote one below any other URL.
pub open spec fn manager_at(kind: VcsType, location: Seq<char>) -> Result<
    AnyVcsManagerView,
    LocationError,
> {
    match url_parse(location) {
        Some(url) => if url.scheme == "file"@ {
            match url_to_file_path(url.text) {
                Some(path) => Ok(local_manager(kind, path)),
                None => Err(LocationError::NoFilePath),
            }
        } else {
            Ok(remote_manager(kind, url))
        },
        None => Err(LocationError::InvalidUrl),
    }
}

/// The manager for `kind`, where the configuration gives a location for it.
pub open spec fn manager_configured(kind: VcsType, location: Option<Seq<char>>) -> Result<
    Option<AnyVcsManagerView>,
    LocationError,
> {
    match location {
        Some(location) => match manager_at(kind, location) {
            Ok(manager) => Ok(Some(manager)),
            Err(error) => Err(error),
        },
        None => Ok(None),
    }
}

/// The managers for the locations that a configuration gives: git's first.
pub open spec fn managers_configured(
    git_location: Option<Seq<char>>,
    bzr_location: Option<Seq<char>>,
) -> Result<VcsManagersView, LocationError> {
    match manager_configured(VcsType::Git, git_location) {
        Ok(git) => match manager_configured(VcsType::Bzr, bzr_location) {
            Ok(bzr) => Ok(VcsManagersView { git, bzr }),
            Err(error) => Err(error),
        },
        Err(error) => Err(error),
    }
}

fn make_configured(kind: VcsType, location: &Option<String>) -> (r: Result<
    Option<AnyVcsManager>,
    LocationError,
>)
    ensures
        (match r {
            Ok(manager) => Ok(manager_view(manager)),
            Err(error) => Err(error),
        }) == manager_configured(kind, text_view(*location)),
{
    match location {
        Some(location) => match Url::parse(location.as_str()) {
            Some(url) => {
                if same_text(url.scheme(), "file") {
                    match url.to_file_path() {
                        Some(path) => Ok(Some(make_local(kind, path))),
                        None => Err(LocationError::NoFilePath),
                    }
                } else {
                    Ok(Some(make_remote(kind, url)))
                }
            },
            None => Err(LocationError::InvalidUrl),
        },
        None => Ok(None),
    }
}

/// The managers for the locations that `config` gives: for each kind of
/// version control with a location, a local manager where the location is a
/// `file` URL and a remote one where it is any other URL.
pub fn get_vcs_managers_from_config(config: &Config) -> (r: Result<VcsManagers, LocationError>)
    ensures
        managers_view(r) == managers_configured(
            text_view(config.git_location),
            text_view(config.bzr_location),
        ),
{
    let git = match make_configured(VcsType::Git, &config.git_location) {
        Ok(git) => git,
        Err(error) => {
            return Err(error);
        },
    };
    let bzr = match make_configured(VcsType::Bzr, &config.bzr_location) {
        Ok(bzr) => bzr,
        Err(error) => {
            return Err(error);
        },
    };
    Ok(VcsManagers { git, bzr })
}

/// However the managers are made, each is for the kind that it is kept under.
pub proof fn lemma_managers_keyed_by_kind(
    location: Seq<char>,
    git_location: Option<Seq<char>>,
    bzr_location: Option<Seq<char>>,
)
    ensures
        managers_at(location) matches Ok(managers) ==> managers.keyed_by_kind(),
        managers_configured(git_location, bzr_location) matches Ok(managers)
            ==> managers.keyed_by_kind(),
{
    if has_pairs(location) {
        lemma_pairs_keyed_by_kind(split_text(location, ','));
    }
}

/// The managers that pairs ask for are each for the kind that they are kept under.
proof fn lemma_pairs_keyed_by_kind(pairs: Seq<Seq<char>>)
    ensures
        managers_of_pairs(pairs) matches Ok(managers) ==> managers.keyed_by_kind(),
    decreases pairs.len(),
{
    if pairs.len() > 0 {
        lemma_pairs_keyed_by_kind(pairs.drop_last());
    }
}

} // verus!
