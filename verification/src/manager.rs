//! The four ways to reach the codebases of one kind of version control: in a
//! local directory or behind a remote base URL, for git or for Bazaar.
//!
//! What a manager computes is here: the URLs of a codebase, what a request for
//! a diff needs next, and which failures count as "not there". Opening
//! repositories, running the version control's tools and fetching over HTTP is
//! left to the caller, who comes back with what that gave.

use crate::failure::BranchOpenError;
use crate::location::{url_from_directory_path, url_join, url_view, Url, UrlView};
use crate::revision::{git_prefix, has_prefix, null_revision, RevisionId};
use crate::text::{lossy_text, text_view, utf8_lossy, utf8_text};
use crate::vcs::VcsType;
use vstd::prelude::*;
use vstd::utf8::{decode_utf8, valid_utf8};

verus! {

/// The hash of git's empty tree, in hexadecimal: what a diff starts from where
/// there is no history.
pub const EMPTY_GIT_TREE: &'static str = "4b825dc642cb6eb9a060e54bf8d69288fbee4904";

/// The hash that git writes for "no commit", in hexadecimal.
pub const ZERO_SHA: &'static str = "0000000000000000000000000000000000000000";

/// The bytes that stand for `revid` in git's own terms: `default` for the null
/// revision, else what follows `git-v1:`.
pub open spec fn looked_up(revid: Seq<u8>, default: Seq<u8>) -> Seq<u8> {
    if revid == null_revision() {
        default
    } else {
        revid.skip(7)
    }
}

/// The hash of `revid` as text: `default` for the null revision, else what
/// follows `git-v1:`, where that is UTF-8. `None` for any other identifier.
pub open spec fn revision_hex(revid: Seq<u8>, default: Seq<char>) -> Option<Seq<char>> {
    if revid == null_revision() {
        Some(default)
    } else if has_prefix(revid, git_prefix()) && valid_utf8(revid.skip(7)) {
        Some(decode_utf8(revid.skip(7)))
    } else {
        None
    }
}

/// The reference, relative to a base URL, under which a cache serves `what`
/// (`diff` or `revision-info`) of `codebase` between two revisions.
pub open spec fn range_reference(
    codebase: Seq<char>,
    what: Seq<char>,
    old: Seq<char>,
    new: Seq<char>,
) -> Seq<char> {
    codebase + "/"@ + what + "?old="@ + old + "&new="@ + new
}

/// The reference under which a cache serves `what` for git revisions.
pub open spec fn git_range_reference(
    codebase: Seq<char>,
    what: Seq<char>,
    old_revid: Seq<u8>,
    new_revid: Seq<u8>,
    default: Seq<char>,
) -> Option<Seq<char>> {
    match (revision_hex(old_revid, default), revision_hex(new_revid, default)) {
        (Some(old), Some(new)) => Some(range_reference(codebase, what, old, new)),
        _ => None,
    }
}

/// The reference under which a cache serves `what` for Bazaar revisions.
pub open spec fn bzr_range_reference(
    codebase: Seq<char>,
    what: Seq<char>,
    old_revid: Seq<u8>,
    new_revid: Seq<u8>,
) -> Seq<char> {
    range_reference(codebase, what, utf8_lossy(old_revid), utf8_lossy(new_revid))
}

/// The URL that `reference` names, seen from the URL with the text `base`.
pub open spec fn joined(base: Option<UrlView>, reference: Option<Seq<char>>) -> Option<UrlView> {
    match (base, reference) {
        (Some(base), Some(reference)) => url_join(base.text, reference),
        _ => None,
    }
}

fn range_reference_text(codebase: &str, what: &str, old: &str, new: &str) -> (r: String)
    ensures
        r@ == range_reference(codebase@, what@, old@, new@),
{
    let mut out = String::from_str(codebase);
    out.append("/");
    out.append(what);
    out.append("?old=");
    out.append(old);
    out.append("&new=");
    out.append(new);
    out
}

/// The hash of `revid` as text: `default` for the null revision, else what
/// follows `git-v1:`.
pub fn revision_hex_text(revid: &RevisionId, default: &str) -> (r: Option<String>)
    ensures
        text_view(r) == revision_hex(revid@, default@),
{
    if !revid.is_null() && !revid.is_git() {
        return None;
    }
    let bytes = RemoteGitVcsManager::lookup_revid(revid, default.as_bytes());
    proof {
        vstd::utf8::encode_utf8_valid_utf8(default@);
        vstd::utf8::encode_utf8_decode_utf8(default@);
    }
    match utf8_text(bytes) {
        Some(text) => Some(String::from_str(text)),
        None => None,
    }
}

/// The reference under which a cache serves `what` for git revisions.
pub fn git_range_reference_text(
    codebase: &str,
    what: &str,
    old_revid: &RevisionId,
    new_revid: &RevisionId,
    default: &str,
) -> (r: Option<String>)
    ensures
        text_view(r) == git_range_reference(codebase@, what@, old_revid@, new_revid@, default@),
{
    match revision_hex_text(old_revid, default) {
        Some(old) => match revision_hex_text(new_revid, default) {
            Some(new) => Some(range_reference_text(codebase, what, old.as_str(), new.as_str())),
            None => None,
        },
        None => None,
    }
}

/// The reference under which a cache serves `what` for Bazaar revisions.
pub fn bzr_range_reference_text(
    codebase: &str,
    what: &str,
    old_revid: &RevisionId,
    new_revid: &RevisionId,
) -> (r: String)
    ensures
        r@ == bzr_range_reference(codebase@, what@, old_revid@, new_revid@),
{
    let old = old_revid.to_string();
    let new = new_revid.to_string();
    range_reference_text(codebase, what, old.as_str(), new.as_str())
}

/// Manages the git codebases below a base URL.
#[derive(Clone, Debug, PartialEq, Eq)]
pub struct RemoteGitVcsManager {
    base_url: Url,
}

impl View for RemoteGitVcsManager {
    type V = UrlView;

    /// The base URL.
    closed spec fn view(&self) -> UrlView {
        self.base_url@
    }
}

impl RemoteGitVcsManager {
    pub fn new(base_url: Url) -> (r: Self)
        ensures
            r@ == base_url@,
    {
        RemoteGitVcsManager { base_url }
    }

    pub fn base_url(&self) -> (r: &Url)
        ensures
            r@ == self@,
    {
        &self.base_url
    }

    /// The bytes that stand for `revid` in git's own terms: `default` for the
    /// null revision, else what follows `git-v1:`.
    pub fn lookup_revid<'a>(revid: &'a RevisionId, default: &'a [u8]) -> (r: &'a [u8])
        requires
            revid@ == null_revision() || has_prefix(revid@, git_prefix()),
        ensures
            r@ == looked_up(revid@, default@),
    {
        if revid.is_null() {
            default
        } else {
            revid.git_sha()
        }
    }

    /// The URL of the repository of `codebase`.
    pub fn get_repository_url(&self, codebase: &str) -> (r: Option<Url>)
        ensures
            url_view(r) == url_join(self@.text, codebase@),
    {
        self.base_url.join(codebase)
    }

    /// The URL that serves the diff between two revisions of `codebase`. Where
    /// there is no history, the diff starts from the empty tree.
    pub fn get_diff_url(&self, codebase: &str, old_revid: &RevisionId, new_revid: &RevisionId) -> (r:
        Option<Url>)
        ensures
            url_view(r) == joined(
                Some(self@),
                git_range_reference(codebase@, "diff"@, old_revid@, new_revid@, EMPTY_GIT_TREE@),
            ),
    {
        let reference = git_range_reference_text(
            codebase,
            "diff",
            old_revid,
            new_revid,
            EMPTY_GIT_TREE,
        );
        match reference {
            Some(reference) => self.base_url.join(reference.as_str()),
            None => None,
        }
    }

    /// The URL that serves what is known of the revisions of `codebase` after
    /// `old_revid`, up to `new_revid`.
    pub fn get_revision_info_url(
        &self,
        codebase: &str,
        old_revid: &RevisionId,
        new_revid: &RevisionId,
    ) -> (r: Option<Url>)
        ensures
            url_view(r) == joined(
                Some(self@),
                git_range_reference(codebase@, "revision-info"@, old_revid@, new_revid@, ZERO_SHA@),
            ),
    {
        let reference = git_range_reference_text(
            codebase,
            "revision-info",
            old_revid,
            new_revid,
            ZERO_SHA,
        );
        match reference {
            Some(reference) => self.base_url.join(reference.as_str()),
            None => None,
        }
    }
}

/// Manages the Bazaar codebases below a base URL.
#[derive(Clone, Debug, PartialEq, Eq)]
pub struct RemoteBzrVcsManager {
    base_url: Url,
}

impl View for RemoteBzrVcsManager {
    type V = UrlView;

    /// The base URL.
    closed spec fn view(&self) -> UrlView {
        self.base_url@
    }
}

impl RemoteBzrVcsManager {
    pub fn new(base_url: Url) -> (r: Self)
        ensures
            r@ == base_url@,
    {
        RemoteBzrVcsManager { base_url }
    }

    pub fn base_url(&self) -> (r: &Url)
        ensures
            r@ == self@,
    {
        &self.base_url
    }

    /// The URL of the repository of `codebase`.
    pub fn get_repository_url(&self, codebase: &str) -> (r: Option<Url>)
        ensures
            url_view(r) == url_join(self@.text, codebase@),
    {
        self.base_url.join(codebase)
    }

    /// The URL that serves the diff between two revisions of `codebase`.
    pub fn get_diff_url(&self, codebase: &str, old_revid: &RevisionId, new_revid: &RevisionId) -> (r:
        Option<Url>)
        ensures
            url_view(r) == url_join(
                self@.text,
                bzr_range_reference(codebase@, "diff"@, old_revid@, new_revid@),
            ),
    {
        let reference = bzr_range_reference_text(codebase, "diff", old_revid, new_revid);
        self.base_url.join(reference.as_str())
    }

    /// The URL that serves what is known of the revisions of `codebase` after
    /// `old_revid`, up to `new_revid`.
    pub fn get_revision_info_url(
        &self,
        codebase: &str,
        old_revid: &RevisionId,
        new_revid: &RevisionId,
    ) -> (r: Option<Url>)
        ensures
            url_view(r) == url_join(
                self@.text,
                bzr_range_reference(codebase@, "revision-info"@, old_revid@, new_revid@),
            ),
    {
        let reference = bzr_range_reference_text(codebase, "revision-info", old_revid, new_revid);
        self.base_url.join(reference.as_str())
    }
}

/// Where a branch is: a URL, and for the kinds of version control that keep
/// several branches in one place, the name to pick there. The name is to be
/// joined to the URL as its segment parameter `branch`.
#[derive(Debug)]
pub struct BranchUrl {
    pub url: Url,
    pub branch: Option<String>,
}

/// What a `BranchUrl` holds.
pub struct BranchUrlView {
    pub url: UrlView,
    pub branch: Option<Seq<char>>,
}

impl View for BranchUrl {
    type V = BranchUrlView;

    open spec fn view(&self) -> BranchUrlView {
        BranchUrlView { url: self.url@, branch: text_view(self.branch) }
    }
}

/// `location` with the views of what it holds.
pub open spec fn branch_url_view(location: Option<BranchUrl>) -> Option<BranchUrlView> {
    match location {
        Some(location) => Some(location@),
        None => None,
    }
}

/// The branch at `url`, picked by name where `branch` gives one.
pub open spec fn branch_at(url: Option<UrlView>, branch: Option<Seq<char>>) -> Option<
    BranchUrlView,
> {
    match url {
        Some(url) => Some(BranchUrlView { url, branch }),
        None => None,
    }
}

/// One side of a diff between git revisions.
#[derive(Debug)]
pub enum GitTree {
    /// The empty tree: there is no history on this side.
    Empty,
    /// The tree of this revision, whose hash the repository knows.
    Revision(RevisionId),
}

/// What a `GitTree` holds.
pub enum GitTreeView {
    Empty,
    Revision(Seq<u8>),
}

impl View for GitTree {
    type V = GitTreeView;

    open spec fn view(&self) -> GitTreeView {
        match self {
            GitTree::Empty => GitTreeView::Empty,
            GitTree::Revision(revid) => GitTreeView::Revision(revid@),
        }
    }
}

/// The side of a diff that `revid` stands for.
pub open spec fn git_tree_of(revid: Seq<u8>) -> GitTreeView {
    if revid == null_revision() {
        GitTreeView::Empty
    } else {
        GitTreeView::Revision(revid)
    }
}

/// The texts of `items`, in order.
pub open spec fn texts(items: Seq<String>) -> Seq<Seq<char>> {
    Seq::new(items.len(), |i: int| items[i]@)
}

/// What is to happen next for a diff.
#[derive(Debug)]
pub enum DiffStep {
    /// Nothing: these bytes are the diff.
    Done(Vec<u8>),
    /// Ask the repository for the hashes of the two sides and run `git diff`
    /// on them in the repository's directory.
    GitDiff { old: GitTree, new: GitTree },
    /// Run `bzr` with these arguments in the repository's directory.
    BzrDiff { arguments: Vec<String> },
    /// Fetch the diff from this URL.
    Fetch(Url),
}

/// What a `DiffStep` holds.
pub enum DiffStepView {
    Done(Seq<u8>),
    GitDiff { old: GitTreeView, new: GitTreeView },
    BzrDiff { arguments: Seq<Seq<char>> },
    Fetch(UrlView),
}

impl View for DiffStep {
    type V = DiffStepView;

    open spec fn view(&self) -> DiffStepView {
        match self {
            DiffStep::Done(bytes) => DiffStepView::Done(bytes@),
            DiffStep::GitDiff { old, new } => DiffStepView::GitDiff { old: old@, new: new@ },
            DiffStep::BzrDiff { arguments } => DiffStepView::BzrDiff { arguments: texts(arguments@) },
            DiffStep::Fetch(url) => DiffStepView::Fetch(url@),
        }
    }
}

/// `step` with the views of what it holds.
pub open spec fn diff_step_view(step: Option<DiffStep>) -> Option<DiffStepView> {
    match step {
        Some(step) => Some(step@),
        None => None,
    }
}

/// The step for a diff that is served from `url`, where there is such a URL.
pub open spec fn fetch_from(url: Option<UrlView>) -> Option<DiffStepView> {
    match url {
        Some(url) => Some(DiffStepView::Fetch(url)),
        None => None,
    }
}

/// The arguments with which `bzr` writes the diff between two revisions.
pub open spec fn bzr_diff_arguments(old_revid: Seq<u8>, new_revid: Seq<u8>) -> Seq<Seq<char>> {
    seq!["diff"@, "-r"@, utf8_lossy(old_revid) + ".."@ + utf8_lossy(new_revid)]
}

/// The arguments with which `git` writes the diff between the trees with the
/// hashes `old_sha` and `new_sha`, where both hashes are UTF-8.
pub open spec fn git_diff_arguments(old_sha: Seq<u8>, new_sha: Seq<u8>) -> Option<Seq<Seq<char>>> {
    if valid_utf8(old_sha) && valid_utf8(new_sha) {
        Some(seq!["diff"@, decode_utf8(old_sha), decode_utf8(new_sha)])
    } else {
        None
    }
}

/// The arguments with which `git` writes the diff between the trees with the
/// hashes `old_sha` and `new_sha`.
pub fn git_diff_command(old_sha: &[u8], new_sha: &[u8]) -> (r: Option<Vec<String>>)
    ensures
        match r {
            Some(arguments) => git_diff_arguments(old_sha@, new_sha@) == Some(texts(arguments@)),
            None => git_diff_arguments(old_sha@, new_sha@) is None,
        },
{
    match utf8_text(old_sha) {
        Some(old) => match utf8_text(new_sha) {
            Some(new) => {
                let mut arguments: Vec<String> = Vec::new();
                arguments.push(String::from_str("diff"));
                arguments.push(String::from_str(old));
                arguments.push(String::from_str(new));
                assert(texts(arguments@) =~= seq!["diff"@, old@, new@]);
                Some(arguments)
            },
            None => None,
        },
        None => None,
    }
}

/// What a finished run of `tool` gave.
pub open spec fn diff_outcome(tool: Seq<char>, success: bool, stdout: Seq<u8>, stderr: Seq<u8>) -> Result<
    Seq<u8>,
    Seq<char>,
> {
    if success {
        Ok(stdout)
    } else {
        Err(tool + " diff failed: "@ + utf8_lossy(stderr))
    }
}

/// The diff that a finished run of `tool` gave: what it wrote, if it
/// succeeded, and else a message with what it complained of.
pub fn finish_diff(tool: &str, success: bool, stdout: Vec<u8>, stderr: &[u8]) -> (r: Result<
    Vec<u8>,
    String,
>)
    ensures
        (match r {
            Ok(bytes) => Ok(bytes@),
            Err(message) => Err(message@),
        }) == diff_outcome(tool@, success, stdout@, stderr@),
{
    if success {
        Ok(stdout)
    } else {
        let mut message = String::from_str(tool);
        message.append(" diff failed: ");
        message.append(lossy_text(stderr).as_str());
        Err(message)
    }
}

/// What every manager offers, whatever it manages and wherever.
pub trait VcsManager: Send + Sync {
    /// The kind of version control that the manager is for.
    spec fn kind(&self) -> VcsType;

    /// Where the branch `branch_name` of `codebase` is.
    spec fn branch_url(&self, codebase: Seq<char>, branch_name: Seq<char>) -> Option<
        BranchUrlView,
    >;

    /// What is to happen first for the diff between two revisions.
    spec fn diff_step(&self, codebase: Seq<char>, old_revid: Seq<u8>, new_revid: Seq<u8>) -> Option<
        DiffStepView,
    >;

    /// The kind of version control that the manager is for.
    fn vcs_type(&self) -> (r: VcsType)
        ensures
            r == self.kind(),
    ;

    /// Where the branch `branch_name` of `codebase` is. `None` where no URL
    /// can be made of the names.
    fn get_branch_url(&self, codebase: &str, branch_name: &str) -> (r: Option<BranchUrl>)
        ensures
            branch_url_view(r) == self.branch_url(codebase@, branch_name@),
    ;

    /// What is to happen first for the diff between two revisions of
    /// `codebase`. Between a revision and itself the diff is empty, and known
    /// at once.
    fn get_diff(&self, codebase: &str, old_revid: &RevisionId, new_revid: &RevisionId) -> (r:
        Option<DiffStep>)
        ensures
            diff_step_view(r) == self.diff_step(codebase@, old_revid@, new_revid@),
            old_revid@ == new_revid@ ==> diff_step_view(r) == Some(
                DiffStepView::Done(Seq::<u8>::empty()),
            ),
    ;
}

/// Manages the git codebases below a local directory, one subdirectory each.
#[derive(Clone, Debug, PartialEq, Eq)]
pub struct LocalGitVcsManager {
    base_path: String,
}

impl View for LocalGitVcsManager {
    type V = Seq<char>;

    /// The path of the directory.
    closed spec fn view(&self) -> Seq<char> {
        self.base_path@
    }
}

/// The URL of `codebase` below the directory `base_path`.
pub open spec fn local_url(base_path: Seq<char>, codebase: Seq<char>) -> Option<UrlView> {
    joined(url_from_directory_path(base_path), Some(codebase))
}

/// The URL of `codebase` below the directory `base_path`. A local manager's
/// branches are below its directory as its path is given; its repositories
/// are looked for below the same path made absolute, with every link in it
/// resolved.
pub fn local_codebase_url(base_path: &str, codebase: &str) -> (r: Option<Url>)
    ensures
        url_view(r) == local_url(base_path@, codebase@),
{
    match Url::from_directory_path(base_path) {
        Some(directory) => directory.join(codebase),
        None => None,
    }
}

impl LocalGitVcsManager {
    pub fn new(base_path: String) -> (r: Self)
        ensures
            r@ == base_path@,
    {
        LocalGitVcsManager { base_path }
    }

    pub fn base_path(&self) -> (r: &str)
        ensures
            r@ == self@,
    {
        self.base_path.as_str()
    }
}

impl VcsManager for LocalGitVcsManager {
    open spec fn kind(&self) -> VcsType {
        VcsType::Git
    }

    open spec fn branch_url(&self, codebase: Seq<char>, branch_name: Seq<char>) -> Option<
        BranchUrlView,
    > {
        branch_at(local_url(self@, codebase), Some(branch_name))
    }

    open spec fn diff_step(
        &self,
        codebase: Seq<char>,
        old_revid: Seq<u8>,
        new_revid: Seq<u8>,
    ) -> Option<DiffStepView> {
        if old_revid == new_revid {
            Some(DiffStepView::Done(Seq::<u8>::empty()))
        } else {
            Some(
                DiffStepView::GitDiff { old: git_tree_of(old_revid), new: git_tree_of(new_revid) },
            )
        }
    }

    fn vcs_type(&self) -> (r: VcsType) {
        VcsType::Git
    }

    fn get_branch_url(&self, codebase: &str, branch_name: &str) -> (r: Option<BranchUrl>) {
        match local_codebase_url(self.base_path.as_str(), codebase) {
            Some(url) => Some(BranchUrl { url, branch: Some(String::from_str(branch_name)) }),
            None => None,
        }
    }

    fn get_diff(&self, codebase: &str, old_revid: &RevisionId, new_revid: &RevisionId) -> (r:
        Option<DiffStep>) {
        if old_revid.same_as(new_revid) {
            return Some(DiffStep::Done(Vec::new()));
        }
        let old = if old_revid.is_null() {
            GitTree::Empty
        } else {
            GitTree::Revision(old_revid.clone())
        };
        let new = if new_revid.is_null() {
            GitTree::Empty
        } else {
            GitTree::Revision(new_revid.clone())
        };
        Some(DiffStep::GitDiff { old, new })
    }
}

/// Manages the Bazaar codebases below a local directory, one subdirectory each.
#[derive(Clone, Debug, PartialEq, Eq)]
pub struct LocalBzrVcsManager {
    base_path: String,
}

impl View for LocalBzrVcsManager {
    type V = Seq<char>;

    /// The path of the directory.
    closed spec fn view(&self) -> Seq<char> {
        self.base_path@
    }
}

impl LocalBzrVcsManager {
    pub fn new(base_path: String) -> (r: Self)
        ensures
            r@ == base_path@,
    {
        LocalBzrVcsManager { base_path }
    }

    pub fn base_path(&self) -> (r: &str)
        ensures
            r@ == self@,
    {
        self.base_path.as_str()
    }
}

impl VcsManager for LocalBzrVcsManager {
    open spec fn kind(&self) -> VcsType {
        VcsType::Bzr
    }

    open spec fn branch_url(&self, codebase: Seq<char>, branch_name: Seq<char>) -> Option<
        BranchUrlView,
    > {
        branch_at(joined(local_url(self@, codebase), Some(branch_name)), None)
    }

    open spec fn diff_step(
        &self,
        codebase: Seq<char>,
        old_revid: Seq<u8>,
        new_revid: Seq<u8>,
    ) -> Option<DiffStepView> {
        if old_revid == new_revid {
            Some(DiffStepView::Done(Seq::<u8>::empty()))
        } else {
            Some(DiffStepView::BzrDiff { arguments: bzr_diff_arguments(old_revid, new_revid) })
        }
    }

    fn vcs_type(&self) -> (r: VcsType) {
        VcsType::Bzr
    }

    fn get_branch_url(&self, codebase: &str, branch_name: &str) -> (r: Option<BranchUrl>) {
        match local_codebase_url(self.base_path.as_str(), codebase) {
            Some(url) => match url.join(branch_name) {
                Some(url) => Some(BranchUrl { url, branch: None }),
                None => None,
            },
            None => None,
        }
    }

    fn get_diff(&self, codebase: &str, old_revid: &RevisionId, new_revid: &RevisionId) -> (r:
        Option<DiffStep>) {
        if old_revid.same_as(new_revid) {
            return Some(DiffStep::Done(Vec::new()));
        }
        let mut range = old_revid.to_string();
        range.append("..");
        range.append(new_revid.to_string().as_str());
        let mut arguments: Vec<String> = Vec::new();
        arguments.push(String::from_str("diff"));
        arguments.push(String::from_str("-r"));
        arguments.push(range);
        assert(texts(arguments@) =~= bzr_diff_arguments(old_revid@, new_revid@));
        Some(DiffStep::BzrDiff { arguments })
    }
}

impl VcsManager for RemoteGitVcsManager {
    open spec fn kind(&self) -> VcsType {
        VcsType::Git
    }

    open spec fn branch_url(&self, codebase: Seq<char>, branch_name: Seq<char>) -> Option<
        BranchUrlView,
    > {
        branch_at(url_join(self@.text, codebase), Some(branch_name))
    }

    open spec fn diff_step(
        &self,
        codebase: Seq<char>,
        old_revid: Seq<u8>,
        new_revid: Seq<u8>,
    ) -> Option<DiffStepView> {
        if old_revid == new_revid {
            Some(DiffStepView::Done(Seq::<u8>::empty()))
        } else {
            fetch_from(
                joined(
                    Some(self@),
                    git_range_reference(codebase, "diff"@, old_revid, new_revid, EMPTY_GIT_TREE@),
                ),
            )
        }
    }

    fn vcs_type(&self) -> (r: VcsType) {
        VcsType::Git
    }

    fn get_branch_url(&self, codebase: &str, branch_name: &str) -> (r: Option<BranchUrl>) {
        match self.base_url.join(codebase) {
            Some(url) => Some(BranchUrl { url, branch: Some(String::from_str(branch_name)) }),
            None => None,
        }
    }

    fn get_diff(&self, codebase: &str, old_revid: &RevisionId, new_revid: &RevisionId) -> (r:
        Option<DiffStep>) {
        if old_revid.same_as(new_revid) {
            return Some(DiffStep::Done(Vec::new()));
        }
        match self.get_diff_url(codebase, old_revid, new_revid) {
            Some(url) => Some(DiffStep::Fetch(url)),
            None => None,
        }
    }
}

impl VcsManager for RemoteBzrVcsManager {
    open spec fn kind(&self) -> VcsType {
        VcsType::Bzr
    }

    open spec fn branch_url(&self, codebase: Seq<char>, branch_name: Seq<char>) -> Option<
        BranchUrlView,
    > {
        branch_at(joined(url_join(self@.text, codebase), Some(branch_name)), None)
    }

    open spec fn diff_step(
        &self,
        codebase: Seq<char>,
        old_revid: Seq<u8>,
        new_revid: Seq<u8>,
    ) -> Option<DiffStepView> {
        if old_revid == new_revid {
            Some(DiffStepView::Done(Seq::<u8>::empty()))
        } else {
            fetch_from(
                url_join(self@.text, bzr_range_reference(codebase, "diff"@, old_revid, new_revid)),
            )
        }
    }

    fn vcs_type(&self) -> (r: VcsType) {
        VcsType::Bzr
    }

    fn get_branch_url(&self, codebase: &str, branch_name: &str) -> (r: Option<BranchUrl>) {
        match self.base_url.join(codebase) {
            Some(url) => match url.join(branch_name) {
                Some(url) => Some(BranchUrl { url, branch: None }),
                None => None,
            },
            None => None,
        }
    }

    fn get_diff(&self, codebase: &str, old_revid: &RevisionId, new_revid: &RevisionId) -> (r:
        Option<DiffStep>) {
        if old_revid.same_as(new_revid) {
            return Some(DiffStep::Done(Vec::new()));
        }
        match self.get_diff_url(codebase, old_revid, new_revid) {
            Some(url) => Some(DiffStep::Fetch(url)),
            None => None,
        }
    }
}

/// Why a transport, a branch or a repository could not be opened, as far as
/// the managers tell causes apart.
#[derive(Clone, Copy, Debug, PartialEq, Eq, Hash, Structural)]
pub enum OpenCause {
    /// There is no branch there.
    NotBranch,
    /// The remote git server reported an error.
    RemoteGit,
    /// What came back over HTTP was no valid response.
    InvalidHttpResponse,
    /// The server could not be reached.
    Connection,
    /// A branch reference leads back to itself.
    BranchReferenceLoop,
    /// Anything else.
    Other,
}

impl OpenCause {
    /// Whether a cache that fails so has, most likely, just not got the
    /// branch yet: anything but an unknown cause.
    pub open spec fn is_cache_miss(self) -> bool {
        !(self is Other)
    }
}

/// What an attempt of a local manager to open a branch comes to: an
/// unavailable or missing branch is no branch, and any other failure stays a
/// failure.
pub open spec fn local_branch<B>(opened: Result<B, BranchOpenError>) -> Result<
    Option<B>,
    BranchOpenError,
> {
    match opened {
        Ok(branch) => Ok(Some(branch)),
        Err(error) => if error is Unavailable || error is Missing {
            Ok(None)
        } else {
            Err(error)
        },
    }
}

/// What an attempt of any manager to open a repository comes to: a
/// repository that is not there is no repository, and any other failure stays
/// a failure.
pub open spec fn found_repository<R, E>(opened: Result<R, (OpenCause, E)>) -> Result<
    Option<R>,
    E,
> {
    match opened {
        Ok(repository) => Ok(Some(repository)),
        Err((cause, error)) => if cause is NotBranch {
            Ok(None)
        } else {
            Err(error)
        },
    }
}

/// What an attempt of a remote manager to open a branch at the cache comes
/// to: the branch; no branch, where the attempt failed as a cache does that
/// has not got the branch yet; or the failure.
pub open spec fn cached_branch<B, E>(attempt: Result<B, (OpenCause, E)>) -> Result<Option<B>, E> {
    match attempt {
        Ok(branch) => Ok(Some(branch)),
        Err((cause, error)) => if cause.is_cache_miss() {
            Ok(None)
        } else {
            Err(error)
        },
    }
}

/// For a local manager, an unavailable or missing branch is no branch; any
/// other failure stays a failure.
pub fn open_local_branch<B>(opened: Result<B, BranchOpenError>) -> (r: Result<
    Option<B>,
    BranchOpenError,
>)
    ensures
        r == local_branch(opened),
{
    match opened {
        Ok(branch) => Ok(Some(branch)),
        Err(BranchOpenError::Unavailable { url, description }) => Ok(None),
        Err(BranchOpenError::Missing { url, description }) => Ok(None),
        Err(error) => Err(error),
    }
}

/// For every manager, a repository that is not there is no repository; any
/// other failure stays a failure.
pub fn open_repository<R, E>(opened: Result<R, (OpenCause, E)>) -> (r: Result<Option<R>, E>)
    ensures
        r == found_repository(opened),
{
    match opened {
        Ok(repository) => Ok(Some(repository)),
        Err((OpenCause::NotBranch, error)) => Ok(None),
        Err((cause, error)) => Err(error),
    }
}

/// The failure that is left of `error` once the causes that a cache is
/// forgiven for are taken out.
pub fn convert_error<E>(cause: OpenCause, error: E) -> (r: Option<E>)
    ensures
        r == (if cause.is_cache_miss() {
            None
        } else {
            Some(error)
        }),
{
    match cause {
        OpenCause::NotBranch => None,
        OpenCause::RemoteGit => None,
        OpenCause::InvalidHttpResponse => None,
        OpenCause::Connection => None,
        OpenCause::BranchReferenceLoop => None,
        OpenCause::Other => Some(error),
    }
}

/// For a remote manager, what an attempt to open a branch at the cache comes
/// to. The attempt is that of opening the transport or, once that is open,
/// the branch on it.
pub fn open_cached_branch<B, E>(attempt: Result<B, (OpenCause, E)>) -> (r: Result<Option<B>, E>)
    ensures
        r == cached_branch(attempt),
{
    match attempt {
        Ok(branch) => Ok(Some(branch)),
        Err((cause, error)) => match convert_error(cause, error) {
            Some(error) => Err(error),
            None => Ok(None),
        },
    }
}

/// A cache that has no branch to show is no failure: whichever of the
/// forgiven causes an attempt fails with, and "not a branch" is one of them,
/// the remote manager answers that there is no branch.
pub proof fn lemma_cache_miss_is_no_branch<B, E>(cause: OpenCause, error: E)
    requires
        cause.is_cache_miss(),
    ensures
        cached_branch::<B, E>(Err((cause, error))) == Ok::<Option<B>, E>(None),
        OpenCause::NotBranch.is_cache_miss(),
{
}

/// What a directory holds under one name.
#[derive(Debug)]
pub struct DirectoryEntry {
    pub name: String,
    /// Whether what is there is a directory itself.
    pub is_directory: bool,
}

/// The names of the directories among `entries`, in the order of the entries.
pub open spec fn subdirectories(entries: Seq<DirectoryEntry>) -> Seq<Seq<char>>
    decreases entries.len(),
{
    if entries.len() == 0 {
        Seq::empty()
    } else if entries.last().is_directory {
        subdirectories(entries.drop_last()).push(entries.last().name@)
    } else {
        subdirectories(entries.drop_last())
    }
}

/// A name is among the subdirectories exactly if an entry that is a directory
/// has it.
pub proof fn lemma_subdirectories_are_exact(entries: Seq<DirectoryEntry>, name: Seq<char>)
    ensures
        subdirectories(entries).contains(name) <==> exists|i: int|
            0 <= i < entries.len() && (#[trigger] entries[i]).is_directory && entries[i].name@
                == name,
    decreases entries.len(),
{
    if entries.len() > 0 {
        let rest = entries.drop_last();
        let last = entries.last();
        lemma_subdirectories_are_exact(rest, name);
        if subdirectories(entries).contains(name) {
            if subdirectories(rest).contains(name) {
                let i = choose|i: int|
                    0 <= i < rest.len() && (#[trigger] rest[i]).is_directory && rest[i].name@
                        == name;
                assert(entries[i] == rest[i]);
            } else {
                let at = choose|at: int|
                    0 <= at < subdirectories(entries).len() && subdirectories(entries)[at] == name;
                assert(last.is_directory && last.name@ == name);
                assert(entries[entries.len() - 1] == last);
            }
        }
        if exists|i: int|
            0 <= i < entries.len() && (#[trigger] entries[i]).is_directory && entries[i].name@
                == name {
            let i = choose|i: int|
                0 <= i < entries.len() && (#[trigger] entries[i]).is_directory && entries[i].name@
                    == name;
            if i < rest.len() {
                assert(rest[i] == entries[i]);
                assert(subdirectories(rest).contains(name));
                let at = choose|at: int|
                    0 <= at < subdirectories(rest).len() && subdirectories(rest)[at] == name;
                if last.is_directory {
                    assert(subdirectories(entries)[at] == name);
                }
            } else {
                assert(subdirectories(entries)[subdirectories(rest).len() as int] == name);
            }
        }
    }
}

/// The codebases that a local manager keeps: the directories below its own,
/// by their names and in the order in which the directory lists them.
pub fn subdirectory_names(entries: &Vec<DirectoryEntry>) -> (r: Vec<String>)
    ensures
        texts(r@) == subdirectories(entries@),
{
    let mut names: Vec<String> = Vec::new();
    let mut index: usize = 0;
    proof {
        assert(texts(names@) =~= subdirectories(entries@.take(0)));
    }
    while index < entries.len()
        invariant
            index <= entries.len(),
            texts(names@) == subdirectories(entries@.take(index as int)),
        decreases entries.len() - index,
    {
        proof {
            assert(entries@.take(index + 1).drop_last() =~= entries@.take(index as int));
        }
        if entries[index].is_directory {
            let ghost before = texts(names@);
            names.push(entries[index].name.clone());
            proof {
                assert(texts(names@) =~= before.push(entries@[index as int].name@));
            }
        }
        index += 1;
    }
    proof {
        assert(entries@.take(index as int) =~= entries@);
    }
    names
}

impl LocalGitVcsManager {
    /// What an attempt to open a branch comes to.
    pub fn get_branch<B>(&self, opened: Result<B, BranchOpenError>) -> (r: Result<
        Option<B>,
        BranchOpenError,
    >)
        ensures
            r == local_branch(opened),
    {
        open_local_branch(opened)
    }

    /// What an attempt to open a repository comes to.
    pub fn get_repository<R, E>(&self, opened: Result<R, (OpenCause, E)>) -> (r: Result<
        Option<R>,
        E,
    >)
        ensures
            r == found_repository(opened),
    {
        open_repository(opened)
    }

    /// The codebases that the manager keeps, for what its directory holds.
    pub fn list_repositories(&self, entries: &Vec<DirectoryEntry>) -> (r: Vec<String>)
        ensures
            texts(r@) == subdirectories(entries@),
    {
        subdirectory_names(entries)
    }
}

impl LocalBzrVcsManager {
    /// What an attempt to open a branch comes to.
    pub fn get_branch<B>(&self, opened: Result<B, BranchOpenError>) -> (r: Result<
        Option<B>,
        BranchOpenError,
    >)
        ensures
            r == local_branch(opened),
    {
        open_local_branch(opened)
    }

    /// What an attempt to open a repository comes to.
    pub fn get_repository<R, E>(&self, opened: Result<R, (OpenCause, E)>) -> (r: Result<
        Option<R>,
        E,
    >)
        ensures
            r == found_repository(opened),
    {
        open_repository(opened)
    }

    /// The codebases that the manager keeps, for what its directory holds.
    pub fn list_repositories(&self, entries: &Vec<DirectoryEntry>) -> (r: Vec<String>)
        ensures
            texts(r@) == subdirectories(entries@),
    {
        subdirectory_names(entries)
    }
}

impl RemoteGitVcsManager {
    /// What an attempt to open a branch at the cache comes to: the attempt
    /// to open the transport or, once that is open, the branch on it.
    pub fn get_branch<B, E>(&self, attempt: Result<B, (OpenCause, E)>) -> (r: Result<
        Option<B>,
        E,
    >)
        ensures
            r == cached_branch(attempt),
    {
        open_cached_branch(attempt)
    }

    /// What an attempt to open a repository comes to.
    pub fn get_repository<R, E>(&self, opened: Result<R, (OpenCause, E)>) -> (r: Result<
        Option<R>,
        E,
    >)
        ensures
            r == found_repository(opened),
    {
        open_repository(opened)
    }
}

impl RemoteBzrVcsManager {
    /// What an attempt to open a branch at the cache comes to: the attempt
    /// to open the transport or, once that is open, the branch on it.
    pub fn get_branch<B, E>(&self, attempt: Result<B, (OpenCause, E)>) -> (r: Result<
        Option<B>,
        E,
    >)
        ensures
            r == cached_branch(attempt),
    {
        open_cached_branch(attempt)
    }

    /// What an attempt to open a repository comes to.
    pub fn get_repository<R, E>(&self, opened: Result<R, (OpenCause, E)>) -> (r: Result<
        Option<R>,
        E,
    >)
        ensures
            r == found_repository(opened),
    {
        open_repository(opened)
    }
}

} // verus!
