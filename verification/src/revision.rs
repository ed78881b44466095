//! Revision identifiers and what is known of a revision.

use crate::location::{Url, UrlView};
use crate::text::{lossy_text, utf8_lossy};
use vstd::prelude::*;
use vstd::slice::slice_subrange;
use vstd::std_specs::convert::FromSpecImpl;

verus! {

/// The identifier of a revision: bytes that mean something to one kind of
/// version control only. Two identifiers are the same if their bytes are.
#[derive(Debug, PartialEq, Eq, Hash)]
pub struct RevisionId {
    bytes: Vec<u8>,
}

/// The bytes of the identifier that stands for "no history": `null:`.
pub open spec fn null_revision() -> Seq<u8> {
    seq![0x6eu8, 0x75u8, 0x6cu8, 0x6cu8, 0x3au8]
}

/// The bytes that open the identifier of a git revision: `git-v1:`.
pub open spec fn git_prefix() -> Seq<u8> {
    seq![0x67u8, 0x69u8, 0x74u8, 0x2du8, 0x76u8, 0x31u8, 0x3au8]
}

/// Whether `bytes` begin with `prefix`.
pub open spec fn has_prefix(bytes: Seq<u8>, prefix: Seq<u8>) -> bool {
    prefix.len() <= bytes.len() && bytes.subrange(0, prefix.len() as int) == prefix
}

impl View for RevisionId {
    type V = Seq<u8>;

    closed spec fn view(&self) -> Seq<u8> {
        self.bytes@
    }
}

impl DeepView for RevisionId {
    type V = Seq<u8>;

    open spec fn deep_view(&self) -> Seq<u8> {
        self@
    }
}

/// Whether the two slices hold the same bytes.
pub fn same_bytes(a: &[u8], b: &[u8]) -> (r: bool)
    ensures
        r == (a@ == b@),
{
    if a.len() != b.len() {
        return false;
    }
    let mut index: usize = 0;
    while index < a.len()
        invariant
            index <= a.len(),
            a.len() == b.len(),
            forall|j: int| 0 <= j < index ==> a@[j] == b@[j],
        decreases a.len() - index,
    {
        if a[index] != b[index] {
            return false;
        }
        index += 1;
    }
    assert(a@ =~= b@);
    true
}

impl From<Vec<u8>> for RevisionId {
    fn from(value: Vec<u8>) -> (r: Self)
        ensures
            r@ == value@,
    {
        RevisionId { bytes: value }
    }
}

impl FromSpecImpl<Vec<u8>> for RevisionId {
    open spec fn obeys_from_spec() -> bool {
        true
    }

    closed spec fn from_spec(value: Vec<u8>) -> Self {
        RevisionId { bytes: value }
    }
}

impl Clone for RevisionId {
    fn clone(&self) -> (r: Self)
        ensures
            r@ == self@,
    {
        RevisionId { bytes: self.bytes.clone() }
    }
}

impl RevisionId {
    /// The identifier made of `bytes`.
    pub fn new(bytes: Vec<u8>) -> (r: Self)
        ensures
            r@ == bytes@,
    {
        RevisionId { bytes }
    }

    /// The identifier that stands for "no history".
    pub fn null() -> (r: Self)
        ensures
            r@ == null_revision(),
    {
        let mut bytes: Vec<u8> = Vec::new();
        bytes.push(0x6e);
        bytes.push(0x75);
        bytes.push(0x6c);
        bytes.push(0x6c);
        bytes.push(0x3a);
        assert(bytes@ =~= null_revision());
        RevisionId { bytes }
    }

    /// Whether the two identifiers are the same, byte by byte.
    pub fn same_as(&self, other: &RevisionId) -> (r: bool)
        ensures
            r == (self@ == other@),
    {
        same_bytes(self.bytes.as_slice(), other.bytes.as_slice())
    }

    /// The bytes of the identifier.
    pub fn as_bytes(&self) -> (r: &[u8])
        ensures
            r@ == self@,
    {
        self.bytes.as_slice()
    }

    /// Whether this is the identifier that stands for "no history".
    pub fn is_null(&self) -> (r: bool)
        ensures
            r == (self@ == null_revision()),
    {
        let r = self.bytes.len() == 5 && self.bytes[0] == 0x6e && self.bytes[1] == 0x75
            && self.bytes[2] == 0x6c && self.bytes[3] == 0x6c && self.bytes[4] == 0x3a;
        proof {
            if r {
                assert(self@ =~= null_revision());
            }
        }
        r
    }

    /// Whether this is the identifier of a git revision.
    pub fn is_git(&self) -> (r: bool)
        ensures
            r == has_prefix(self@, git_prefix()),
    {
        let r = self.bytes.len() >= 7 && self.bytes[0] == 0x67 && self.bytes[1] == 0x69
            && self.bytes[2] == 0x74 && self.bytes[3] == 0x2d && self.bytes[4] == 0x76
            && self.bytes[5] == 0x31 && self.bytes[6] == 0x3a;
        proof {
            if r {
                assert(self@.subrange(0, 7) =~= git_prefix());
            }
        }
        r
    }

    /// What follows `git-v1:` in the identifier of a git revision: the
    /// commit's hash, in hexadecimal.
    pub fn git_sha(&self) -> (r: &[u8])
        requires
            has_prefix(self@, git_prefix()),
        ensures
            r@ == self@.skip(7),
    {
        let r = slice_subrange(self.bytes.as_slice(), 7, self.bytes.len());
        assert(r@ =~= self@.skip(7));
        r
    }

    /// The identifier as text. Bytes that are no UTF-8 come out as U+FFFD.
    pub fn to_string(&self) -> (r: String)
        ensures
            r@ == utf8_lossy(self@),
            vstd::utf8::valid_utf8(self@) ==> r@ == vstd::utf8::decode_utf8(self@),
    {
        lossy_text(self.bytes.as_slice())
    }
}

/// The null identifier is no git identifier.
pub proof fn lemma_null_is_not_git()
    ensures
        !has_prefix(null_revision(), git_prefix()),
{
}

/// What is known of one revision on the way from a newer revision back to an
/// older one.
#[derive(Debug)]
pub struct RevisionInfo {
    /// The commit's identifier in the version control's own terms, where it has one.
    pub commit_id: Option<Vec<u8>>,
    pub revision_id: RevisionId,
    pub message: String,
    /// Where the revision can be looked at.
    pub link: Option<Url>,
}

/// What a `RevisionInfo` holds.
pub struct RevisionInfoView {
    pub commit_id: Option<Seq<u8>>,
    pub revision_id: Seq<u8>,
    pub message: Seq<char>,
    pub link: Option<UrlView>,
}

impl View for RevisionInfo {
    type V = RevisionInfoView;

    open spec fn view(&self) -> RevisionInfoView {
        RevisionInfoView {
            commit_id: match self.commit_id {
                Some(id) => Some(id@),
                None => None,
            },
            revision_id: self.revision_id@,
            message: self.message@,
            link: match self.link {
                Some(url) => Some(url@),
                None => None,
            },
        }
    }
}

impl RevisionInfo {
    /// What is known of a git commit: its own identifier, the revision
    /// identifier that stands for it, and its message.
    pub fn for_git_commit(commit_id: Vec<u8>, revision_id: RevisionId, message: String) -> (r: Self)
        ensures
            r@ == git_commit_info(commit_id@, revision_id@, message@),
    {
        RevisionInfo { commit_id: Some(commit_id), revision_id, message, link: None }
    }

    /// What is known of a Bazaar revision: its identifier and its message.
    pub fn for_bzr_revision(revision_id: RevisionId, message: String) -> (r: Self)
        ensures
            r@ == bzr_revision_info(revision_id@, message@),
    {
        RevisionInfo { commit_id: None, revision_id, message, link: None }
    }
}

/// What is known of a git commit.
pub open spec fn git_commit_info(
    commit_id: Seq<u8>,
    revision_id: Seq<u8>,
    message: Seq<char>,
) -> RevisionInfoView {
    RevisionInfoView { commit_id: Some(commit_id), revision_id, message, link: None }
}

/// What is known of a Bazaar revision.
pub open spec fn bzr_revision_info(revision_id: Seq<u8>, message: Seq<char>) -> RevisionInfoView {
    RevisionInfoView { commit_id: None, revision_id, message, link: None }
}

/// The views of `infos`, in order.
pub open spec fn infos_view(infos: Seq<RevisionInfo>) -> Seq<RevisionInfoView> {
    Seq::new(infos.len(), |i: int| infos[i]@)
}

/// The revision identifiers of `infos`, in order.
pub open spec fn revision_ids(infos: Seq<RevisionInfoView>) -> Seq<Seq<u8>> {
    Seq::new(infos.len(), |i: int| infos[i].revision_id)
}

/// What a walk through git commits gives: for each commit, in the order of
/// the walk, what is known of it.
pub open spec fn git_infos(commits: Seq<(Vec<u8>, RevisionId, String)>) -> Seq<RevisionInfoView> {
    Seq::new(
        commits.len(),
        |i: int| git_commit_info(commits[i].0@, commits[i].1@, commits[i].2@),
    )
}

/// What a walk through Bazaar revisions gives: for each revision that the
/// repository still has, in the order of the walk, what is known of it.
pub open spec fn bzr_infos(revisions: Seq<Option<(RevisionId, String)>>) -> Seq<RevisionInfoView>
    decreases revisions.len(),
{
    if revisions.len() == 0 {
        Seq::empty()
    } else {
        match revisions.last() {
            Some((revision_id, message)) => bzr_infos(revisions.drop_last()).push(
                bzr_revision_info(revision_id@, message@),
            ),
            None => bzr_infos(revisions.drop_last()),
        }
    }
}

/// What is known of the commits of a walk through git history, in the
/// walk's order. Each commit comes as its own identifier, the revision
/// identifier that stands for it, and its message.
pub fn git_revision_info(commits: &Vec<(Vec<u8>, RevisionId, String)>) -> (r: Vec<RevisionInfo>)
    ensures
        infos_view(r@) == git_infos(commits@),
{
    let mut infos: Vec<RevisionInfo> = Vec::new();
    let mut index: usize = 0;
    while index < commits.len()
        invariant
            index <= commits.len(),
            infos_view(infos@) == git_infos(commits@.take(index as int)),
        decreases commits.len() - index,
    {
        let commit = &commits[index];
        let ghost before = infos_view(infos@);
        let info = RevisionInfo::for_git_commit(
            commit.0.clone(),
            commit.1.clone(),
            commit.2.clone(),
        );
        infos.push(info);
        proof {
            assert(infos_view(infos@) =~= before.push(info@));
            assert(commits@.take(index + 1)[index as int] == commits@[index as int]);
            assert(infos_view(infos@) =~= git_infos(commits@.take(index + 1)));
        }
        index += 1;
    }
    proof {
        assert(commits@.take(index as int) =~= commits@);
    }
    infos
}

/// What is known of the revisions of a walk through Bazaar history, in the
/// walk's order. A revision that the repository no longer has comes as
/// `None` and is left out.
pub fn bzr_revision_infos(revisions: &Vec<Option<(RevisionId, String)>>) -> (r: Vec<RevisionInfo>)
    ensures
        infos_view(r@) == bzr_infos(revisions@),
{
    let mut infos: Vec<RevisionInfo> = Vec::new();
    let mut index: usize = 0;
    while index < revisions.len()
        invariant
            index <= revisions.len(),
            infos_view(infos@) == bzr_infos(revisions@.take(index as int)),
        decreases revisions.len() - index,
    {
        proof {
            assert(revisions@.take(index + 1).drop_last() =~= revisions@.take(index as int));
        }
        match &revisions[index] {
            Some(revision) => {
                let ghost before = infos_view(infos@);
                infos.push(RevisionInfo::for_bzr_revision(revision.0.clone(), revision.1.clone()));
                proof {
                    assert(infos_view(infos@) =~= before.push(
                        bzr_revision_info(revision.0@, revision.1@),
                    ));
                }
            },
            None => {},
        }
        index += 1;
    }
    proof {
        assert(revisions@.take(index as int) =~= revisions@);
    }
    infos
}

/// The identifiers of a walk that starts at a newer revision and stops before
/// `old_revid`: none comes twice, and `old_revid` is not among them.
pub open spec fn is_walk_to(ids: Seq<Seq<u8>>, old_revid: Seq<u8>) -> bool {
    ids.no_duplicates() && !ids.contains(old_revid)
}

/// The identifiers of the revisions that a walk through Bazaar history came by.
pub open spec fn walked_ids(revisions: Seq<Option<(RevisionId, String)>>) -> Seq<Seq<u8>>
    decreases revisions.len(),
{
    if revisions.len() == 0 {
        Seq::empty()
    } else {
        match revisions.last() {
            Some((revision_id, message)) => walked_ids(revisions.drop_last()).push(revision_id@),
            None => walked_ids(revisions.drop_last()),
        }
    }
}

/// What is told of a walk keeps the walk's identifiers and their order: for
/// git each commit's, for Bazaar those of the revisions that are still there.
/// So where the walk repeats no revision and stops before the old one, so
/// does what is told of it.
pub proof fn lemma_infos_keep_the_walk(
    commits: Seq<(Vec<u8>, RevisionId, String)>,
    revisions: Seq<Option<(RevisionId, String)>>,
    old_revid: Seq<u8>,
)
    ensures
        revision_ids(git_infos(commits)) == Seq::new(commits.len(), |i: int| commits[i].1@),
        revision_ids(bzr_infos(revisions)) == walked_ids(revisions),
        is_walk_to(Seq::new(commits.len(), |i: int| commits[i].1@), old_revid) ==> is_walk_to(
            revision_ids(git_infos(commits)),
            old_revid,
        ),
        is_walk_to(walked_ids(revisions), old_revid) ==> is_walk_to(
            revision_ids(bzr_infos(revisions)),
            old_revid,
        ),
    decreases revisions.len(),
{
    assert(revision_ids(git_infos(commits)) =~= Seq::new(commits.len(), |i: int| commits[i].1@));
    if revisions.len() > 0 {
        lemma_infos_keep_the_walk(commits, revisions.drop_last(), old_revid);
        assert(revision_ids(bzr_infos(revisions)) =~= walked_ids(revisions));
    } else {
        assert(revision_ids(bzr_infos(revisions)) =~= walked_ids(revisions));
    }
}

} // verus!
