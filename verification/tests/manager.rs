use janitor::failure::BranchOpenError;
use janitor::location::Url;
use janitor::manager::{
    bzr_range_reference_text, convert_error, finish_diff, git_diff_command,
    git_range_reference_text, local_codebase_url, open_cached_branch, open_local_branch,
    open_repository, revision_hex_text, subdirectory_names, DiffStep, DirectoryEntry, GitTree,
    LocalBzrVcsManager, LocalGitVcsManager, OpenCause, RemoteBzrVcsManager, RemoteGitVcsManager,
    VcsManager, EMPTY_GIT_TREE, ZERO_SHA,
};
use janitor::revision::RevisionId;
use janitor::vcs::VcsType;

fn url(text: &str) -> Url {
    Url::parse(text).unwrap()
}

fn git(sha: &str) -> RevisionId {
    RevisionId::new(format!("git-v1:{}", sha).into_bytes())
}

fn bzr(id: &str) -> RevisionId {
    RevisionId::new(id.as_bytes().to_vec())
}

fn managers() -> Vec<Box<dyn Fn(&RevisionId, &RevisionId) -> Option<DiffStep>>> {
    vec![
        Box::new(|old, new| {
            LocalGitVcsManager::new("/srv/git".to_string()).get_diff("foo", old, new)
        }),
        Box::new(|old, new| {
            LocalBzrVcsManager::new("/srv/bzr".to_string()).get_diff("foo", old, new)
        }),
        Box::new(|old, new| {
            RemoteGitVcsManager::new(url("https://example.com/git/")).get_diff("foo", old, new)
        }),
        Box::new(|old, new| {
            RemoteBzrVcsManager::new(url("https://example.com/bzr/")).get_diff("foo", old, new)
        }),
    ]
}

#[test]
fn diff_of_a_revision_with_itself_is_empty() {
    for revid in [RevisionId::null(), git("abc"), bzr("joe@example.com-1"), bzr("")] {
        for get_diff in managers() {
            match get_diff(&revid, &revid.clone()) {
                Some(DiffStep::Done(bytes)) => assert!(bytes.is_empty()),
                other => panic!("unexpected step {:?}", other),
            }
        }
    }
}

#[test]
fn lookup_revid_strips_the_prefix() {
    assert_eq!(RemoteGitVcsManager::lookup_revid(&git("abc123"), b"default"), b"abc123");
    assert_eq!(RemoteGitVcsManager::lookup_revid(&RevisionId::null(), b"default"), b"default");
    assert_eq!(RemoteGitVcsManager::lookup_revid(&git(""), b"default"), b"");
}

#[test]
fn revision_hex_of_git_revisions() {
    assert_eq!(revision_hex_text(&git("abc123"), EMPTY_GIT_TREE), Some("abc123".to_string()));
    assert_eq!(
        revision_hex_text(&RevisionId::null(), EMPTY_GIT_TREE),
        Some("4b825dc642cb6eb9a060e54bf8d69288fbee4904".to_string())
    );
    assert_eq!(
        revision_hex_text(&RevisionId::null(), ZERO_SHA),
        Some("0000000000000000000000000000000000000000".to_string())
    );
    assert_eq!(revision_hex_text(&bzr("joe@example.com-1"), ZERO_SHA), None);
    assert_eq!(
        revision_hex_text(&RevisionId::new(b"git-v1:\xff".to_vec()), ZERO_SHA),
        None
    );
}

#[test]
fn range_references() {
    assert_eq!(
        git_range_reference_text("foo", "diff", &RevisionId::null(), &git("abc"), EMPTY_GIT_TREE),
        Some("foo/diff?old=4b825dc642cb6eb9a060e54bf8d69288fbee4904&new=abc".to_string())
    );
    assert_eq!(
        git_range_reference_text("foo", "revision-info", &git("a"), &bzr("b"), ZERO_SHA),
        None
    );
    assert_eq!(
        bzr_range_reference_text("foo", "diff", &bzr("old-1"), &RevisionId::null()),
        "foo/diff?old=old-1&new=null:"
    );
}

#[test]
fn remote_git_urls() {
    let manager = RemoteGitVcsManager::new(url("https://example.com/git/"));
    assert_eq!(manager.base_url().as_str(), "https://example.com/git/");
    assert_eq!(manager.vcs_type(), VcsType::Git);
    assert_eq!(
        manager.get_repository_url("foo").unwrap().as_str(),
        "https://example.com/git/foo"
    );
    assert_eq!(
        manager.get_diff_url("foo", &git("aaa"), &git("bbb")).unwrap().as_str(),
        "https://example.com/git/foo/diff?old=aaa&new=bbb"
    );
    assert_eq!(
        manager.get_diff_url("foo", &RevisionId::null(), &git("bbb")).unwrap().as_str(),
        "https://example.com/git/foo/diff?old=4b825dc642cb6eb9a060e54bf8d69288fbee4904&new=bbb"
    );
    assert_eq!(
        manager
            .get_revision_info_url("foo", &RevisionId::null(), &git("bbb"))
            .unwrap()
            .as_str(),
        "https://example.com/git/foo/revision-info?old=0000000000000000000000000000000000000000&new=bbb"
    );
    assert!(manager.get_diff_url("foo", &bzr("x"), &git("bbb")).is_none());
    let branch = manager.get_branch_url("foo", "main").unwrap();
    assert_eq!(branch.url.as_str(), "https://example.com/git/foo");
    assert_eq!(branch.branch, Some("main".to_string()));
    match manager.get_diff("foo", &git("aaa"), &git("bbb")) {
        Some(DiffStep::Fetch(from)) => {
            assert_eq!(from.as_str(), "https://example.com/git/foo/diff?old=aaa&new=bbb")
        }
        other => panic!("unexpected step {:?}", other),
    }
    assert!(manager.get_diff("foo", &bzr("x"), &git("bbb")).is_none());
}

#[test]
fn remote_urls_resolve_against_the_base() {
    // Without a slash at its end, the last segment of the base gives way.
    let manager = RemoteGitVcsManager::new(url("https://example.com/git"));
    assert_eq!(manager.get_repository_url("foo").unwrap().as_str(), "https://example.com/foo");
    assert_eq!(
        manager.get_repository_url("https://elsewhere.example/x").unwrap().as_str(),
        "https://elsewhere.example/x"
    );
    assert!(manager.get_repository_url("https://[").is_none());
}

#[test]
fn remote_bzr_urls() {
    let manager = RemoteBzrVcsManager::new(url("https://example.com/bzr/"));
    assert_eq!(manager.base_url().as_str(), "https://example.com/bzr/");
    assert_eq!(manager.vcs_type(), VcsType::Bzr);
    assert_eq!(
        manager.get_repository_url("foo").unwrap().as_str(),
        "https://example.com/bzr/foo"
    );
    assert_eq!(
        manager.get_diff_url("foo", &bzr("old-1"), &bzr("new-2")).unwrap().as_str(),
        "https://example.com/bzr/foo/diff?old=old-1&new=new-2"
    );
    assert_eq!(
        manager
            .get_revision_info_url("foo", &RevisionId::null(), &bzr("new-2"))
            .unwrap()
            .as_str(),
        "https://example.com/bzr/foo/revision-info?old=null:&new=new-2"
    );
    let branch = manager.get_branch_url("foo/", "trunk").unwrap();
    assert_eq!(branch.url.as_str(), "https://example.com/bzr/foo/trunk");
    assert_eq!(branch.branch, None);
    let branch = manager.get_branch_url("foo", "trunk").unwrap();
    assert_eq!(branch.url.as_str(), "https://example.com/bzr/trunk");
    match manager.get_diff("foo", &bzr("old-1"), &bzr("new-2")) {
        Some(DiffStep::Fetch(from)) => {
            assert_eq!(from.as_str(), "https://example.com/bzr/foo/diff?old=old-1&new=new-2")
        }
        other => panic!("unexpected step {:?}", other),
    }
}

#[test]
fn local_git_manager() {
    let manager = LocalGitVcsManager::new("/srv/git".to_string());
    assert_eq!(manager.base_path(), "/srv/git");
    assert_eq!(manager.vcs_type(), VcsType::Git);
    let branch = manager.get_branch_url("foo", "main").unwrap();
    assert_eq!(branch.url.as_str(), "file:///srv/git/foo");
    assert_eq!(branch.branch, Some("main".to_string()));
    assert_eq!(
        local_codebase_url("/mnt/disk/git", "foo").unwrap().as_str(),
        "file:///mnt/disk/git/foo"
    );
    assert!(LocalGitVcsManager::new("srv/git".to_string()).get_branch_url("foo", "main").is_none());
    match manager.get_diff("foo", &RevisionId::null(), &git("bbb")) {
        Some(DiffStep::GitDiff { old: GitTree::Empty, new: GitTree::Revision(new) }) => {
            assert_eq!(new.as_bytes(), b"git-v1:bbb")
        }
        other => panic!("unexpected step {:?}", other),
    }
    match manager.get_diff("foo", &git("aaa"), &RevisionId::null()) {
        Some(DiffStep::GitDiff { old: GitTree::Revision(old), new: GitTree::Empty }) => {
            assert_eq!(old.as_bytes(), b"git-v1:aaa")
        }
        other => panic!("unexpected step {:?}", other),
    }
}

#[test]
fn local_bzr_manager() {
    let manager = LocalBzrVcsManager::new("/srv/bzr".to_string());
    assert_eq!(manager.base_path(), "/srv/bzr");
    assert_eq!(manager.vcs_type(), VcsType::Bzr);
    let branch = manager.get_branch_url("foo/", "trunk").unwrap();
    assert_eq!(branch.url.as_str(), "file:///srv/bzr/foo/trunk");
    assert_eq!(branch.branch, None);
    assert_eq!(local_codebase_url("/srv/bzr/", "foo").unwrap().as_str(), "file:///srv/bzr/foo");
    assert!(local_codebase_url("", "foo").is_none());
    match manager.get_diff("foo", &bzr("old-1"), &bzr("new-2")) {
        Some(DiffStep::BzrDiff { arguments }) => {
            assert_eq!(arguments, vec!["diff", "-r", "old-1..new-2"])
        }
        other => panic!("unexpected step {:?}", other),
    }
}

#[test]
fn git_diff_command_needs_text() {
    assert_eq!(
        git_diff_command(b"aaa", EMPTY_GIT_TREE.as_bytes()),
        Some(vec![
            "diff".to_string(),
            "aaa".to_string(),
            "4b825dc642cb6eb9a060e54bf8d69288fbee4904".to_string()
        ])
    );
    assert_eq!(git_diff_command(b"\xff", b"aaa"), None);
    assert_eq!(git_diff_command(b"aaa", b"\xc3"), None);
}

#[test]
fn finished_diff() {
    assert_eq!(
        finish_diff("git", true, b"diff --git a/x b/x\n".to_vec(), b"warning"),
        Ok(b"diff --git a/x b/x\n".to_vec())
    );
    assert_eq!(
        finish_diff("git", false, b"partial".to_vec(), b"fatal: bad object\n"),
        Err("git diff failed: fatal: bad object\n".to_string())
    );
    assert_eq!(
        finish_diff("bzr", false, Vec::new(), b"bzr: ERROR \xff"),
        Err("bzr diff failed: bzr: ERROR \u{fffd}".to_string())
    );
}

fn open_error(kind: &str) -> BranchOpenError {
    let url = url("https://example.com/repo");
    let description = "why".to_string();
    match kind {
        "unsupported" => BranchOpenError::Unsupported { url, description, vcs: None },
        "missing" => BranchOpenError::Missing { url, description },
        "rate-limited" => BranchOpenError::RateLimited { url, description, retry_after: Some(1) },
        "unavailable" => BranchOpenError::Unavailable { url, description },
        "temporarily-unavailable" => BranchOpenError::TemporarilyUnavailable { url, description },
        _ => BranchOpenError::Other(description),
    }
}

#[test]
fn local_branch_that_is_not_there_is_none() {
    assert!(matches!(open_local_branch(Ok::<u8, BranchOpenError>(7)), Ok(Some(7))));
    assert!(matches!(open_local_branch::<u8>(Err(open_error("unavailable"))), Ok(None)));
    assert!(matches!(open_local_branch::<u8>(Err(open_error("missing"))), Ok(None)));
    assert!(matches!(
        open_local_branch::<u8>(Err(open_error("unsupported"))),
        Err(BranchOpenError::Unsupported { .. })
    ));
    assert!(matches!(
        open_local_branch::<u8>(Err(open_error("rate-limited"))),
        Err(BranchOpenError::RateLimited { retry_after: Some(1), .. })
    ));
    assert!(matches!(
        open_local_branch::<u8>(Err(open_error("temporarily-unavailable"))),
        Err(BranchOpenError::TemporarilyUnavailable { .. })
    ));
    assert!(matches!(
        open_local_branch::<u8>(Err(open_error("other"))),
        Err(BranchOpenError::Other(_))
    ));
}

#[test]
fn repository_that_is_not_there_is_none() {
    assert_eq!(open_repository::<u8, &str>(Ok(7)), Ok(Some(7)));
    assert_eq!(open_repository::<u8, &str>(Err((OpenCause::NotBranch, "e"))), Ok(None));
    for cause in [
        OpenCause::RemoteGit,
        OpenCause::InvalidHttpResponse,
        OpenCause::Connection,
        OpenCause::BranchReferenceLoop,
        OpenCause::Other,
    ] {
        assert_eq!(open_repository::<u8, &str>(Err((cause, "e"))), Err("e"));
    }
}

#[test]
fn cache_that_has_no_branch_yet_gives_none() {
    assert_eq!(open_cached_branch::<u8, &str>(Ok(7)), Ok(Some(7)));
    for cause in [
        OpenCause::NotBranch,
        OpenCause::RemoteGit,
        OpenCause::InvalidHttpResponse,
        OpenCause::Connection,
        OpenCause::BranchReferenceLoop,
    ] {
        assert_eq!(open_cached_branch::<u8, &str>(Err((cause, "e"))), Ok(None));
        assert_eq!(convert_error(cause, "e"), None);
    }
    assert_eq!(open_cached_branch::<u8, &str>(Err((OpenCause::Other, "e"))), Err("e"));
    assert_eq!(convert_error(OpenCause::Other, "e"), Some("e"));
}

#[test]
fn each_manager_follows_its_rule_for_what_is_not_there() {
    let local_git = LocalGitVcsManager::new("/srv/git".to_string());
    let local_bzr = LocalBzrVcsManager::new("/srv/bzr".to_string());
    let remote_git = RemoteGitVcsManager::new(url("https://example.com/git/"));
    let remote_bzr = RemoteBzrVcsManager::new(url("https://example.com/bzr/"));
    assert!(matches!(local_git.get_branch::<u8>(Err(open_error("missing"))), Ok(None)));
    assert!(matches!(local_bzr.get_branch::<u8>(Err(open_error("unavailable"))), Ok(None)));
    assert!(matches!(
        local_git.get_branch::<u8>(Err(open_error("other"))),
        Err(BranchOpenError::Other(_))
    ));
    assert!(matches!(local_bzr.get_branch(Ok::<u8, BranchOpenError>(3)), Ok(Some(3))));
    assert_eq!(remote_git.get_branch::<u8, &str>(Err((OpenCause::NotBranch, "e"))), Ok(None));
    assert_eq!(remote_bzr.get_branch::<u8, &str>(Err((OpenCause::NotBranch, "e"))), Ok(None));
    assert_eq!(remote_git.get_branch::<u8, &str>(Err((OpenCause::Connection, "e"))), Ok(None));
    assert_eq!(remote_bzr.get_branch::<u8, &str>(Err((OpenCause::Other, "e"))), Err("e"));
    assert_eq!(remote_git.get_branch::<u8, &str>(Ok(7)), Ok(Some(7)));
    assert_eq!(local_git.get_repository::<u8, &str>(Err((OpenCause::NotBranch, "e"))), Ok(None));
    assert_eq!(local_bzr.get_repository::<u8, &str>(Err((OpenCause::Connection, "e"))), Err("e"));
    assert_eq!(remote_git.get_repository::<u8, &str>(Ok(7)), Ok(Some(7)));
    assert_eq!(remote_bzr.get_repository::<u8, &str>(Err((OpenCause::NotBranch, "e"))), Ok(None));
}

fn entry(name: &str, is_directory: bool) -> DirectoryEntry {
    DirectoryEntry { name: name.to_string(), is_directory }
}

#[test]
fn repositories_are_the_subdirectories() {
    let entries = vec![entry("c", true), entry("README", false), entry("a", true), entry("b", true)];
    let manager = LocalGitVcsManager::new("/srv/git".to_string());
    let mut names = manager.list_repositories(&entries);
    assert_eq!(names, vec!["c", "a", "b"]);
    names.sort();
    assert_eq!(names, vec!["a", "b", "c"]);
    assert_eq!(
        LocalBzrVcsManager::new("/srv/bzr".to_string()).list_repositories(&entries),
        vec!["c", "a", "b"]
    );
    assert!(subdirectory_names(&vec![entry("file", false)]).is_empty());
    assert!(subdirectory_names(&Vec::new()).is_empty());
}
