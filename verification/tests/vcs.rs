use janitor::location::Url;
use janitor::revision::{
    bzr_revision_infos, git_revision_info, same_bytes, RevisionId, RevisionInfo,
};
use janitor::vcs::{get_branch_vcs_type, is_alioth_url, is_authenticated_url, VcsType};

#[test]
fn test_simple() {
    assert!(is_authenticated_url(
        &Url::parse("git+ssh://example.com").unwrap()
    ));
    assert!(is_authenticated_url(
        &Url::parse("bzr+ssh://example.com").unwrap()
    ));
    assert!(!is_authenticated_url(
        &Url::parse("http://example.com").unwrap()
    ));
}

#[test]
fn vcs_test_simple() {
    assert!(is_authenticated_url(
        &Url::parse("git+ssh://example.com").unwrap()
    ));
    assert!(is_authenticated_url(
        &Url::parse("bzr+ssh://example.com").unwrap()
    ));
    assert!(!is_authenticated_url(
        &Url::parse("http://example.com").unwrap()
    ));
    assert!(is_alioth_url(
        &Url::parse("https://anonscm.debian.org/cgit/pkg-ocaml-maint/packages/ocamlbuild.git")
            .unwrap()
    ));
    assert!(is_alioth_url(
        &Url::parse("https://git.debian.org/git/pkg-ocaml-maint/packages/ocamlbuild.git").unwrap()
    ));
    assert!(is_alioth_url(
        &Url::parse(
            "https://alioth.debian.org/anonscm/git/pkg-ocaml-maint/packages/ocamlbuild.git"
        )
        .unwrap()
    ));
    assert!(!is_alioth_url(&Url::parse("https://example.com").unwrap()));
}

#[test]
fn alioth_hosts_are_told_by_host_alone() {
    for host in [
        "svn.debian.org",
        "bzr.debian.org",
        "anonscm.debian.org",
        "hg.debian.org",
        "git.debian.org",
        "alioth.debian.org",
    ] {
        assert!(is_alioth_url(&Url::parse(&format!("https://{}/x", host)).unwrap()));
    }
    assert!(!is_alioth_url(&Url::parse("https://salsa.debian.org/x").unwrap()));
    assert!(!is_alioth_url(&Url::parse("https://example.com/anonscm.debian.org").unwrap()));
    assert!(!is_alioth_url(&Url::parse("unix:/run/alioth.debian.org").unwrap()));
}

#[test]
fn authenticated_scheme_is_exact() {
    assert!(!is_authenticated_url(&Url::parse("git://example.com").unwrap()));
    assert!(!is_authenticated_url(&Url::parse("ssh://example.com").unwrap()));
    assert!(is_authenticated_url(&Url::parse("GIT+SSH://example.com/x").unwrap()));
}

#[test]
fn vcs_type_round_trips() {
    for kind in [VcsType::Git, VcsType::Bzr] {
        assert_eq!(VcsType::from_str(&kind.to_string()), Ok(kind));
        assert_eq!(VcsType::from_str(kind.as_str()), Ok(kind));
    }
    assert_eq!(VcsType::Git.to_string(), "git");
    assert_eq!(VcsType::Bzr.to_string(), "bzr");
    assert_eq!(VcsType::from_str("git"), Ok(VcsType::Git));
    assert_eq!(VcsType::from_str("bzr"), Ok(VcsType::Bzr));
}

#[test]
fn vcs_type_rejects_other_texts() {
    assert_eq!(VcsType::from_str("hg"), Err("Unknown VCS type: hg".to_string()));
    assert_eq!(VcsType::from_str(""), Err("Unknown VCS type: ".to_string()));
    assert_eq!(VcsType::from_str("Git"), Err("Unknown VCS type: Git".to_string()));
    assert_eq!(VcsType::from_str("git "), Err("Unknown VCS type: git ".to_string()));
}

#[test]
fn url_parse_normalises() {
    let url = Url::parse("HTTP://Example.COM").unwrap();
    assert_eq!(url.as_str(), "http://example.com/");
    assert_eq!(url.to_string(), "http://example.com/");
    assert_eq!(url.scheme(), "http");
    assert_eq!(url.host_str(), Some("example.com"));
    assert!(Url::parse("not a url").is_none());
    assert!(Url::parse("").is_none());
    let socket = Url::parse("unix:/run/foo.socket").unwrap();
    assert_eq!(socket.host_str(), None);
    assert_eq!(socket.scheme(), "unix");
}

#[test]
fn url_parse_agrees_with_the_url_crate() {
    for text in [
        "https://user:pw@example.com:8080/a/b?c=d#e",
        "file:///srv/git/",
        "git+ssh://git@salsa.debian.org/janitor-team/janitor.git",
        "https://[::1]/x",
    ] {
        let ours = Url::parse(text).unwrap();
        let theirs = url::Url::parse(text).unwrap();
        assert_eq!(ours.as_str(), theirs.as_str());
        assert_eq!(ours.scheme(), theirs.scheme());
        assert_eq!(ours.host_str(), theirs.host_str());
    }
}

#[test]
fn url_join_resolves_like_a_link() {
    let with_slash = Url::parse("https://example.net/a/b/").unwrap();
    assert_eq!(with_slash.join("c.png").unwrap().as_str(), "https://example.net/a/b/c.png");
    let without = Url::parse("https://example.net/a/b.html").unwrap();
    assert_eq!(without.join("c.png").unwrap().as_str(), "https://example.net/a/c.png");
    assert_eq!(
        without.join("//eve.com/b").unwrap().host_str(),
        Some("eve.com")
    );
    assert!(without.join("https://[").is_none());
    assert_eq!(without.join("").unwrap().as_str(), "https://example.net/a/b.html");
}

#[test]
fn url_of_a_directory_and_back() {
    let url = Url::from_directory_path("/srv/git").unwrap();
    assert_eq!(url.as_str(), "file:///srv/git/");
    assert_eq!(url.scheme(), "file");
    assert_eq!(url.to_file_path(), Some("/srv/git/".to_string()));
    assert!(Url::from_directory_path("relative/path").is_none());
    assert_eq!(
        Url::parse("file:///srv/my%20repos").unwrap().to_file_path(),
        Some("/srv/my repos".to_string())
    );
    assert_eq!(Url::parse("file://elsewhere/srv").unwrap().to_file_path(), None);
    assert_eq!(Url::parse("mailto:someone@example.com").unwrap().to_file_path(), None);
    let copy = url.clone();
    assert_eq!(copy, url);
}

#[test]
fn revision_id_null_and_git() {
    let null = RevisionId::null();
    assert!(null.is_null());
    assert!(!null.is_git());
    assert_eq!(null.as_bytes(), b"null:");
    let git = RevisionId::from(b"git-v1:abcdef".to_vec());
    assert!(!git.is_null());
    assert!(git.is_git());
    assert_eq!(git.git_sha(), b"abcdef");
    assert_eq!(git.to_string(), "git-v1:abcdef");
    assert!(!RevisionId::new(b"null".to_vec()).is_null());
    assert!(!RevisionId::new(b"null:x".to_vec()).is_null());
    assert!(!RevisionId::new(b"git-v1".to_vec()).is_git());
    assert!(RevisionId::new(b"git-v1:".to_vec()).is_git());
    assert_eq!(RevisionId::new(b"git-v1:".to_vec()).git_sha(), b"");
}

#[test]
fn revision_id_equality_is_byte_exact() {
    let a = RevisionId::new(b"joe@example.com-1".to_vec());
    let b = RevisionId::new(b"joe@example.com-1".to_vec());
    let c = RevisionId::new(b"joe@example.com-2".to_vec());
    let d = RevisionId::new(b"joe@example.com-".to_vec());
    assert!(a.same_as(&b));
    assert!(!a.same_as(&c));
    assert!(!a.same_as(&d));
    assert!(a == b);
    assert!(a != c);
    assert!(a.clone().same_as(&a));
    assert!(same_bytes(b"", b""));
    assert!(!same_bytes(b"a", b""));
}

#[test]
fn revision_id_text_is_lossy() {
    assert_eq!(RevisionId::new(vec![0x61, 0xff, 0x62]).to_string(), "a\u{fffd}b");
    assert_eq!(RevisionId::new("caf\u{e9}".as_bytes().to_vec()).to_string(), "caf\u{e9}");
    assert_eq!(RevisionId::new(Vec::new()).to_string(), "");
}

fn summary(info: &RevisionInfo) -> (Option<Vec<u8>>, Vec<u8>, String, bool) {
    (
        info.commit_id.clone(),
        info.revision_id.as_bytes().to_vec(),
        info.message.clone(),
        info.link.is_none(),
    )
}

#[test]
fn git_walk_is_told_commit_by_commit() {
    let commits = vec![
        (b"c2".to_vec(), RevisionId::new(b"git-v1:c2".to_vec()), "second".to_string()),
        (b"c1".to_vec(), RevisionId::new(b"git-v1:c1".to_vec()), "first".to_string()),
    ];
    let infos = git_revision_info(&commits);
    assert_eq!(infos.len(), 2);
    assert_eq!(
        summary(&infos[0]),
        (Some(b"c2".to_vec()), b"git-v1:c2".to_vec(), "second".to_string(), true)
    );
    assert_eq!(
        summary(&infos[1]),
        (Some(b"c1".to_vec()), b"git-v1:c1".to_vec(), "first".to_string(), true)
    );
    assert!(git_revision_info(&Vec::new()).is_empty());
}

#[test]
fn bzr_walk_leaves_out_what_is_gone() {
    let revisions = vec![
        Some((RevisionId::new(b"r3".to_vec()), "third".to_string())),
        None,
        Some((RevisionId::new(b"r1".to_vec()), "first".to_string())),
        None,
    ];
    let infos = bzr_revision_infos(&revisions);
    assert_eq!(infos.len(), 2);
    assert_eq!(summary(&infos[0]), (None, b"r3".to_vec(), "third".to_string(), true));
    assert_eq!(summary(&infos[1]), (None, b"r1".to_vec(), "first".to_string(), true));
    assert!(bzr_revision_infos(&vec![None, None]).is_empty());
}

#[test]
fn branch_vcs_type_by_abbreviation() {
    assert_eq!(get_branch_vcs_type(Some("git")), Ok(VcsType::Git));
    assert_eq!(get_branch_vcs_type(Some("bzr")), Ok(VcsType::Bzr));
    assert_eq!(get_branch_vcs_type(None), Ok(VcsType::Bzr));
    assert_eq!(get_branch_vcs_type(Some("hg")), Err("Unknown VCS type: hg".to_string()));
}
