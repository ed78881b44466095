use janitor::config::Config;
use janitor::factory::{
    can_get_vcs_managers, get_vcs_managers, get_vcs_managers_from_config, AnyVcsManager,
    LocationError, VcsManagers,
};
use janitor::location::Url;
use janitor::manager::{DiffStep, RemoteGitVcsManager, VcsManager};
use janitor::revision::RevisionId;
use janitor::vcs::VcsType;

fn config(git_location: Option<&str>, bzr_location: Option<&str>) -> Config {
    Config {
        git_location: git_location.map(|text| text.to_string()),
        bzr_location: bzr_location.map(|text| text.to_string()),
        database_location: None,
        distribution: Vec::new(),
        campaign: Vec::new(),
    }
}

fn remote_base(manager: Option<&AnyVcsManager>) -> String {
    match manager {
        Some(AnyVcsManager::RemoteGit(manager)) => format!("git {}", manager.base_url().as_str()),
        Some(AnyVcsManager::RemoteBzr(manager)) => format!("bzr {}", manager.base_url().as_str()),
        other => panic!("unexpected manager {:?}", other),
    }
}

fn local_base(manager: Option<&AnyVcsManager>) -> String {
    match manager {
        Some(AnyVcsManager::LocalGit(manager)) => format!("git {}", manager.base_path()),
        Some(AnyVcsManager::LocalBzr(manager)) => format!("bzr {}", manager.base_path()),
        other => panic!("unexpected manager {:?}", other),
    }
}

#[test]
fn one_base_url_gives_both_managers() {
    let managers = get_vcs_managers("https://janitor.debian.net/vcs/").unwrap();
    assert_eq!(
        remote_base(managers.get(VcsType::Git)),
        "git https://janitor.debian.net/vcs/git"
    );
    assert_eq!(
        remote_base(managers.get(VcsType::Bzr)),
        "bzr https://janitor.debian.net/vcs/bzr"
    );
    let managers = get_vcs_managers("https://janitor.debian.net/vcs").unwrap();
    assert_eq!(remote_base(managers.get(VcsType::Git)), "git https://janitor.debian.net/git");
    assert_eq!(remote_base(managers.get(VcsType::Bzr)), "bzr https://janitor.debian.net/bzr");
}

#[test]
fn one_base_url_has_to_be_a_url() {
    assert_eq!(get_vcs_managers("not a url"), Err(LocationError::InvalidUrl));
    assert_eq!(get_vcs_managers(""), Err(LocationError::InvalidUrl));
    assert_eq!(get_vcs_managers("git,bzr"), Err(LocationError::InvalidUrl));
}

#[test]
fn pairs_give_one_manager_each() {
    let managers =
        get_vcs_managers("git=https://git.example.com/,bzr=https://bzr.example.com/x").unwrap();
    assert_eq!(remote_base(managers.get(VcsType::Git)), "git https://git.example.com/");
    assert_eq!(remote_base(managers.get(VcsType::Bzr)), "bzr https://bzr.example.com/x");
    let managers = get_vcs_managers("bzr=https://bzr.example.com/").unwrap();
    assert!(managers.get(VcsType::Git).is_none());
    assert_eq!(remote_base(managers.get(VcsType::Bzr)), "bzr https://bzr.example.com/");
    // The URL may hold `=` itself, and the last pair for a kind wins.
    let managers =
        get_vcs_managers("git=https://one.example.com/?a=b,git=https://two.example.com/").unwrap();
    assert_eq!(remote_base(managers.get(VcsType::Git)), "git https://two.example.com/");
    assert!(managers.get(VcsType::Bzr).is_none());
}

#[test]
fn pairs_have_to_name_a_known_kind() {
    for location in [
        "hg=https://hg.example.com/",
        "svn=https://example.com/",
        "git=https://a.example/,hg=https://b.example/",
        "git=https://git.example.com/,",
        "git=https://git.example.com/,bzr",
        " git=https://git.example.com/",
        "=https://git.example.com/",
        "hg=x,git=nowhere",
        "git=nowhere,hg=x",
    ] {
        assert!(!can_get_vcs_managers(location), "for {:?}", location);
    }
    for location in [
        "",
        "not a url",
        "git,bzr",
        "https://janitor.debian.net/",
        "git=https://git.example.com/",
        "git=nowhere",
        "git=",
        "bzr==",
        "git=https://one.example.com/?a=b,bzr=https://two.example.com/",
    ] {
        assert!(can_get_vcs_managers(location), "for {:?}", location);
    }
}

#[test]
fn pairs_have_to_hold_a_url() {
    assert_eq!(get_vcs_managers("git=nowhere"), Err(LocationError::InvalidUrl));
    assert_eq!(get_vcs_managers("git="), Err(LocationError::InvalidUrl));
    assert_eq!(get_vcs_managers("bzr=="), Err(LocationError::InvalidUrl));
    // The first pair whose URL is none decides, and no part of the map is returned.
    assert_eq!(
        get_vcs_managers("git=https://git.example.com/,bzr=nowhere"),
        Err(LocationError::InvalidUrl)
    );
}

#[test]
fn configuration_without_locations_gives_no_manager() {
    let managers = get_vcs_managers_from_config(&config(None, None)).unwrap();
    assert!(managers.get(VcsType::Git).is_none());
    assert!(managers.get(VcsType::Bzr).is_none());
    assert_eq!(managers, VcsManagers::new());
}

#[test]
fn configuration_with_file_locations_gives_local_managers() {
    let managers =
        get_vcs_managers_from_config(&config(Some("file:///srv/git"), Some("file:///srv/bzr/")))
            .unwrap();
    assert_eq!(local_base(managers.get(VcsType::Git)), "git /srv/git");
    assert_eq!(local_base(managers.get(VcsType::Bzr)), "bzr /srv/bzr/");
}

#[test]
fn configuration_with_other_locations_gives_remote_managers() {
    let managers = get_vcs_managers_from_config(&config(
        Some("https://git.example.com/"),
        Some("file:///srv/bzr"),
    ))
    .unwrap();
    assert_eq!(remote_base(managers.get(VcsType::Git)), "git https://git.example.com/");
    assert_eq!(local_base(managers.get(VcsType::Bzr)), "bzr /srv/bzr");
    assert_eq!(managers.get(VcsType::Git).unwrap().vcs_type(), VcsType::Git);
    assert_eq!(managers.get(VcsType::Bzr).unwrap().vcs_type(), VcsType::Bzr);
}

#[test]
fn configuration_with_bad_locations_fails() {
    assert_eq!(
        get_vcs_managers_from_config(&config(Some("nowhere"), None)),
        Err(LocationError::InvalidUrl)
    );
    assert_eq!(
        get_vcs_managers_from_config(&config(None, Some("file://elsewhere/srv/bzr"))),
        Err(LocationError::NoFilePath)
    );
    assert_eq!(
        get_vcs_managers_from_config(&config(Some("file://elsewhere/x"), Some("nowhere"))),
        Err(LocationError::NoFilePath)
    );
}

#[test]
fn any_manager_does_what_its_sort_does() {
    let mut managers = VcsManagers::new();
    managers.insert(
        VcsType::Git,
        AnyVcsManager::RemoteGit(RemoteGitVcsManager::new(
            Url::parse("https://example.com/git/").unwrap(),
        )),
    );
    let manager = managers.get(VcsType::Git).unwrap();
    let branch = manager.get_branch_url("foo", "main").unwrap();
    assert_eq!(branch.url.as_str(), "https://example.com/git/foo");
    assert_eq!(branch.branch, Some("main".to_string()));
    let null = RevisionId::null();
    assert!(matches!(manager.get_diff("foo", &null, &null), Some(DiffStep::Done(bytes)) if bytes.is_empty()));
    assert!(matches!(
        manager.get_diff("foo", &null, &RevisionId::new(b"git-v1:abc".to_vec())),
        Some(DiffStep::Fetch(_))
    ));
}
