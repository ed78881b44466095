use janitor::failure::{
    classify_description, convert_branch_exception, missing_table, unavailable_table,
    unsupported_table, BranchOpenError, BranchOpenFailure, FailureCode, Marker,
    MAX_DELAY_SECONDS,
};
use janitor::location::Url;

fn url(text: &str) -> Url {
    Url::parse(text).unwrap()
}

fn unavailable(vcs_url: &str, description: &str) -> BranchOpenFailure {
    convert_branch_exception(
        &url(vcs_url),
        BranchOpenError::Unavailable {
            url: url(vcs_url),
            description: description.to_string(),
        },
    )
}

fn unsupported(description: &str) -> BranchOpenFailure {
    convert_branch_exception(
        &url("https://example.com/repo"),
        BranchOpenError::Unsupported {
            url: url("https://example.com/repo"),
            description: description.to_string(),
            vcs: None,
        },
    )
}

#[test]
fn rate_limited_carries_the_delay() {
    let failure = convert_branch_exception(
        &url("https://example.com/repo"),
        BranchOpenError::RateLimited {
            url: url("https://example.com/repo"),
            description: "slow down".to_string(),
            retry_after: Some(120),
        },
    );
    assert_eq!(failure.code, "too-many-requests");
    assert_eq!(failure.description, "slow down");
    assert_eq!(failure.retry_after, Some(120));
    let without = convert_branch_exception(
        &url("https://example.com/repo"),
        BranchOpenError::RateLimited {
            url: url("https://example.com/repo"),
            description: "slow down".to_string(),
            retry_after: None,
        },
    );
    assert_eq!(without.code, "too-many-requests");
    assert_eq!(without.retry_after, None);
}

#[test]
fn rate_limited_keeps_a_delay_beyond_what_can_be_written() {
    let failure = convert_branch_exception(
        &url("https://example.com/repo"),
        BranchOpenError::RateLimited {
            url: url("https://example.com/repo"),
            description: "slow down".to_string(),
            retry_after: Some(i64::MAX),
        },
    );
    assert_eq!(failure.retry_after, Some(i64::MAX));
    assert!(!failure.has_representable_delay());
}

#[test]
fn unavailable_goes_through_the_table_in_order() {
    let cases = [
        ("Unable to handle http code 429: Too Many Requests", "too-many-requests"),
        ("Unable to handle http code 401: Unauthorized", "401-unauthorized"),
        ("Unexpected HTTP status 401 for https://example.com", "401-unauthorized"),
        ("Unable to handle http code 502: Bad Gateway", "502-bad-gateway"),
        ("Unexpected HTTP status 502 for https://example.com", "502-bad-gateway"),
        ("Subversion branches are not yet supported", "unsupported-vcs-svn"),
        ("Mercurial branches are not yet supported", "unsupported-vcs-hg"),
        ("Darcs branches are not yet supported", "unsupported-vcs-darcs"),
        ("Fossil branches are not yet supported", "unsupported-vcs-fossil"),
        ("Connection refused", "branch-unavailable"),
        ("", "branch-unavailable"),
        (
            "Unexpected HTTP status 401 for x; Unable to handle http code 502: Bad Gateway",
            "401-unauthorized",
        ),
        (
            "Fossil branches are not yet; Subversion branches are not yet",
            "unsupported-vcs-svn",
        ),
    ];
    for (description, code) in cases {
        let failure = unavailable("https://example.com/repo", description);
        assert_eq!(failure.code, code, "for {:?}", description);
        assert_eq!(failure.description, description);
        assert_eq!(failure.retry_after, None);
    }
}

#[test]
fn unavailable_on_alioth() {
    let failure = unavailable("https://anonscm.debian.org/git/x.git", "Connection refused");
    assert_eq!(failure.code, "hosted-on-alioth");
    // Too many requests is told before Alioth, anything else after it.
    let failure = unavailable(
        "https://anonscm.debian.org/git/x.git",
        "http code 429: Too Many Requests",
    );
    assert_eq!(failure.code, "too-many-requests");
    let failure = unavailable(
        "https://alioth.debian.org/x",
        "Unable to handle http code 401: Unauthorized",
    );
    assert_eq!(failure.code, "hosted-on-alioth");
}

#[test]
fn temporarily_unavailable_names_the_url() {
    let failure = convert_branch_exception(
        &url("https://example.com/repo"),
        BranchOpenError::TemporarilyUnavailable {
            url: url("https://example.com/other"),
            description: "Temporary failure in name resolution".to_string(),
        },
    );
    assert_eq!(failure.code, "branch-temporarily-unavailable");
    assert_eq!(
        failure.description,
        "Temporary failure in name resolution (https://example.com/other)"
    );
    assert_eq!(failure.retry_after, None);
}

#[test]
fn missing_names_the_url() {
    let failure = convert_branch_exception(
        &url("https://example.com/repo"),
        BranchOpenError::Missing {
            url: url("https://example.com/repo"),
            description: "Branch does not exist: Not a branch: \"https://example.com/repo\""
                .to_string(),
        },
    );
    assert_eq!(failure.code, "branch-missing");
    assert_eq!(
        failure.description,
        "Branch does not exist: Not a branch: \"https://example.com/repo\" (https://example.com/repo)"
    );
    let failure = convert_branch_exception(
        &url("https://example.com/repo"),
        BranchOpenError::Missing {
            url: url("https://anonscm.debian.org/git/x.git"),
            description:
                "Branch does not exist: Not a branch: \"https://anonscm.debian.org/git/x.git\""
                    .to_string(),
        },
    );
    assert_eq!(failure.code, "hosted-on-alioth");
    // The marker has to open the description, and the URL that was opened does not count.
    let failure = convert_branch_exception(
        &url("https://anonscm.debian.org/git/x.git"),
        BranchOpenError::Missing {
            url: url("https://anonscm.debian.org/git/x.git"),
            description:
                "oops: Branch does not exist: Not a branch: \"https://anonscm.debian.org/git/x.git\""
                    .to_string(),
        },
    );
    assert_eq!(failure.code, "branch-missing");
}

#[test]
fn unsupported_goes_through_the_table_in_order() {
    let cases = [
        ("Unsupported protocol for url https://anonscm.debian.org/x", "hosted-on-alioth"),
        ("Unsupported protocol for url svn://svn.debian.org/x", "hosted-on-alioth"),
        ("Unsupported protocol for url svn://example.com/x", "unsupported-vcs-svn"),
        ("Unsupported protocol for url cvs+pserver://example.com/x", "unsupported-vcs-cvs"),
        ("Unsupported protocol for url gopher://example.com/x", "unsupported-vcs-protocol"),
        (
            "Unsupported protocol for url x: Subversion branches are not yet",
            "unsupported-vcs-protocol",
        ),
        ("Subversion branches are not yet supported", "unsupported-vcs-svn"),
        ("Mercurial branches are not yet supported", "unsupported-vcs-hg"),
        ("Darcs branches are not yet supported", "unsupported-vcs-darcs"),
        ("Fossil branches are not yet supported", "unsupported-vcs-fossil"),
        ("svn://example.com", "unsupported-vcs"),
        ("anonscm.debian.org", "unsupported-vcs"),
        ("", "unsupported-vcs"),
    ];
    for (description, code) in cases {
        let failure = unsupported(description);
        assert_eq!(failure.code, code, "for {:?}", description);
        assert_eq!(failure.description, description);
        assert_eq!(failure.retry_after, None);
    }
}

#[test]
fn alioth_wins_over_the_protocol() {
    let failure = unsupported(
        "Unsupported protocol for url svn://anonscm.debian.org/x: cvs+pserver:// is unknown",
    );
    assert_eq!(failure.code, "hosted-on-alioth");
}

#[test]
fn other_is_unknown() {
    let failure = convert_branch_exception(
        &url("https://anonscm.debian.org/x"),
        BranchOpenError::Other("http code 429: Too Many Requests".to_string()),
    );
    assert_eq!(failure.code, "unknown");
    assert_eq!(failure.description, "http code 429: Too Many Requests");
    assert_eq!(failure.retry_after, None);
}

#[test]
fn every_code_is_written_differently() {
    let codes = [
        FailureCode::TooManyRequests,
        FailureCode::HostedOnAlioth,
        FailureCode::Unauthorized,
        FailureCode::BadGateway,
        FailureCode::UnsupportedVcsSvn,
        FailureCode::UnsupportedVcsHg,
        FailureCode::UnsupportedVcsDarcs,
        FailureCode::UnsupportedVcsFossil,
        FailureCode::UnsupportedVcsCvs,
        FailureCode::UnsupportedVcsProtocol,
        FailureCode::BranchMissing,
        FailureCode::BranchUnavailable,
        FailureCode::BranchTemporarilyUnavailable,
        FailureCode::UnsupportedVcs,
        FailureCode::Unknown,
    ];
    for (i, first) in codes.iter().enumerate() {
        assert!(!first.as_str().is_empty());
        for second in &codes[i + 1..] {
            assert_ne!(first.as_str(), second.as_str());
        }
    }
}

#[test]
fn tables_are_searched_first_match_first() {
    let table = unsupported_table();
    assert_eq!(table.len(), 9);
    assert_eq!(unavailable_table().len(), 10);
    assert_eq!(missing_table().len(), 1);
    assert_eq!(
        classify_description(&table, FailureCode::Unknown, "Darcs branches are not yet", false),
        FailureCode::UnsupportedVcsDarcs
    );
    assert_eq!(
        classify_description(&Vec::new(), FailureCode::Unknown, "Darcs branches are not yet", true),
        FailureCode::Unknown
    );
    let description: Vec<char> = "abc".chars().collect();
    assert!(Marker::Contains("bc").found(&description, false));
    assert!(!Marker::Contains("cb").found(&description, true));
    assert!(Marker::ContainsBoth("a", "c").found(&description, false));
    assert!(!Marker::ContainsBoth("a", "d").found(&description, false));
    assert!(Marker::StartsWith("ab").found(&description, false));
    assert!(!Marker::StartsWith("bc").found(&description, false));
    assert!(Marker::OnAlioth.found(&description, true));
    assert!(!Marker::OnAlioth.found(&description, false));
}

#[test]
fn failure_text_without_delay() {
    let failure = BranchOpenFailure {
        code: "branch-missing".to_string(),
        description: "gone".to_string(),
        retry_after: None,
    };
    assert!(failure.has_representable_delay());
    assert_eq!(failure.to_string(), "BranchOpenFailure(code=branch-missing, description=gone)");
}

#[test]
fn failure_text_with_delay() {
    let text = |seconds: i64| {
        BranchOpenFailure {
            code: "too-many-requests".to_string(),
            description: "slow".to_string(),
            retry_after: Some(seconds),
        }
        .to_string()
    };
    assert_eq!(
        text(120),
        "BranchOpenFailure(code=too-many-requests, description=slow, retry_after=PT120S)"
    );
    assert_eq!(
        text(0),
        "BranchOpenFailure(code=too-many-requests, description=slow, retry_after=P0D)"
    );
    assert_eq!(
        text(-5),
        "BranchOpenFailure(code=too-many-requests, description=slow, retry_after=-PT5S)"
    );
    assert_eq!(
        text(MAX_DELAY_SECONDS),
        "BranchOpenFailure(code=too-many-requests, description=slow, retry_after=PT9223372036854775S)"
    );
    assert_eq!(
        text(-MAX_DELAY_SECONDS),
        "BranchOpenFailure(code=too-many-requests, description=slow, retry_after=-PT9223372036854775S)"
    );
}

#[test]
fn delay_bounds_are_those_of_chrono() {
    assert!(chrono::TimeDelta::try_seconds(MAX_DELAY_SECONDS).is_some());
    assert!(chrono::TimeDelta::try_seconds(MAX_DELAY_SECONDS + 1).is_none());
    assert!(chrono::TimeDelta::try_seconds(-MAX_DELAY_SECONDS).is_some());
    assert!(chrono::TimeDelta::try_seconds(-MAX_DELAY_SECONDS - 1).is_none());
    let failure = |seconds: i64| BranchOpenFailure {
        code: "too-many-requests".to_string(),
        description: String::new(),
        retry_after: Some(seconds),
    };
    assert!(failure(MAX_DELAY_SECONDS).has_representable_delay());
    assert!(!failure(MAX_DELAY_SECONDS + 1).has_representable_delay());
    assert!(failure(-MAX_DELAY_SECONDS).has_representable_delay());
    assert!(!failure(-MAX_DELAY_SECONDS - 1).has_representable_delay());
}

#[test]
fn every_failure_gets_a_known_code() {
    let known = [
        "too-many-requests",
        "hosted-on-alioth",
        "401-unauthorized",
        "502-bad-gateway",
        "unsupported-vcs-svn",
        "unsupported-vcs-hg",
        "unsupported-vcs-darcs",
        "unsupported-vcs-fossil",
        "unsupported-vcs-cvs",
        "unsupported-vcs-protocol",
        "branch-missing",
        "branch-unavailable",
        "branch-temporarily-unavailable",
        "unsupported-vcs",
        "unknown",
    ];
    let descriptions = [
        "",
        "\u{0}",
        "something never seen before",
        "Unsupported protocol for url ",
        "http code 429: Too Many Requests",
        "Branch does not exist: Not a branch: \"https://anonscm.debian.org",
        "na\u{ef}ve \u{1f600}",
    ];
    for vcs_url in ["https://example.com/x", "https://alioth.debian.org/x", "unix:/run/x"] {
        for description in descriptions {
            let there = || url(vcs_url);
            let description = || description.to_string();
            let errors = vec![
                BranchOpenError::Unsupported { url: there(), description: description(), vcs: None },
                BranchOpenError::Missing { url: there(), description: description() },
                BranchOpenError::RateLimited {
                    url: there(),
                    description: description(),
                    retry_after: None,
                },
                BranchOpenError::Unavailable { url: there(), description: description() },
                BranchOpenError::TemporarilyUnavailable {
                    url: there(),
                    description: description(),
                },
                BranchOpenError::Other(description()),
            ];
            for error in errors {
                let failure = convert_branch_exception(&there(), error);
                assert!(known.contains(&failure.code.as_str()), "code {:?}", failure.code);
            }
        }
    }
}
