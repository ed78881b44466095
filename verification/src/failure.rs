//! Why a branch could not be opened, told as one of a fixed set of codes.
//!
//! Those who decide whether to try again go by the code alone, so every
//! failure gets one. Where the cause alone does not say enough, the
//! description is searched for known markers, in the order of a table: the
//! first rule that holds gives the code.

use crate::location::{Url, UrlView};
use crate::text::{chars_of, contains_in, contains_text, decimal, starts_with_in, starts_with_text};
use crate::vcs::{alioth_url, is_alioth_url};
use vstd::prelude::*;

verus! {

/// The codes that a failure to open a branch can get.
#[derive(Clone, Copy, Debug, PartialEq, Eq, Hash, Structural)]
pub enum FailureCode {
    TooManyRequests,
    HostedOnAlioth,
    Unauthorized,
    BadGateway,
    UnsupportedVcsSvn,
    UnsupportedVcsHg,
    UnsupportedVcsDarcs,
    UnsupportedVcsFossil,
    UnsupportedVcsCvs,
    UnsupportedVcsProtocol,
    BranchMissing,
    BranchUnavailable,
    BranchTemporarilyUnavailable,
    UnsupportedVcs,
    Unknown,
}

impl FailureCode {
    /// How the code is written.
    pub open spec fn text(self) -> Seq<char> {
        match self {
            FailureCode::TooManyRequests => "too-many-requests"@,
            FailureCode::HostedOnAlioth => "hosted-on-alioth"@,
            FailureCode::Unauthorized => "401-unauthorized"@,
            FailureCode::BadGateway => "502-bad-gateway"@,
            FailureCode::UnsupportedVcsSvn => "unsupported-vcs-svn"@,
            FailureCode::UnsupportedVcsHg => "unsupported-vcs-hg"@,
            FailureCode::UnsupportedVcsDarcs => "unsupported-vcs-darcs"@,
            FailureCode::UnsupportedVcsFossil => "unsupported-vcs-fossil"@,
            FailureCode::UnsupportedVcsCvs => "unsupported-vcs-cvs"@,
            FailureCode::UnsupportedVcsProtocol => "unsupported-vcs-protocol"@,
            FailureCode::BranchMissing => "branch-missing"@,
            FailureCode::BranchUnavailable => "branch-unavailable"@,
            FailureCode::BranchTemporarilyUnavailable => "branch-temporarily-unavailable"@,
            FailureCode::UnsupportedVcs => "unsupported-vcs"@,
            FailureCode::Unknown => "unknown"@,
        }
    }

    /// How the code is written.
    pub fn as_str(&self) -> (r: &'static str)
        ensures
            r@ == self.text(),
    {
        match self {
            FailureCode::TooManyRequests => "too-many-requests",
            FailureCode::HostedOnAlioth => "hosted-on-alioth",
            FailureCode::Unauthorized => "401-unauthorized",
            FailureCode::BadGateway => "502-bad-gateway",
            FailureCode::UnsupportedVcsSvn => "unsupported-vcs-svn",
            FailureCode::UnsupportedVcsHg => "unsupported-vcs-hg",
            FailureCode::UnsupportedVcsDarcs => "unsupported-vcs-darcs",
            FailureCode::UnsupportedVcsFossil => "unsupported-vcs-fossil",
            FailureCode::UnsupportedVcsCvs => "unsupported-vcs-cvs",
            FailureCode::UnsupportedVcsProtocol => "unsupported-vcs-protocol",
            FailureCode::BranchMissing => "branch-missing",
            FailureCode::BranchUnavailable => "branch-unavailable",
            FailureCode::BranchTemporarilyUnavailable => "branch-temporarily-unavailable",
            FailureCode::UnsupportedVcs => "unsupported-vcs",
            FailureCode::Unknown => "unknown",
        }
    }
}

/// Whether `code` is how one of the codes is written.
pub open spec fn is_failure_code(code: Seq<char>) -> bool {
    exists|known: FailureCode| known.text() == code
}

/// What a rule looks for.
#[derive(Clone, Copy, Debug)]
pub enum Marker {
    /// The description holds the text.
    Contains(&'static str),
    /// The description holds both texts.
    ContainsBoth(&'static str, &'static str),
    /// The description begins with the text.
    StartsWith(&'static str),
    /// The URL that was to be opened points at Alioth.
    OnAlioth,
}

impl Marker {
    /// Whether the marker is found in a failure with this description, for a
    /// URL that points at Alioth or does not.
    pub open spec fn holds(self, description: Seq<char>, on_alioth: bool) -> bool {
        match self {
            Marker::Contains(needle) => contains_text(description, needle@),
            Marker::ContainsBoth(first, second) => contains_text(description, first@)
                && contains_text(description, second@),
            Marker::StartsWith(prefix) => starts_with_text(description, prefix@),
            Marker::OnAlioth => on_alioth,
        }
    }

    /// Whether the marker is found.
    pub fn found(&self, description: &Vec<char>, on_alioth: bool) -> (r: bool)
        ensures
            r == self.holds(description@, on_alioth),
    {
        match self {
            Marker::Contains(needle) => contains_in(description, needle),
            Marker::ContainsBoth(first, second) => contains_in(description, first) && contains_in(
                description,
                second,
            ),
            Marker::StartsWith(prefix) => starts_with_in(description, prefix),
            Marker::OnAlioth => on_alioth,
        }
    }
}

/// One row of a table: the code to give where the marker is found.
#[derive(Clone, Copy, Debug)]
pub struct Rule {
    pub when: Marker,
    pub code: FailureCode,
}

/// The code of the first rule of `rules` whose marker is found.
pub open spec fn first_match(rules: Seq<Rule>, description: Seq<char>, on_alioth: bool) -> Option<
    FailureCode,
>
    decreases rules.len(),
{
    if rules.len() == 0 {
        None
    } else if rules[0].when.holds(description, on_alioth) {
        Some(rules[0].code)
    } else {
        first_match(rules.drop_first(), description, on_alioth)
    }
}

/// The code that `rules` give, and `fallback` where no rule holds.
pub open spec fn code_by(
    rules: Seq<Rule>,
    fallback: FailureCode,
    description: Seq<char>,
    on_alioth: bool,
) -> FailureCode {
    match first_match(rules, description, on_alioth) {
        Some(code) => code,
        None => fallback,
    }
}

/// The rules for a branch that is unavailable.
pub open spec fn unavailable_rules() -> Seq<Rule> {
    seq![
        Rule {
            when: Marker::Contains("http code 429: Too Many Requests"),
            code: FailureCode::TooManyRequests,
        },
        Rule { when: Marker::OnAlioth, code: FailureCode::HostedOnAlioth },
        Rule {
            when: Marker::Contains("Unable to handle http code 401: Unauthorized"),
            code: FailureCode::Unauthorized,
        },
        Rule {
            when: Marker::Contains("Unexpected HTTP status 401 for "),
            code: FailureCode::Unauthorized,
        },
        Rule {
            when: Marker::Contains("Unable to handle http code 502: Bad Gateway"),
            code: FailureCode::BadGateway,
        },
        Rule {
            when: Marker::Contains("Unexpected HTTP status 502 for "),
            code: FailureCode::BadGateway,
        },
        Rule {
            when: Marker::Contains("Subversion branches are not yet"),
            code: FailureCode::UnsupportedVcsSvn,
        },
        Rule {
            when: Marker::Contains("Mercurial branches are not yet"),
            code: FailureCode::UnsupportedVcsHg,
        },
        Rule {
            when: Marker::Contains("Darcs branches are not yet"),
            code: FailureCode::UnsupportedVcsDarcs,
        },
        Rule {
            when: Marker::Contains("Fossil branches are not yet"),
            code: FailureCode::UnsupportedVcsFossil,
        },
    ]
}

/// The rules for a branch that is missing.
pub open spec fn missing_rules() -> Seq<Rule> {
    seq![
        Rule {
            when: Marker::StartsWith(
                "Branch does not exist: Not a branch: \"https://anonscm.debian.org",
            ),
            code: FailureCode::HostedOnAlioth,
        },
    ]
}

/// The rules for a branch under a version control that is not supported. A
/// complaint about the URL's protocol that names a host of Alioth is told as
/// Alioth before it is told as anything else.
pub open spec fn unsupported_rules() -> Seq<Rule> {
    seq![
        Rule {
            when: Marker::ContainsBoth("Unsupported protocol for url ", "anonscm.debian.org"),
            code: FailureCode::HostedOnAlioth,
        },
        Rule {
            when: Marker::ContainsBoth("Unsupported protocol for url ", "svn.debian.org"),
            code: FailureCode::HostedOnAlioth,
        },
        Rule {
            when: Marker::ContainsBoth("Unsupported protocol for url ", "svn://"),
            code: FailureCode::UnsupportedVcsSvn,
        },
        Rule {
            when: Marker::ContainsBoth("Unsupported protocol for url ", "cvs+pserver://"),
            code: FailureCode::UnsupportedVcsCvs,
        },
        Rule {
            when: Marker::Contains("Unsupported protocol for url "),
            code: FailureCode::UnsupportedVcsProtocol,
        },
        Rule {
            when: Marker::Contains("Subversion branches are not yet"),
            code: FailureCode::UnsupportedVcsSvn,
        },
        Rule {
            when: Marker::Contains("Mercurial branches are not yet"),
            code: FailureCode::UnsupportedVcsHg,
        },
        Rule {
            when: Marker::Contains("Darcs branches are not yet"),
            code: FailureCode::UnsupportedVcsDarcs,
        },
        Rule {
            when: Marker::Contains("Fossil branches are not yet"),
            code: FailureCode::UnsupportedVcsFossil,
        },
    ]
}

/// The table for a branch that is unavailable.
pub fn unavailable_table() -> (r: Vec<Rule>)
    ensures
        r@ == unavailable_rules(),
{
    let mut table: Vec<Rule> = Vec::new();
    table.push(
        Rule {
            when: Marker::Contains("http code 429: Too Many Requests"),
            code: FailureCode::TooManyRequests,
        },
    );
    table.push(Rule { when: Marker::OnAlioth, code: FailureCode::HostedOnAlioth });
    table.push(
        Rule {
            when: Marker::Contains("Unable to handle http code 401: Unauthorized"),
            code: FailureCode::Unauthorized,
        },
    );
    table.push(
        Rule {
            when: Marker::Contains("Unexpected HTTP status 401 for "),
            code: FailureCode::Unauthorized,
        },
    );
    table.push(
        Rule {
            when: Marker::Contains("Unable to handle http code 502: Bad Gateway"),
            code: FailureCode::BadGateway,
        },
    );
    table.push(
        Rule {
            when: Marker::Contains("Unexpected HTTP status 502 for "),
            code: FailureCode::BadGateway,
        },
    );
    table.push(
        Rule {
            when: Marker::Contains("Subversion branches are not yet"),
            code: FailureCode::UnsupportedVcsSvn,
        },
    );
    table.push(
        Rule {
            when: Marker::Contains("Mercurial branches are not yet"),
            code: FailureCode::UnsupportedVcsHg,
        },
    );
    table.push(
        Rule {
            when: Marker::Contains("Darcs branches are not yet"),
            code: FailureCode::UnsupportedVcsDarcs,
        },
    );
    table.push(
        Rule {
            when: Marker::Contains("Fossil branches are not yet"),
            code: FailureCode::UnsupportedVcsFossil,
        },
    );
    assert(table@ =~= unavailable_rules());
    table
}

/// The table for a branch that is missing.
pub fn missing_table() -> (r: Vec<Rule>)
    ensures
        r@ == missing_rules(),
{
    let mut table: Vec<Rule> = Vec::new();
    table.push(
        Rule {
            when: Marker::StartsWith(
                "Branch does not exist: Not a branch: \"https://anonscm.debian.org",
            ),
            code: FailureCode::HostedOnAlioth,
        },
    );
    assert(table@ =~= missing_rules());
    table
}

/// The table for a branch under a version control that is not supported.
pub fn unsupported_table() -> (r: Vec<Rule>)
    ensures
        r@ == unsupported_rules(),
{
    let mut table: Vec<Rule> = Vec::new();
    table.push(
        Rule {
            when: Marker::ContainsBoth("Unsupported protocol for url ", "anonscm.debian.org"),
            code: FailureCode::HostedOnAlioth,
        },
    );
    table.push(
        Rule {
            when: Marker::ContainsBoth("Unsupported protocol for url ", "svn.debian.org"),
            code: FailureCode::HostedOnAlioth,
        },
    );
    table.push(
        Rule {
            when: Marker::ContainsBoth("Unsupported protocol for url ", "svn://"),
            code: FailureCode::UnsupportedVcsSvn,
        },
    );
    table.push(
        Rule {
            when: Marker::ContainsBoth("Unsupported protocol for url ", "cvs+pserver://"),
            code: FailureCode::UnsupportedVcsCvs,
        },
    );
    table.push(
        Rule {
            when: Marker::Contains("Unsupported protocol for url "),
            code: FailureCode::UnsupportedVcsProtocol,
        },
    );
    table.push(
        Rule {
            when: Marker::Contains("Subversion branches are not yet"),
            code: FailureCode::UnsupportedVcsSvn,
        },
    );
    table.push(
        Rule {
            when: Marker::Contains("Mercurial branches are not yet"),
            code: FailureCode::UnsupportedVcsHg,
        },
    );
    table.push(
        Rule {
            when: Marker::Contains("Darcs branches are not yet"),
            code: FailureCode::UnsupportedVcsDarcs,
        },
    );
    table.push(
        Rule {
            when: Marker::Contains("Fossil branches are not yet"),
            code: FailureCode::UnsupportedVcsFossil,
        },
    );
    assert(table@ =~= unsupported_rules());
    table
}

/// The code that `rules` give for a failure with this description, and
/// `fallback` where no rule holds.
pub fn classify_description(
    rules: &Vec<Rule>,
    fallback: FailureCode,
    description: &str,
    on_alioth: bool,
) -> (r: FailureCode)
    ensures
        r == code_by(rules@, fallback, description@, on_alioth),
{
    let text = chars_of(description);
    let mut index: usize = 0;
    assert(rules@.skip(0) =~= rules@);
    while index < rules.len()
        invariant
            index <= rules.len(),
            text@ == description@,
            first_match(rules@, description@, on_alioth) == first_match(
                rules@.skip(index as int),
                description@,
                on_alioth,
            ),
        decreases rules.len() - index,
    {
        let rule = rules[index];
        proof {
            assert(rules@.skip(index as int)[0] == rule);
            assert(rules@.skip(index as int).drop_first() =~= rules@.skip(index + 1));
        }
        if rule.when.found(&text, on_alioth) {
            return rule.code;
        }
        index += 1;
    }
    fallback
}

/// Why a branch could not be opened, as the one who tried tells it.
#[derive(Debug)]
pub enum BranchOpenError {
    /// The version control at the URL is not supported.
    Unsupported { url: Url, description: String, vcs: Option<String> },
    /// There is no branch at the URL.
    Missing { url: Url, description: String },
    /// The host asks for fewer requests, and may say how many seconds to wait.
    RateLimited { url: Url, description: String, retry_after: Option<i64> },
    /// The branch cannot be reached.
    Unavailable { url: Url, description: String },
    /// The branch cannot be reached for now.
    TemporarilyUnavailable { url: Url, description: String },
    /// Anything else.
    Other(String),
}

/// What a `BranchOpenError` holds.
pub enum BranchOpenErrorView {
    Unsupported { url: UrlView, description: Seq<char>, vcs: Option<Seq<char>> },
    Missing { url: UrlView, description: Seq<char> },
    RateLimited { url: UrlView, description: Seq<char>, retry_after: Option<i64> },
    Unavailable { url: UrlView, description: Seq<char> },
    TemporarilyUnavailable { url: UrlView, description: Seq<char> },
    Other(Seq<char>),
}

impl View for BranchOpenError {
    type V = BranchOpenErrorView;

    open spec fn view(&self) -> BranchOpenErrorView {
        match self {
            BranchOpenError::Unsupported { url, description, vcs } => {
                BranchOpenErrorView::Unsupported {
                    url: url@,
                    description: description@,
                    vcs: match vcs {
                        Some(vcs) => Some(vcs@),
                        None => None,
                    },
                }
            },
            BranchOpenError::Missing { url, description } => BranchOpenErrorView::Missing {
                url: url@,
                description: description@,
            },
            BranchOpenError::RateLimited { url, description, retry_after } => {
                BranchOpenErrorView::RateLimited {
                    url: url@,
                    description: description@,
                    retry_after: *retry_after,
                }
            },
            BranchOpenError::Unavailable { url, description } => BranchOpenErrorView::Unavailable {
                url: url@,
                description: description@,
            },
            BranchOpenError::TemporarilyUnavailable { url, description } => {
                BranchOpenErrorView::TemporarilyUnavailable { url: url@, description: description@ }
            },
            BranchOpenError::Other(description) => BranchOpenErrorView::Other(description@),
        }
    }
}

/// A failure to open a branch, ready for those who decide what to do next.
#[derive(Debug)]
pub struct BranchOpenFailure {
    /// One of the codes of `FailureCode`, written out.
    pub code: String,
    /// Free text for a person to read.
    pub description: String,
    /// The seconds to wait before the next try, where the host said so.
    pub retry_after: Option<i64>,
}

/// What a `BranchOpenFailure` holds.
pub struct BranchOpenFailureView {
    pub code: Seq<char>,
    pub description: Seq<char>,
    pub retry_after: Option<i64>,
}

impl View for BranchOpenFailure {
    type V = BranchOpenFailureView;

    open spec fn view(&self) -> BranchOpenFailureView {
        BranchOpenFailureView {
            code: self.code@,
            description: self.description@,
            retry_after: self.retry_after,
        }
    }
}

/// `description`, with the URL that it is about behind it in brackets.
pub open spec fn with_url(description: Seq<char>, url: UrlView) -> Seq<char> {
    description + " ("@ + url.text + ")"@
}

/// The failure that a cause is told as, for a branch that was to be opened at `vcs_url`.
pub open spec fn classify(vcs_url: UrlView, error: BranchOpenErrorView) -> BranchOpenFailureView {
    match error {
        BranchOpenErrorView::RateLimited { url, description, retry_after } => {
            BranchOpenFailureView {
                code: FailureCode::TooManyRequests.text(),
                description,
                retry_after,
            }
        },
        BranchOpenErrorView::Unavailable { url, description } => BranchOpenFailureView {
            code: code_by(
                unavailable_rules(),
                FailureCode::BranchUnavailable,
                description,
                alioth_url(vcs_url),
            ).text(),
            description,
            retry_after: None,
        },
        BranchOpenErrorView::TemporarilyUnavailable { url, description } => {
            BranchOpenFailureView {
                code: FailureCode::BranchTemporarilyUnavailable.text(),
                description: with_url(description, url),
                retry_after: None,
            }
        },
        BranchOpenErrorView::Missing { url, description } => BranchOpenFailureView {
            code: code_by(
                missing_rules(),
                FailureCode::BranchMissing,
                description,
                alioth_url(vcs_url),
            ).text(),
            description: with_url(description, url),
            retry_after: None,
        },
        BranchOpenErrorView::Unsupported { url, description, vcs } => BranchOpenFailureView {
            code: code_by(
                unsupported_rules(),
                FailureCode::UnsupportedVcs,
                description,
                alioth_url(vcs_url),
            ).text(),
            description,
            retry_after: None,
        },
        BranchOpenErrorView::Other(description) => BranchOpenFailureView {
            code: FailureCode::Unknown.text(),
            description,
            retry_after: None,
        },
    }
}

fn describe_with_url(description: &str, url: &Url) -> (r: String)
    ensures
        r@ == with_url(description@, url@),
{
    let mut out = String::from_str(description);
    out.append(" (");
    out.append(url.as_str());
    out.append(")");
    out
}

/// Tells the cause `e` of a failure to open the branch at `vcs_url` as a
/// `BranchOpenFailure`.
pub fn convert_branch_exception(vcs_url: &Url, e: BranchOpenError) -> (r: BranchOpenFailure)
    ensures
        r@ == classify(vcs_url@, e@),
{
    match e {
        BranchOpenError::RateLimited { url, description, retry_after } => BranchOpenFailure {
            code: String::from_str(FailureCode::TooManyRequests.as_str()),
            description,
            retry_after,
        },
        BranchOpenError::Unavailable { url, description } => {
            let code = classify_description(
                &unavailable_table(),
                FailureCode::BranchUnavailable,
                description.as_str(),
                is_alioth_url(vcs_url),
            );
            BranchOpenFailure {
                code: String::from_str(code.as_str()),
                description,
                retry_after: None,
            }
        },
        BranchOpenError::TemporarilyUnavailable { url, description } => BranchOpenFailure {
            code: String::from_str(FailureCode::BranchTemporarilyUnavailable.as_str()),
            description: describe_with_url(description.as_str(), &url),
            retry_after: None,
        },
        BranchOpenError::Missing { url, description } => {
            let code = classify_description(
                &missing_table(),
                FailureCode::BranchMissing,
                description.as_str(),
                is_alioth_url(vcs_url),
            );
            BranchOpenFailure {
                code: String::from_str(code.as_str()),
                description: describe_with_url(description.as_str(), &url),
                retry_after: None,
            }
        },
        BranchOpenError::Unsupported { url, description, vcs } => {
            let code = classify_description(
                &unsupported_table(),
                FailureCode::UnsupportedVcs,
                description.as_str(),
                is_alioth_url(vcs_url),
            );
            BranchOpenFailure {
                code: String::from_str(code.as_str()),
                description,
                retry_after: None,
            }
        },
        BranchOpenError::Other(description) => BranchOpenFailure {
            code: String::from_str(FailureCode::Unknown.as_str()),
            description,
            retry_after: None,
        },
    }
}

/// The most whole seconds, either way, that a `chrono::TimeDelta` holds.
pub const MAX_DELAY_SECONDS: i64 = 9_223_372_036_854_775;

/// Whether `seconds` can be held by a `chrono::TimeDelta`.
pub open spec fn representable_delay(seconds: i64) -> bool {
    -MAX_DELAY_SECONDS <= seconds <= MAX_DELAY_SECONDS
}

/// A number of whole seconds as an ISO 8601 duration.
pub open spec fn iso_seconds(seconds: int) -> Seq<char> {
    if seconds == 0 {
        "P0D"@
    } else if seconds > 0 {
        "PT"@ + decimal(seconds as nat) + "S"@
    } else {
        "-PT"@ + decimal((-seconds) as nat) + "S"@
    }
}

/// How `chrono` writes a duration of `seconds` whole seconds. The body makes
/// the duration with `chrono::TimeDelta::seconds`, which panics outside the
/// bounds that `requires` keeps, and writes it with the type's `Display`: the
/// sign, `P`, and then `0D` for nothing or `T`, the seconds and `S`.
#[verifier::external_body]
fn seconds_text(seconds: i64) -> (r: String)
    requires
        representable_delay(seconds),
    ensures
        r@ == iso_seconds(seconds as int),
{
    chrono::TimeDelta::seconds(seconds).to_string()
}

/// The line that `BranchOpenFailure::to_string` writes.
pub open spec fn failure_text(failure: BranchOpenFailureView) -> Seq<char> {
    match failure.retry_after {
        Some(seconds) => "BranchOpenFailure(code="@ + failure.code + ", description="@
            + failure.description + ", retry_after="@ + iso_seconds(seconds as int) + ")"@,
        None => "BranchOpenFailure(code="@ + failure.code + ", description="@
            + failure.description + ")"@,
    }
}

impl BranchOpenFailure {
    /// Whether the delay, if there is one, is one that `to_string` can write.
    pub fn has_representable_delay(&self) -> (r: bool)
        ensures
            r == (self.retry_after matches Some(seconds) ==> representable_delay(seconds)),
    {
        match self.retry_after {
            Some(seconds) => -MAX_DELAY_SECONDS <= seconds && seconds <= MAX_DELAY_SECONDS,
            None => true,
        }
    }

    /// The failure as a line of text for a person to read.
    pub fn to_string(&self) -> (r: String)
        requires
            self.retry_after matches Some(seconds) ==> representable_delay(seconds),
        ensures
            r@ == failure_text(self@),
    {
        let mut out = String::from_str("BranchOpenFailure(code=");
        out.append(self.code.as_str());
        out.append(", description=");
        out.append(self.description.as_str());
        match self.retry_after {
            Some(seconds) => {
                out.append(", retry_after=");
                out.append(seconds_text(seconds).as_str());
            },
            None => {},
        }
        out.append(")");
        out
    }
}

/// No code is written as the empty text, and no two codes are written alike.
pub proof fn lemma_codes_are_distinct(first: FailureCode, second: FailureCode)
    ensures
        first.text().len() > 0,
        first.text() == second.text() ==> first == second,
{
    reveal_strlit("too-many-requests");
    reveal_strlit("hosted-on-alioth");
    reveal_strlit("401-unauthorized");
    reveal_strlit("502-bad-gateway");
    reveal_strlit("unsupported-vcs-svn");
    reveal_strlit("unsupported-vcs-hg");
    reveal_strlit("unsupported-vcs-darcs");
    reveal_strlit("unsupported-vcs-fossil");
    reveal_strlit("unsupported-vcs-cvs");
    reveal_strlit("unsupported-vcs-protocol");
    reveal_strlit("branch-missing");
    reveal_strlit("branch-unavailable");
    reveal_strlit("branch-temporarily-unavailable");
    reveal_strlit("unsupported-vcs");
    reveal_strlit("unknown");
    if first.text() == second.text() && first != second {
        assert(first.text().len() == second.text().len());
        assert(first.text()[0] == second.text()[0]);
        assert(first.text()[16] == second.text()[16]);
    }
}

/// Whatever the cause and its description, the failure gets one of the
/// codes, and that code is not the empty text.
pub proof fn lemma_code_is_known(vcs_url: UrlView, error: BranchOpenErrorView)
    ensures
        is_failure_code(classify(vcs_url, error).code),
        classify(vcs_url, error).code.len() > 0,
{
    let on_alioth = alioth_url(vcs_url);
    let code = match error {
        BranchOpenErrorView::RateLimited { .. } => FailureCode::TooManyRequests,
        BranchOpenErrorView::Unavailable { description, .. } => code_by(
            unavailable_rules(),
            FailureCode::BranchUnavailable,
            description,
            on_alioth,
        ),
        BranchOpenErrorView::TemporarilyUnavailable { .. } => {
            FailureCode::BranchTemporarilyUnavailable
        },
        BranchOpenErrorView::Missing { description, .. } => code_by(
            missing_rules(),
            FailureCode::BranchMissing,
            description,
            on_alioth,
        ),
        BranchOpenErrorView::Unsupported { description, .. } => code_by(
            unsupported_rules(),
            FailureCode::UnsupportedVcs,
            description,
            on_alioth,
        ),
        BranchOpenErrorView::Other(_) => FailureCode::Unknown,
    };
    assert(classify(vcs_url, error).code == code.text());
    lemma_codes_are_distinct(code, code);
}

/// A delay is told only with the code for too many requests, and then it is
/// the delay that the cause came with.
pub proof fn lemma_delay_only_when_rate_limited(vcs_url: UrlView, error: BranchOpenErrorView)
    ensures
        classify(vcs_url, error).retry_after is Some ==> error is RateLimited && classify(
            vcs_url,
            error,
        ).code == FailureCode::TooManyRequests.text(),
        error matches BranchOpenErrorView::RateLimited { retry_after, .. } ==> classify(
            vcs_url,
            error,
        ).retry_after == retry_after,
{
}

/// The more specific marker wins: where the description of an unsupported
/// version control complains about the URL's protocol and also names a host
/// of Alioth, the code is that of Alioth and none of the codes for a protocol.
pub proof fn lemma_alioth_before_protocol(
    vcs_url: UrlView,
    url: UrlView,
    description: Seq<char>,
    vcs: Option<Seq<char>>,
)
    requires
        contains_text(description, "Unsupported protocol for url "@),
        contains_text(description, "anonscm.debian.org"@) || contains_text(
            description,
            "svn.debian.org"@,
        ),
    ensures
        classify(vcs_url, BranchOpenErrorView::Unsupported { url, description, vcs }).code
            == FailureCode::HostedOnAlioth.text(),
        FailureCode::HostedOnAlioth.text() != FailureCode::UnsupportedVcsProtocol.text(),
        FailureCode::HostedOnAlioth.text() != FailureCode::UnsupportedVcs.text(),
{
    let rules = unsupported_rules();
    let on_alioth = alioth_url(vcs_url);
    reveal_with_fuel(first_match, 3);
    assert(rules[0].when.holds(description, on_alioth) || rules.drop_first()[0].when.holds(
        description,
        on_alioth,
    ));
    assert(first_match(rules, description, on_alioth) == Some(FailureCode::HostedOnAlioth));
    lemma_codes_are_distinct(FailureCode::HostedOnAlioth, FailureCode::UnsupportedVcsProtocol);
    lemma_codes_are_distinct(FailureCode::HostedOnAlioth, FailureCode::UnsupportedVcs);
}

} // verus!
