//! The kinds of version control, and what the library reads off the URL of a
//! branch.

use crate::location::{Url, UrlView};
use crate::text::same_text;
use vstd::prelude::*;

verus! {

/// The version-control kinds that a codebase can be stored under.
#[derive(Clone, Copy, Debug, PartialEq, Eq, Hash, Structural)]
pub enum VcsType {
    Bzr,
    Git,
}

/// What `VcsType::from_str` makes of `text`: the kind that is written so, or
/// the message that says that there is none.
pub open spec fn parse_vcs_type(text: Seq<char>) -> Result<VcsType, Seq<char>> {
    if text == "bzr"@ {
        Ok(VcsType::Bzr)
    } else if text == "git"@ {
        Ok(VcsType::Git)
    } else {
        Err("Unknown VCS type: "@ + text)
    }
}

impl VcsType {
    /// How the kind is written: `bzr` or `git`.
    pub open spec fn name(self) -> Seq<char> {
        match self {
            VcsType::Bzr => "bzr"@,
            VcsType::Git => "git"@,
        }
    }

    /// How the kind is written: `bzr` or `git`.
    pub fn as_str(&self) -> (r: &'static str)
        ensures
            r@ == self.name(),
    {
        match self {
            VcsType::Bzr => "bzr",
            VcsType::Git => "git",
        }
    }

    /// How the kind is written, as a text of its own.
    pub fn to_string(&self) -> (r: String)
        ensures
            r@ == self.name(),
    {
        String::from_str(self.as_str())
    }

    /// The kind that is written `s`. Any other text than `bzr` and `git` is
    /// answered with a message that names it.
    pub fn from_str(s: &str) -> (r: Result<VcsType, String>)
        ensures
            (match r {
                Ok(kind) => Ok(kind),
                Err(message) => Err(message@),
            }) == parse_vcs_type(s@),
    {
        if same_text(s, "bzr") {
            Ok(VcsType::Bzr)
        } else if same_text(s, "git") {
            Ok(VcsType::Git)
        } else {
            let mut message = String::from_str("Unknown VCS type: ");
            message.append(s);
            Err(message)
        }
    }
}

/// Writing a kind and reading it back gives the same kind, and the two kinds
/// are written differently.
pub proof fn lemma_vcs_type_round_trip(kind: VcsType)
    ensures
        parse_vcs_type(kind.name()) == Ok::<VcsType, Seq<char>>(kind),
        VcsType::Bzr.name() != VcsType::Git.name(),
{
    reveal_strlit("bzr");
    reveal_strlit("git");
    assert("bzr"@[0] != "git"@[0]);
}

/// A text is read as a kind only if it is how that kind is written.
pub proof fn lemma_vcs_type_parse_is_exact(text: Seq<char>)
    ensures
        parse_vcs_type(text) matches Ok(kind) ==> kind.name() == text,
        parse_vcs_type(text) is Err <==> text != VcsType::Bzr.name() && text != VcsType::Git.name(),
{
}

/// The kind of version control of a branch, by the abbreviation that its
/// repository gives for its version control. A repository that gives none is
/// Bazaar's own.
pub open spec fn branch_vcs_type(abbreviation: Option<Seq<char>>) -> Result<VcsType, Seq<char>> {
    match abbreviation {
        Some(abbreviation) => parse_vcs_type(abbreviation),
        None => Ok(VcsType::Bzr),
    }
}

/// The kind of version control of a branch whose repository gives
/// `abbreviation` for its version control, or gives none. An abbreviation
/// that is neither `bzr` nor `git` is answered with a message that names it.
pub fn get_branch_vcs_type(abbreviation: Option<&str>) -> (r: Result<VcsType, String>)
    ensures
        (match r {
            Ok(kind) => Ok(kind),
            Err(message) => Err(message@),
        }) == branch_vcs_type(
            match abbreviation {
                Some(abbreviation) => Some(abbreviation@),
                None => None,
            },
        ),
{
    match abbreviation {
        Some(abbreviation) => VcsType::from_str(abbreviation),
        None => Ok(VcsType::Bzr),
    }
}

/// Whether `text` is one of the texts of `table`.
pub open spec fn is_one_of(text: Seq<char>, table: Seq<&'static str>) -> bool {
    exists|i: int| 0 <= i < table.len() && #[trigger] table[i]@ == text
}

/// Whether `text` is one of the texts of `table`.
pub fn one_of(text: &str, table: &Vec<&'static str>) -> (r: bool)
    ensures
        r == is_one_of(text@, table@),
{
    let mut index: usize = 0;
    while index < table.len()
        invariant
            index <= table.len(),
            forall|i: int| 0 <= i < index ==> #[trigger] table@[i]@ != text@,
        decreases table.len() - index,
    {
        if same_text(text, table[index]) {
            return true;
        }
        index += 1;
    }
    false
}

/// The schemes over which a URL is reached by logging in.
pub open spec fn authenticated_schemes() -> Seq<&'static str> {
    seq!["git+ssh", "bzr+ssh"]
}

/// The hosts of Alioth, the hosting service that was switched off.
pub open spec fn alioth_hosts() -> Seq<&'static str> {
    seq![
        "svn.debian.org",
        "bzr.debian.org",
        "anonscm.debian.org",
        "hg.debian.org",
        "git.debian.org",
        "alioth.debian.org",
    ]
}

/// The schemes over which a URL is reached by logging in.
pub fn authenticated_scheme_table() -> (r: Vec<&'static str>)
    ensures
        r@ == authenticated_schemes(),
{
    let mut table: Vec<&'static str> = Vec::new();
    table.push("git+ssh");
    table.push("bzr+ssh");
    assert(table@ =~= authenticated_schemes());
    table
}

/// The hosts of Alioth.
pub fn alioth_host_table() -> (r: Vec<&'static str>)
    ensures
        r@ == alioth_hosts(),
{
    let mut table: Vec<&'static str> = Vec::new();
    table.push("svn.debian.org");
    table.push("bzr.debian.org");
    table.push("anonscm.debian.org");
    table.push("hg.debian.org");
    table.push("git.debian.org");
    table.push("alioth.debian.org");
    assert(table@ =~= alioth_hosts());
    table
}

/// Whether a URL with these parts is reached by logging in: by its scheme alone.
pub open spec fn authenticated_url(url: UrlView) -> bool {
    is_one_of(url.scheme, authenticated_schemes())
}

/// Whether `url` is reached by logging in.
pub fn is_authenticated_url(url: &Url) -> (r: bool)
    ensures
        r == authenticated_url(url@),
{
    one_of(url.scheme(), &authenticated_scheme_table())
}

/// Whether a URL with these parts points at Alioth: by its host alone.
pub open spec fn alioth_url(url: UrlView) -> bool {
    match url.host {
        Some(host) => is_one_of(host, alioth_hosts()),
        None => false,
    }
}

/// Whether `url` points at Alioth.
pub fn is_alioth_url(url: &Url) -> (r: bool)
    ensures
        r == alioth_url(url@),
{
    match url.host_str() {
        Some(host) => one_of(host, &alioth_host_table()),
        None => false,
    }
}

} // verus!
