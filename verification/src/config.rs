//! The static configuration, as far as the library reads it: where the
//! codebases of each kind of version control are kept, and the distributions
//! and campaigns by name.

use crate::text::{same_text, text_view};
use vstd::prelude::*;

verus! {

/// A distribution that changes are built for.
#[derive(Debug)]
pub struct Distribution {
    pub name: Option<String>,
}

/// A campaign: one kind of change that is proposed to many codebases.
#[derive(Debug)]
pub struct Campaign {
    pub name: Option<String>,
    /// The name of the branch that the campaign's changes are pushed to.
    pub branch_name: Option<String>,
}

/// The static configuration.
#[derive(Debug)]
pub struct Config {
    /// Where the git codebases are kept: a URL.
    pub git_location: Option<String>,
    /// Where the Bazaar codebases are kept: a URL.
    pub bzr_location: Option<String>,
    /// Where the database is.
    pub database_location: Option<String>,
    pub distribution: Vec<Distribution>,
    pub campaign: Vec<Campaign>,
}

/// What a search through named items comes to.
pub enum Search {
    /// The item at this place is the first with the wanted name.
    Found(int),
    /// Every item has a name, and none the wanted one.
    Absent,
    /// The item at this place has no name, and none before it the wanted one.
    Nameless(int),
}

/// The search for `wanted` through `names`, from the first on.
pub open spec fn search(names: Seq<Option<Seq<char>>>, wanted: Seq<char>) -> Search
    decreases names.len(),
{
    if names.len() == 0 {
        Search::Absent
    } else {
        match search(names.drop_last(), wanted) {
            Search::Absent => match names.last() {
                Some(name) => if name == wanted {
                    Search::Found(names.len() - 1)
                } else {
                    Search::Absent
                },
                None => Search::Nameless(names.len() - 1),
            },
            earlier => earlier,
        }
    }
}

/// The names of `distributions`, in order.
pub open spec fn distribution_names(distributions: Seq<Distribution>) -> Seq<Option<Seq<char>>> {
    Seq::new(distributions.len(), |i: int| text_view(distributions[i].name))
}

/// The names of `campaigns`, in order.
pub open spec fn campaign_names(campaigns: Seq<Campaign>) -> Seq<Option<Seq<char>>> {
    Seq::new(campaigns.len(), |i: int| text_view(campaigns[i].name))
}

/// The place of the first campaign of `campaigns` that pushes to `branch_name`.
pub open spec fn first_with_branch(campaigns: Seq<Campaign>, branch_name: Seq<char>) -> Option<int>
    decreases campaigns.len(),
{
    if campaigns.len() == 0 {
        None
    } else {
        match first_with_branch(campaigns.drop_last(), branch_name) {
            Some(index) => Some(index),
            None => if text_view(campaigns.last().branch_name) == Some(branch_name) {
                Some(campaigns.len() - 1)
            } else {
                None
            },
        }
    }
}

impl Config {
    /// Whether `get_distribution` can be called with `name`: whether every
    /// distribution up to the first with that name, or every one where there
    /// is none, has a name.
    pub fn can_get_distribution(&self, name: &str) -> (r: bool)
        ensures
            r == !(search(distribution_names(self.distribution@), name@) is Nameless),
    {
        let ghost names = distribution_names(self.distribution@);
        let mut index: usize = 0;
        while index < self.distribution.len()
            invariant
                index <= self.distribution.len(),
                names == distribution_names(self.distribution@),
                search(names.take(index as int), name@) is Absent,
            decreases self.distribution.len() - index,
        {
            proof {
                assert(names.take(index + 1).drop_last() =~= names.take(index as int));
                lemma_search_stays(names, name@, index + 1);
            }
            match &self.distribution[index].name {
                Some(found) => {
                    if same_text(found.as_str(), name) {
                        return true;
                    }
                },
                None => {
                    return false;
                },
            }
            index += 1;
        }
        proof {
            assert(names.take(index as int) =~= names);
        }
        true
    }

    /// Whether `get_campaign` can be called with `name`: whether every
    /// campaign up to the first with that name, or every one where there is
    /// none, has a name.
    pub fn can_get_campaign(&self, name: &str) -> (r: bool)
        ensures
            r == !(search(campaign_names(self.campaign@), name@) is Nameless),
    {
        let ghost names = campaign_names(self.campaign@);
        let mut index: usize = 0;
        while index < self.campaign.len()
            invariant
                index <= self.campaign.len(),
                names == campaign_names(self.campaign@),
                search(names.take(index as int), name@) is Absent,
            decreases self.campaign.len() - index,
        {
            proof {
                assert(names.take(index + 1).drop_last() =~= names.take(index as int));
                lemma_search_stays(names, name@, index + 1);
            }
            match &self.campaign[index].name {
                Some(found) => {
                    if same_text(found.as_str(), name) {
                        return true;
                    }
                },
                None => {
                    return false;
                },
            }
            index += 1;
        }
        proof {
            assert(names.take(index as int) =~= names);
        }
        true
    }

    /// Whether `find_campaign_by_branch_name` can be called with
    /// `branch_name`: whether the first campaign that pushes to the branch, if
    /// there is one, has a name.
    pub fn can_find_campaign_by_branch_name(&self, branch_name: &str) -> (r: bool)
        ensures
            r == (first_with_branch(self.campaign@, branch_name@) matches Some(index)
                ==> self.campaign@[index].name is Some),
    {
        let mut index: usize = 0;
        while index < self.campaign.len()
            invariant
                index <= self.campaign.len(),
                first_with_branch(self.campaign@.take(index as int), branch_name@) is None,
            decreases self.campaign.len() - index,
        {
            proof {
                assert(self.campaign@.take(index + 1).drop_last() =~= self.campaign@.take(
                    index as int,
                ));
                lemma_first_with_branch_stays(self.campaign@, branch_name@, index + 1);
            }
            match &self.campaign[index].branch_name {
                Some(pushed_to) => {
                    if same_text(branch_name, pushed_to.as_str()) {
                        return self.campaign[index].name.is_some();
                    }
                },
                None => {},
            }
            index += 1;
        }
        proof {
            assert(self.campaign@.take(index as int) =~= self.campaign@);
        }
        true
    }

    /// The first distribution with the name `name`. Every distribution up to
    /// it, or every one where there is none, has to have a name.
    pub fn get_distribution(&self, name: &str) -> (r: Option<&Distribution>)
        requires
            !(search(distribution_names(self.distribution@), name@) is Nameless),
        ensures
            match search(distribution_names(self.distribution@), name@) {
                Search::Found(index) => 0 <= index < self.distribution@.len() && r == Some(
                    &self.distribution@[index],
                ),
                _ => r is None,
            },
    {
        let ghost names = distribution_names(self.distribution@);
        let mut index: usize = 0;
        while index < self.distribution.len()
            invariant
                index <= self.distribution.len(),
                names == distribution_names(self.distribution@),
                !(search(names, name@) is Nameless),
                search(names.take(index as int), name@) is Absent,
            decreases self.distribution.len() - index,
        {
            proof {
                assert(names.take(index + 1).drop_last() =~= names.take(index as int));
                lemma_search_stays(names, name@, index + 1);
            }
            match &self.distribution[index].name {
                Some(found) => {
                    if same_text(found.as_str(), name) {
                        return Some(&self.distribution[index]);
                    }
                },
                None => {},
            }
            index += 1;
        }
        proof {
            assert(names.take(index as int) =~= names);
        }
        None
    }

    /// The first campaign with the name `name`. Every campaign up to it, or
    /// every one where there is none, has to have a name.
    pub fn get_campaign(&self, name: &str) -> (r: Option<&Campaign>)
        requires
            !(search(campaign_names(self.campaign@), name@) is Nameless),
        ensures
            match search(campaign_names(self.campaign@), name@) {
                Search::Found(index) => 0 <= index < self.campaign@.len() && r == Some(
                    &self.campaign@[index],
                ),
                _ => r is None,
            },
    {
        let ghost names = campaign_names(self.campaign@);
        let mut index: usize = 0;
        while index < self.campaign.len()
            invariant
                index <= self.campaign.len(),
                names == campaign_names(self.campaign@),
                !(search(names, name@) is Nameless),
                search(names.take(index as int), name@) is Absent,
            decreases self.campaign.len() - index,
        {
            proof {
                assert(names.take(index + 1).drop_last() =~= names.take(index as int));
                lemma_search_stays(names, name@, index + 1);
            }
            match &self.campaign[index].name {
                Some(found) => {
                    if same_text(found.as_str(), name) {
                        return Some(&self.campaign[index]);
                    }
                },
                None => {},
            }
            index += 1;
        }
        proof {
            assert(names.take(index as int) =~= names);
        }
        None
    }

    /// The campaign that pushes to the branch `branch_name`, by its name, and
    /// the role that the branch has in it, which is always `main`. The first
    /// campaign that pushes to the branch has to have a name.
    pub fn find_campaign_by_branch_name(&self, branch_name: &str) -> (r: Option<(&str, &str)>)
        requires
            first_with_branch(self.campaign@, branch_name@) matches Some(index)
                ==> self.campaign@[index].name is Some,
        ensures
            match first_with_branch(self.campaign@, branch_name@) {
                Some(index) => {
                    &&& 0 <= index < self.campaign@.len()
                    &&& r is Some
                    &&& Some(r.unwrap().0@) == text_view(self.campaign@[index].name)
                    &&& r.unwrap().1@ == "main"@
                },
                None => r is None,
            },
    {
        let mut index: usize = 0;
        while index < self.campaign.len()
            invariant
                index <= self.campaign.len(),
                first_with_branch(self.campaign@, branch_name@) matches Some(index)
                    ==> self.campaign@[index].name is Some,
                first_with_branch(self.campaign@.take(index as int), branch_name@) is None,
            decreases self.campaign.len() - index,
        {
            proof {
                assert(self.campaign@.take(index + 1).drop_last() =~= self.campaign@.take(
                    index as int,
                ));
                lemma_first_with_branch_stays(self.campaign@, branch_name@, index + 1);
            }
            match &self.campaign[index].branch_name {
                Some(pushed_to) => {
                    if same_text(branch_name, pushed_to.as_str()) {
                        match &self.campaign[index].name {
                            Some(name) => {
                                return Some((name.as_str(), "main"));
                            },
                            None => {
                                assert(false);
                            },
                        }
                    }
                },
                None => {},
            }
            index += 1;
        }
        proof {
            assert(self.campaign@.take(index as int) =~= self.campaign@);
        }
        None
    }
}

/// A search that has ended among the first `upto` names ends the same way
/// among all of them.
proof fn lemma_search_stays(names: Seq<Option<Seq<char>>>, wanted: Seq<char>, upto: int)
    requires
        0 <= upto <= names.len(),
    ensures
        !(search(names.take(upto), wanted) is Absent) ==> search(names, wanted) == search(
            names.take(upto),
            wanted,
        ),
    decreases names.len() - upto,
{
    if upto < names.len() {
        assert(names.take(upto + 1).drop_last() =~= names.take(upto));
        lemma_search_stays(names, wanted, upto + 1);
    } else {
        assert(names.take(upto) =~= names);
    }
}

/// The first campaign with the branch is one of the campaigns.
proof fn lemma_first_with_branch_in_range(campaigns: Seq<Campaign>, branch_name: Seq<char>)
    ensures
        first_with_branch(campaigns, branch_name) matches Some(index) ==> 0 <= index
            < campaigns.len(),
    decreases campaigns.len(),
{
    if campaigns.len() > 0 {
        lemma_first_with_branch_in_range(campaigns.drop_last(), branch_name);
    }
}

/// A campaign that is the first with the branch among the first `upto`
/// campaigns is the first with it among all of them.
proof fn lemma_first_with_branch_stays(campaigns: Seq<Campaign>, branch_name: Seq<char>, upto: int)
    requires
        0 <= upto <= campaigns.len(),
    ensures
        first_with_branch(campaigns.take(upto), branch_name) is Some ==> first_with_branch(
            campaigns,
            branch_name,
        ) == first_with_branch(campaigns.take(upto), branch_name),
        first_with_branch(campaigns.take(upto), branch_name) matches Some(index) ==> 0 <= index
            < upto,
    decreases campaigns.len() - upto,
{
    lemma_first_with_branch_in_range(campaigns.take(upto), branch_name);
    if upto < campaigns.len() {
        assert(campaigns.take(upto + 1).drop_last() =~= campaigns.take(upto));
        lemma_first_with_branch_stays(campaigns, branch_name, upto + 1);
    } else {
        assert(campaigns.take(upto) =~= campaigns);
    }
}

} // verus!
