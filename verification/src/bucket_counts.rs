//! A finite map from bucket name to a count, kept as a list of entries
//! in which no name occurs twice.

use vstd::prelude::*;

verus! {

/// Proposal counts per bucket.
#[derive(Debug)]
pub struct BucketCounts {
    entries: Vec<(String, usize)>,
}

/// The names of `entries`, in order.
pub open spec fn names_of(entries: Seq<(String, usize)>) -> Seq<Seq<char>> {
    Seq::new(entries.len(), |i: int| entries[i].0@)
}

impl View for BucketCounts {
    type V = Map<Seq<char>, usize>;

    /// The count of every bucket that has an entry.
    closed spec fn view(&self) -> Map<Seq<char>, usize> {
        Map::new(
            |name: Seq<char>| self.names().contains(name),
            |name: Seq<char>| self.entries@[self.names().index_of(name)].1,
        )
    }
}

impl BucketCounts {
    #[verifier::type_invariant]
    spec fn no_name_twice(&self) -> bool {
        names_of(self.entries@).no_duplicates()
    }

    /// The bucket names in the order in which `name_at` hands them out.
    pub closed spec fn names(&self) -> Seq<Seq<char>> {
        names_of(self.entries@)
    }

    /// The buckets with an entry are exactly the listed names.
    pub proof fn lemma_names_are_domain(&self)
        ensures
            forall|name: Seq<char>| self@.contains_key(name) <==> self.names().contains(name),
            self@.dom().finite(),
    {
        assert(self@.dom() =~= self.names().to_set());
        vstd::seq_lib::seq_to_set_is_finite(self.names());
    }

    /// A map without entries.
    pub fn new() -> (r: Self)
        ensures
            r@ == Map::<Seq<char>, usize>::empty(),
            r.names() == Seq::<Seq<char>>::empty(),
    {
        let r = BucketCounts { entries: Vec::new() };
        assert(r@ =~= Map::<Seq<char>, usize>::empty());
        assert(r.names() =~= Seq::<Seq<char>>::empty());
        r
    }

    /// The number of buckets with an entry.
    pub fn len(&self) -> (r: usize)
        ensures
            r == self.names().len(),
            r == self@.dom().len(),
            self.names().no_duplicates(),
    {
        proof {
            use_type_invariant(self);
            self.lemma_names_are_domain();
            assert(self@.dom() =~= self.names().to_set());
            self.names().unique_seq_to_set();
        }
        self.entries.len()
    }

    /// The name of the entry at `index`.
    pub fn name_at(&self, index: usize) -> (r: &str)
        requires
            index < self.names().len(),
        ensures
            r@ == self.names()[index as int],
            self@.contains_key(r@),
    {
        assert(self.names().contains(self.names()[index as int]));
        self.entries[index].0.as_str()
    }

    /// The count of the entry at `index`.
    pub fn count_at(&self, index: usize) -> (r: usize)
        requires
            index < self.names().len(),
        ensures
            self@.contains_key(self.names()[index as int]),
            r == self@[self.names()[index as int]],
    {
        proof {
            use_type_invariant(self);
            let name = self.names()[index as int];
            assert(self.names().contains(name));
            assert(self.names().index_of(name) == index);
        }
        self.entries[index].1
    }

    /// Where the entry of `name` stands, if it has one.
    fn position(&self, name: &str) -> (r: Option<usize>)
        ensures
            match r {
                Some(index) => index < self.names().len() && self.names()[index as int] == name@,
                None => !self.names().contains(name@),
            },
    {
        let mut index: usize = 0;
        while index < self.entries.len()
            invariant
                index <= self.entries.len(),
                forall|j: int| 0 <= j < index ==> self.names()[j] != name@,
            decreases self.entries.len() - index,
        {
            if crate::text::same_text(self.entries[index].0.as_str(), name) {
                return Some(index);
            }
            index += 1;
        }
        None
    }

    /// The count of `name`, if it has an entry.
    pub fn get(&self, name: &str) -> (r: Option<usize>)
        ensures
            r == (if self@.contains_key(name@) {
                Some(self@[name@])
            } else {
                None
            }),
    {
        match self.position(name) {
            Some(index) => {
                proof {
                    use_type_invariant(self);
                    assert(self.names().contains(name@));
                    assert(self.names().index_of(name@) == index);
                }
                Some(self.entries[index].1)
            },
            None => None,
        }
    }

    /// Sets the count of `name`, whether or not it had one.
    pub fn insert(&mut self, name: &str, count: usize)
        ensures
            final(self)@ == old(self)@.insert(name@, count),
    {
        proof {
            use_type_invariant(&*self);
        }
        let found = self.position(name);
        let mut entries: Vec<(String, usize)> = Vec::new();
        core::mem::swap(&mut self.entries, &mut entries);
        let ghost before = entries@;
        match found {
            Some(index) => {
                entries.set(index, (String::from_str(name), count));
                proof {
                    assert(names_of(entries@) =~= names_of(before));
                }
            },
            None => {
                entries.push((String::from_str(name), count));
                proof {
                    assert(names_of(entries@) =~= names_of(before).push(name@));
                }
            },
        }
        core::mem::swap(&mut self.entries, &mut entries);
        proof {
            let at = match found {
                Some(index) => index as int,
                None => before.len() as int,
            };
            assert(self.names()[at] == name@);
            assert(self.names().contains(name@));
            assert(self.names().index_of(name@) == at);
            assert forall|other: Seq<char>| #[trigger]
                old(self).names().contains(other) && other != name@ implies self.names().contains(
                other,
            ) && self.names().index_of(other) == old(self).names().index_of(other) by {
                let was = old(self).names().index_of(other);
                assert(self.names()[was] == other);
            }
            assert forall|other: Seq<char>| #[trigger]
                self.names().contains(other) && other != name@ implies old(self).names().contains(
                other,
            ) by {
                let now = self.names().index_of(other);
                assert(old(self).names()[now] == other);
            }
            assert(self@ =~= old(self)@.insert(name@, count));
        }
    }
}

impl Clone for BucketCounts {
    fn clone(&self) -> (r: Self)
        ensures
            r@ == self@,
            r.names() == self.names(),
    {
        proof {
            use_type_invariant(self);
        }
        let mut entries: Vec<(String, usize)> = Vec::new();
        let mut index: usize = 0;
        while index < self.entries.len()
            invariant
                index <= self.entries.len(),
                names_of(entries@) == names_of(self.entries@).take(index as int),
                entries@.len() == index,
                forall|j: int| 0 <= j < index ==> entries@[j].1 == self.entries@[j].1,
            decreases self.entries.len() - index,
        {
            entries.push((self.entries[index].0.clone(), self.entries[index].1));
            proof {
                assert(names_of(entries@) =~= names_of(self.entries@).take(index + 1));
            }
            index += 1;
        }
        proof {
            assert(names_of(self.entries@).take(index as int) =~= names_of(self.entries@));
        }
        let r = BucketCounts { entries };
        proof {
            assert(r.names() == self.names());
            assert(r@ =~= self@);
        }
        r
    }
}

} // verus!
