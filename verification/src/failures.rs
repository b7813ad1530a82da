//! The failures of one batch: for each source path that failed, the message
//! of its failure.

use vstd::prelude::*;

verus! {

/// The map that a sequence of `(path, message)` pairs stands for. A later
/// pair replaces an earlier one with the same path.
pub open spec fn map_of(pairs: Seq<(Seq<char>, Seq<char>)>) -> Map<Seq<char>, Seq<char>>
    decreases pairs.len(),
{
    if pairs.len() == 0 {
        Map::empty()
    } else {
        map_of(pairs.drop_last()).insert(pairs.last().0, pairs.last().1)
    }
}

/// No path stands twice in `pairs`.
pub open spec fn distinct_paths(pairs: Seq<(Seq<char>, Seq<char>)>) -> bool {
    forall|i: int, j: int| 0 <= i < j < pairs.len() ==> pairs[i].0 != pairs[j].0
}

/// A path is in the map exactly if some pair carries it.
pub proof fn lemma_map_of_dom(pairs: Seq<(Seq<char>, Seq<char>)>, path: Seq<char>)
    ensures
        map_of(pairs).dom().contains(path) <==> exists|i: int|
            0 <= i < pairs.len() && #[trigger] pairs[i].0 == path,
    decreases pairs.len(),
{
    if pairs.len() > 0 {
        let init = pairs.drop_last();
        lemma_map_of_dom(init, path);
        if map_of(pairs).dom().contains(path) {
            if pairs.last().0 == path {
                assert(pairs[pairs.len() - 1].0 == path);
            } else {
                let i = choose|i: int| 0 <= i < init.len() && #[trigger] init[i].0 == path;
                assert(pairs[i].0 == path);
            }
        }
        if exists|i: int| 0 <= i < pairs.len() && #[trigger] pairs[i].0 == path {
            let i = choose|i: int| 0 <= i < pairs.len() && #[trigger] pairs[i].0 == path;
            if i < pairs.len() - 1 {
                assert(init[i].0 == path);
            }
        }
    }
}

/// With distinct paths, each pair's message is the one the map holds.
pub proof fn lemma_map_of_index(pairs: Seq<(Seq<char>, Seq<char>)>, i: int)
    requires
        distinct_paths(pairs),
        0 <= i < pairs.len(),
    ensures
        map_of(pairs).dom().contains(pairs[i].0),
        map_of(pairs)[pairs[i].0] == pairs[i].1,
    decreases pairs.len(),
{
    let init = pairs.drop_last();
    if i < pairs.len() - 1 {
        assert(distinct_paths(init)) by {
            assert forall|a: int, b: int| 0 <= a < b < init.len() implies init[a].0 != init[b].0 by {
                assert(pairs[a].0 != pairs[b].0);
            }
        }
        lemma_map_of_index(init, i);
        assert(init[i] == pairs[i]);
        assert(pairs[i].0 != pairs[pairs.len() - 1].0);
    }
}

/// Replacing the message of the pair at `i` is an insertion under its path.
pub proof fn lemma_map_of_update(pairs: Seq<(Seq<char>, Seq<char>)>, i: int, message: Seq<char>)
    requires
        distinct_paths(pairs),
        0 <= i < pairs.len(),
    ensures
        distinct_paths(pairs.update(i, (pairs[i].0, message))),
        map_of(pairs.update(i, (pairs[i].0, message))) == map_of(pairs).insert(
            pairs[i].0,
            message,
        ),
    decreases pairs.len(),
{
    let path = pairs[i].0;
    let updated = pairs.update(i, (path, message));
    let init = pairs.drop_last();
    assert(distinct_paths(updated)) by {
        assert forall|a: int, b: int| 0 <= a < b < updated.len() implies updated[a].0
            != updated[b].0 by {
            assert(pairs[a].0 != pairs[b].0);
        }
    }
    if i == pairs.len() - 1 {
        assert(updated.drop_last() == init);
        assert(map_of(updated) == map_of(pairs).insert(path, message));
    } else {
        assert(distinct_paths(init)) by {
            assert forall|a: int, b: int| 0 <= a < b < init.len() implies init[a].0 != init[b].0 by {
                assert(pairs[a].0 != pairs[b].0);
            }
        }
        lemma_map_of_update(init, i, message);
        assert(init[i] == pairs[i]);
        assert(updated.drop_last() == init.update(i, (path, message)));
        assert(updated.last() == pairs.last());
        assert(pairs[i].0 != pairs[pairs.len() - 1].0);
        assert(map_of(updated) == map_of(pairs).insert(path, message));
    }
}

/// The failures of one batch, keyed by source path.
#[derive(Debug)]
pub struct ConversionErrors {
    entries: Vec<(String, String)>,
}

impl ConversionErrors {
    /// The pairs in the order in which their paths first failed.
    pub closed spec fn pairs(&self) -> Seq<(Seq<char>, Seq<char>)> {
        Seq::new(self.entries@.len(), |i: int| (self.entries@[i].0@, self.entries@[i].1@))
    }

    #[verifier::type_invariant]
    spec fn distinct(&self) -> bool {
        distinct_paths(self.pairs())
    }

    /// An empty map.
    pub fn new() -> (errors: Self)
        ensures
            errors@ == Map::<Seq<char>, Seq<char>>::empty(),
            errors.pairs().len() == 0,
    {
        let errors = ConversionErrors { entries: Vec::new() };
        assert(errors.pairs() =~= Seq::empty());
        errors
    }

    /// The number of paths that failed.
    pub fn len(&self) -> (n: usize)
        ensures
            n == self.pairs().len(),
    {
        self.entries.len()
    }

    /// The position of `path` among the pairs.
    fn position(&self, path: &str) -> (found: Option<usize>)
        ensures
            match found {
                Some(i) => i < self.pairs().len() && self.pairs()[i as int].0 == path@,
                None => forall|i: int| 0 <= i < self.pairs().len() ==> self.pairs()[i].0 != path@,
            },
    {
        let wanted = path.to_owned();
        let mut i: usize = 0;
        while i < self.entries.len()
            invariant
                i <= self.entries.len(),
                wanted@ == path@,
                forall|j: int| 0 <= j < i ==> self.pairs()[j].0 != path@,
            decreases self.entries.len() - i,
        {
            if self.entries[i].0 == wanted {
                return Some(i);
            }
            i += 1;
        }
        None
    }

    /// Whether `path` has a failure on record.
    pub fn contains(&self, path: &str) -> (found: bool)
        ensures
            found == self@.dom().contains(path@),
    {
        proof {
            lemma_map_of_dom(self.pairs(), path@);
        }
        self.position(path).is_some()
    }

    /// The message on record for `path`.
    pub fn get(&self, path: &str) -> (message: Option<&String>)
        ensures
            match message {
                Some(m) => self@.dom().contains(path@) && self@[path@] == m@,
                None => !self@.dom().contains(path@),
            },
    {
        proof {
            use_type_invariant(self);
            lemma_map_of_dom(self.pairs(), path@);
        }
        match self.position(path) {
            Some(i) => {
                proof {
                    lemma_map_of_index(self.pairs(), i as int);
                }
                Some(&self.entries[i].1)
            },
            None => None,
        }
    }

    /// The pair at `index`, in the order in which the paths first failed.
    pub fn get_index(&self, index: usize) -> (pair: Option<(&String, &String)>)
        ensures
            match pair {
                Some((path, message)) => index < self.pairs().len() && self.pairs()[index as int]
                    == (path@, message@),
                None => index >= self.pairs().len(),
            },
    {
        if index < self.entries.len() {
            Some((&self.entries[index].0, &self.entries[index].1))
        } else {
            None
        }
    }

    /// Records that `path` failed with `message`. A message already on
    /// record for `path` is replaced and keeps its place.
    pub fn insert(&mut self, path: String, message: String)
        ensures
            final(self)@ == old(self)@.insert(path@, message@),
            old(self)@.dom().contains(path@) ==> exists|i: int|
                0 <= i < old(self).pairs().len() && #[trigger] old(self).pairs()[i].0 == path@
                    && final(self).pairs() == old(self).pairs().update(i, (path@, message@)),
            !old(self)@.dom().contains(path@) ==> final(self).pairs() == old(self).pairs().push(
                (path@, message@),
            ),
    {
        proof {
            use_type_invariant(&*self);
            lemma_map_of_dom(self.pairs(), path@);
        }
        let ghost before = self.pairs();
        let found = self.position(path.as_str());
        let mut entries: Vec<(String, String)> = Vec::new();
        core::mem::swap(&mut self.entries, &mut entries);
        let ghost moved = Seq::new(entries@.len(), |i: int| (entries@[i].0@, entries@[i].1@));
        assert(moved =~= before);
        match found {
            Some(i) => {
                entries.set(i, (path, message));
                proof {
                    lemma_map_of_update(before, i as int, message@);
                }
            },
            None => {
                entries.push((path, message));
                proof {
                    let after = before.push((path@, message@));
                    assert(after.drop_last() =~= before);
                    assert forall|a: int, b: int| 0 <= a < b < after.len() implies after[a].0
                        != after[b].0 by {
                        if b < before.len() {
                            assert(before[a].0 != before[b].0);
                        }
                    }
                }
            },
        }
        let ghost after = Seq::new(entries@.len(), |i: int| (entries@[i].0@, entries@[i].1@));
        assert(found is Some ==> after =~= before.update(found->0 as int, (path@, message@)));
        assert(found is None ==> after =~= before.push((path@, message@)));
        core::mem::swap(&mut self.entries, &mut entries);
        assert(self.pairs() =~= after);
    }

} // impl

impl View for ConversionErrors {
    type V = Map<Seq<char>, Seq<char>>;

    closed spec fn view(&self) -> Map<Seq<char>, Seq<char>> {
        map_of(self.pairs())
    }
}

} // verus!
