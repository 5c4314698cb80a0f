//! The resources that every grant and every revocation fans out over.

use vstd::prelude::*;

verus! {

/// The texts of a sequence of strings.
pub open spec fn texts(strings: Seq<String>) -> Seq<Seq<char>> {
    Seq::new(strings.len(), |i: int| strings[i]@)
}

/// A sequence of ids without its repetitions: each id stands where it first
/// occurred.
pub open spec fn first_occurrences(ids: Seq<Seq<char>>) -> Seq<Seq<char>>
    decreases ids.len(),
{
    if ids.len() == 0 {
        Seq::empty()
    } else {
        let before = first_occurrences(ids.drop_last());
        if before.contains(ids.last()) {
            before
        } else {
            before.push(ids.last())
        }
    }
}

/// Dropping repetitions keeps exactly the ids that were there, each once.
pub proof fn lemma_first_occurrences(ids: Seq<Seq<char>>)
    ensures
        first_occurrences(ids).no_duplicates(),
        forall|id: Seq<char>| first_occurrences(ids).contains(id) <==> ids.contains(id),
        first_occurrences(ids).len() <= ids.len(),
        ids.len() > 0 ==> first_occurrences(ids).len() > 0,
    decreases ids.len(),
{
    if ids.len() > 0 {
        let shorter = ids.drop_last();
        let before = first_occurrences(shorter);
        lemma_first_occurrences(shorter);
        let now = first_occurrences(ids);
        assert forall|id: Seq<char>| now.contains(id) <==> ids.contains(id) by {
            if ids.contains(id) {
                let i = choose|i: int| 0 <= i < ids.len() && ids[i] == id;
                if i < ids.len() - 1 {
                    assert(shorter[i] == id);
                    assert(shorter.contains(id));
                    assert(before.contains(id));
                    let k = choose|k: int| 0 <= k < before.len() && before[k] == id;
                    assert(now[k] == id);
                } else if before.contains(id) {
                } else {
                    assert(now[now.len() - 1] == id);
                }
            }
            if now.contains(id) {
                let k = choose|k: int| 0 <= k < now.len() && now[k] == id;
                if k < before.len() {
                    assert(before[k] == id);
                    assert(before.contains(id));
                    assert(shorter.contains(id));
                    let i = choose|i: int| 0 <= i < shorter.len() && shorter[i] == id;
                    assert(ids[i] == id);
                } else {
                    assert(ids[ids.len() - 1] == id);
                }
            }
        }
    }
}

/// A sequence in which nothing repeats is its own sequence of first
/// occurrences.
pub proof fn lemma_first_occurrences_of_distinct(ids: Seq<Seq<char>>)
    requires
        ids.no_duplicates(),
    ensures
        first_occurrences(ids) == ids,
    decreases ids.len(),
{
    if ids.len() > 0 {
        let shorter = ids.drop_last();
        lemma_first_occurrences_of_distinct(shorter);
        if shorter.contains(ids.last()) {
            let i = choose|i: int| 0 <= i < shorter.len() && shorter[i] == ids.last();
            assert(ids[i] == ids[ids.len() - 1]);
        }
        assert(shorter.push(ids.last()) =~= ids);
    }
}

/// Whether `id` is among `ids`.
fn holds(ids: &Vec<String>, id: &String) -> (found: bool)
    ensures
        found == texts(ids@).contains(id@),
{
    let mut i: usize = 0;
    while i < ids.len()
        invariant
            i <= ids.len(),
            forall|j: int| 0 <= j < i ==> texts(ids@)[j] != id@,
        decreases ids.len() - i,
    {
        if ids[i] == *id {
            assert(texts(ids@)[i as int] == id@);
            return true;
        }
        i += 1;
    }
    false
}

/// Copies a list of ids.
pub(crate) fn copy_ids(ids: &Vec<String>) -> (copy: Vec<String>)
    ensures
        texts(copy@) == texts(ids@),
{
    let mut copy: Vec<String> = Vec::new();
    let mut i: usize = 0;
    while i < ids.len()
        invariant
            i <= ids.len(),
            texts(copy@) == texts(ids@).take(i as int),
        decreases ids.len() - i,
    {
        let ghost before = texts(copy@);
        copy.push(ids[i].clone());
        assert(texts(copy@) == before.push(ids[i as int]@));
        assert(texts(ids@).take(i + 1) == before.push(ids[i as int]@));
        i += 1;
    }
    assert(texts(ids@).take(ids.len() as int) == texts(ids@));
    copy
}

/// An ordered, non-empty set of resource ids.
#[derive(Debug, PartialEq, Eq)]
pub struct TargetResourceSet {
    ids: Vec<String>,
}

impl View for TargetResourceSet {
    type V = Seq<Seq<char>>;

    closed spec fn view(&self) -> Seq<Seq<char>> {
        texts(self.ids@)
    }
}

impl TargetResourceSet {
    #[verifier::type_invariant]
    spec fn well_formed(self) -> bool {
        self.ids.len() > 0 && texts(self.ids@).no_duplicates()
    }

    /// Makes the set of the ids given, in the order in which each first
    /// occurs. There is no empty set: without ids there is no result.
    pub fn new(ids: &Vec<String>) -> (set: Option<TargetResourceSet>)
        ensures
            set is None <==> ids.len() == 0,
            set matches Some(targets) ==> targets@ == first_occurrences(texts(ids@)),
    {
        let mut kept: Vec<String> = Vec::new();
        let mut i: usize = 0;
        while i < ids.len()
            invariant
                i <= ids.len(),
                texts(kept@) == first_occurrences(texts(ids@).take(i as int)),
            decreases ids.len() - i,
        {
            let ghost seen = texts(ids@).take(i as int);
            let ghost next = texts(ids@).take(i + 1);
            assert(next.drop_last() == seen);
            assert(next.last() == ids[i as int]@);
            if !holds(&kept, &ids[i]) {
                let ghost before = texts(kept@);
                kept.push(ids[i].clone());
                assert(texts(kept@) == before.push(ids[i as int]@));
            }
            i += 1;
        }
        proof {
            assert(texts(ids@).take(ids.len() as int) == texts(ids@));
            lemma_first_occurrences(texts(ids@));
        }
        if kept.len() == 0 {
            None
        } else {
            Some(TargetResourceSet { ids: kept })
        }
    }

    /// A copy of this set.
    pub fn duplicate(&self) -> (copy: TargetResourceSet)
        ensures
            copy@ == self@,
    {
        proof {
            use_type_invariant(self);
        }
        let ids = copy_ids(&self.ids);
        assert(ids.len() == texts(ids@).len());
        TargetResourceSet { ids }
    }

    /// The ids, in order: at least one, and none twice.
    pub fn ids(&self) -> (ids: &Vec<String>)
        ensures
            texts(ids@) == self@,
            ids.len() > 0,
            self@.no_duplicates(),
    {
        proof {
            use_type_invariant(self);
        }
        &self.ids
    }
}

} // verus!
