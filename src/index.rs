use vstd::prelude::*;

verus! {

/// Maps each content digest seen so far to the path of the first file that
/// had it. A key, once written, is never rewritten.
pub struct DuplicateIndex {
    entries: Vec<(String, String)>,
    model: Ghost<Map<Seq<char>, Seq<char>>>,
}

impl View for DuplicateIndex {
    type V = Map<Seq<char>, Seq<char>>;

    closed spec fn view(&self) -> Map<Seq<char>, Seq<char>> {
        self.model@
    }
}

impl DuplicateIndex {
    /// Every stored pair is in the model, and every key of the model is stored.
    pub closed spec fn wf(&self) -> bool {
        &&& forall|i: int|
            0 <= i < self.entries@.len() ==> {
                &&& #[trigger] self.model@.contains_key(self.entries@[i].0@)
                &&& self.model@[self.entries@[i].0@] == self.entries@[i].1@
            }
        &&& forall|k: Seq<char>|
            #[trigger] self.model@.contains_key(k) ==> exists|i: int|
                0 <= i < self.entries@.len() && self.entries@[i].0@ == k
    }

    /// An index with no digest in it.
    pub fn new() -> (r: DuplicateIndex)
        ensures
            r.wf(),
            r@ == Map::<Seq<char>, Seq<char>>::empty(),
    {
        DuplicateIndex { entries: Vec::new(), model: Ghost(Map::empty()) }
    }

    /// The path recorded for `digest`, if any.
    pub fn get(&self, digest: &String) -> (r: Option<String>)
        requires
            self.wf(),
        ensures
            match r {
                None => !self@.contains_key(digest@),
                Some(p) => self@.contains_key(digest@) && self@[digest@] == p@,
            },
    {
        let mut i: usize = 0;
        while i < self.entries.len()
            invariant
                self.wf(),
                i <= self.entries@.len(),
                forall|j: int| 0 <= j < i ==> self.entries@[j].0@ != digest@,
            decreases self.entries@.len() - i,
        {
            if self.entries[i].0 == *digest {
                return Some(self.entries[i].1.clone());
            }
            i = i + 1;
        }
        proof {
            if self.model@.contains_key(digest@) {
                let j = choose|j: int|
                    0 <= j < self.entries@.len() && self.entries@[j].0@ == digest@;
                assert(self.entries@[j].0@ != digest@);
            }
        }
        None
    }

    /// Records `path` as the first file with content `digest`.
    pub fn insert_new(&mut self, digest: String, path: String)
        requires
            old(self).wf(),
            !old(self)@.contains_key(digest@),
        ensures
            final(self).wf(),
            final(self)@ == old(self)@.insert(digest@, path@),
    {
        let ghost d = digest@;
        let ghost p = path@;
        let ghost old_entries = self.entries@;
        let ghost old_model = self.model@;
        self.entries.push((digest, path));
        self.model = Ghost(old_model.insert(d, p));
        proof {
            assert forall|i: int| 0 <= i < self.entries@.len() implies {
                &&& #[trigger] self.model@.contains_key(self.entries@[i].0@)
                &&& self.model@[self.entries@[i].0@] == self.entries@[i].1@
            } by {
                if i < old_entries.len() {
                    assert(self.entries@[i] == old_entries[i]);
                    assert(old_model.contains_key(old_entries[i].0@));
                } else {
                    assert(self.entries@[i].0@ == d);
                }
            }
            assert forall|k: Seq<char>| #[trigger] self.model@.contains_key(k) implies exists|i: int|
                0 <= i < self.entries@.len() && self.entries@[i].0@ == k by {
                if k == d {
                    assert(self.entries@[old_entries.len() as int].0@ == k);
                } else {
                    let i = choose|i: int| 0 <= i < old_entries.len() && old_entries[i].0@ == k;
                    assert(self.entries@[i] == old_entries[i]);
                }
            }
        }
    }
}

} // verus!
