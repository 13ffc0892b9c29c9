use vstd::prelude::*;
use vstd::pervasive::VecAdditionalExecFns;

use crate::record::{valid_title, Record, RecordModel};

verus! {

/// Whether some record of `s` carries the title `t`.
pub open spec fn has_title(s: Seq<RecordModel>, t: Seq<char>) -> bool {
    exists|i: int| 0 <= i < s.len() && s[i].title == t
}

/// Whether `i` is the position of the first record of `s` whose title
/// is `t`.
pub open spec fn is_first_match(s: Seq<RecordModel>, t: Seq<char>, i: int) -> bool {
    &&& 0 <= i < s.len()
    &&& s[i].title == t
    &&& forall|j: int| 0 <= j < i ==> s[j].title != t
}

/// The position of the first record of `s` whose title is `t`;
/// meaningful only when `has_title(s, t)` holds (see
/// [`lemma_first_match`]).
pub open spec fn first_match(s: Seq<RecordModel>, t: Seq<char>) -> int {
    choose|i: int| is_first_match(s, t, i)
}

/// Two positions that are both a first match are the same position.
pub proof fn lemma_first_match_unique(s: Seq<RecordModel>, t: Seq<char>, i: int, j: int)
    requires
        is_first_match(s, t, i),
        is_first_match(s, t, j),
    ensures
        i == j,
{
    if i < j {
        assert(s[i].title != t);
    }
    if j < i {
        assert(s[j].title != t);
    }
}

proof fn lemma_first_match_exists_below(s: Seq<RecordModel>, t: Seq<char>, k: int)
    requires
        0 <= k < s.len(),
        s[k].title == t,
    ensures
        exists|i: int| is_first_match(s, t, i),
    decreases k,
{
    if forall|j: int| 0 <= j < k ==> s[j].title != t {
        assert(is_first_match(s, t, k));
    } else {
        let j = choose|j: int| 0 <= j < k && s[j].title == t;
        lemma_first_match_exists_below(s, t, j);
    }
}

/// When some record of `s` carries the title `t`, `first_match(s, t)`
/// is the position of the first of them.
pub proof fn lemma_first_match(s: Seq<RecordModel>, t: Seq<char>)
    requires
        has_title(s, t),
    ensures
        is_first_match(s, t, first_match(s, t)),
{
    let k = choose|k: int| 0 <= k < s.len() && s[k].title == t;
    lemma_first_match_exists_below(s, t, k);
}

/// The in-memory ordered collection of records, insertion order
/// preserved. Its mathematical value is the sequence of its records'
/// values.
pub struct Store {
    records: Vec<Record>,
}

impl View for Store {
    type V = Seq<RecordModel>;

    closed spec fn view(&self) -> Seq<RecordModel> {
        self.records@.map_values(|r: Record| r@)
    }
}

impl Store {
    /// Every record held has passed validation.
    pub open spec fn wf(&self) -> bool {
        forall|i: int| 0 <= i < self@.len() ==> valid_title(#[trigger] self@[i].title)
    }

    /// A store starts out empty.
    pub fn new() -> (s: Store)
        ensures
            s@ == Seq::<RecordModel>::empty(),
            s.wf(),
    {
        let s = Store { records: Vec::new() };
        proof {
            assert(s@ =~= Seq::<RecordModel>::empty());
        }
        s
    }

    /// Appends `r` at the end of the collection, unconditionally: no
    /// uniqueness check is made, so a second record with the same title
    /// may be appended (mutation then always affects the first match).
    /// Returns a copy of the stored record.
    pub fn create(&mut self, r: Record) -> (out: Record)
        ensures
            final(self)@ == old(self)@.push(r@),
            out@ == r@,
            old(self).wf() && valid_title(r@.title) ==> final(self).wf(),
    {
        let out = r.clone();
        let ghost prev = self@;
        self.records.push(r);
        proof {
            assert(self@ =~= prev.push(out@));
        }
        out
    }

    /// Returns a snapshot of the collection, in insertion order.
    #[verifier::loop_isolation(false)]
    pub fn list(&self) -> (out: Vec<Record>)
        ensures
            out@.map_values(|r: Record| r@) == self@,
    {
        let mut out: Vec<Record> = Vec::new();
        let mut i: usize = 0;
        while i < self.records.len()
            invariant
                i <= self.records.len(),
                out@.map_values(|r: Record| r@) =~= self@.take(i as int),
            decreases self.records.len() - i,
        {
            out.push(self.records[i].clone());
            i += 1;
            proof {
                assert(out@.map_values(|r: Record| r@) =~= self@.take(i as int));
            }
        }
        proof {
            assert(out@.map_values(|r: Record| r@) =~= self@);
        }
        out
    }

    /// Replaces the first record whose title equals `r`'s title with
    /// `r`, in place, and returns a copy of the new value; returns
    /// `None`, changing nothing, when no title matches.
    #[verifier::loop_isolation(false)]
    pub fn update(&mut self, r: Record) -> (out: Option<Record>)
        ensures
            !has_title(old(self)@, r@.title) ==> {
                &&& out is None
                &&& final(self)@ == old(self)@
            },
            has_title(old(self)@, r@.title) ==> {
                &&& out matches Some(u) && u@ == r@
                &&& is_first_match(old(self)@, r@.title, first_match(old(self)@, r@.title))
                &&& final(self)@ == old(self)@.update(first_match(old(self)@, r@.title), r@)
            },
            old(self).wf() && valid_title(r@.title) ==> final(self).wf(),
    {
        let ghost prev = self@;
        let ghost t = r@.title;
        let mut i: usize = 0;
        while i < self.records.len()
            invariant
                i <= self.records.len(),
                self@ == prev,
                self.records@.map_values(|x: Record| x@) == prev,
                forall|j: int| 0 <= j < i ==> prev[j].title != t,
                t == r@.title,
            decreases self.records.len() - i,
        {
            if self.records[i].title == r.title {
                proof {
                    assert(is_first_match(prev, t, i as int));
                    lemma_first_match(prev, t);
                    lemma_first_match_unique(prev, t, i as int, first_match(prev, t));
                }
                let out = r.clone();
                self.records.set(i, r);
                proof {
                    assert(self@ =~= prev.update(i as int, out@));
                }
                return Some(out);
            }
            i += 1;
        }
        proof {
            assert(!has_title(prev, t));
        }
        None
    }

    /// Removes the first record whose title equals `r`'s title and
    /// returns whether one was found; the completion flag of `r` plays
    /// no part in the match. Removes nothing when no title matches.
    #[verifier::loop_isolation(false)]
    pub fn delete(&mut self, r: &Record) -> (found: bool)
        ensures
            !has_title(old(self)@, r@.title) ==> {
                &&& !found
                &&& final(self)@ == old(self)@
            },
            has_title(old(self)@, r@.title) ==> {
                &&& found
                &&& is_first_match(old(self)@, r@.title, first_match(old(self)@, r@.title))
                &&& final(self)@ == old(self)@.remove(first_match(old(self)@, r@.title))
            },
            old(self).wf() ==> final(self).wf(),
    {
        let ghost prev = self@;
        let ghost t = r@.title;
        let mut i: usize = 0;
        while i < self.records.len()
            invariant
                i <= self.records.len(),
                self@ == prev,
                self.records@.map_values(|x: Record| x@) == prev,
                forall|j: int| 0 <= j < i ==> prev[j].title != t,
                t == r@.title,
            decreases self.records.len() - i,
        {
            if self.records[i].title == r.title {
                proof {
                    assert(is_first_match(prev, t, i as int));
                    lemma_first_match(prev, t);
                    lemma_first_match_unique(prev, t, i as int, first_match(prev, t));
                }
                self.records.remove(i);
                proof {
                    assert(self@ =~= prev.remove(i as int));
                }
                return true;
            }
            i += 1;
        }
        proof {
            assert(!has_title(prev, t));
        }
        false
    }
}

} // verus!
