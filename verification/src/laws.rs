use vstd::prelude::*;

use crate::codec::json_record_of;
use crate::record::{valid_title, RecordModel};
use crate::router::{spec_create, spec_delete, spec_list, spec_update};
use crate::store::{first_match, has_title, is_first_match, lemma_first_match};

verus! {

/// Creating a valid record appends it: the answer is 200, every record
/// already held keeps its place, and a listing made afterwards shows
/// the new record at the end.
pub proof fn lemma_create_appends(
    body: Seq<u8>,
    s: Seq<RecordModel>,
    title: Seq<char>,
    completed: bool,
)
    requires
        json_record_of(body) == Some((title, completed)),
        valid_title(title),
    ensures
        ({
            let (resp, s2) = spec_create(body, s);
            &&& resp.status == 200
            &&& s2.len() == s.len() + 1
            &&& s2.last() == RecordModel { title, completed }
            &&& forall|i: int| 0 <= i < s.len() ==> s2[i] == s[i]
            &&& spec_list(s2).1 == s2
        }),
{
}

/// Creating from a record whose title breaks the validation rule
/// answers 400 and leaves the store exactly as it was.
pub proof fn lemma_create_invalid_rejected(
    body: Seq<u8>,
    s: Seq<RecordModel>,
    title: Seq<char>,
    completed: bool,
)
    requires
        json_record_of(body) == Some((title, completed)),
        !valid_title(title),
    ensures
        spec_create(body, s).0.status == 400,
        spec_create(body, s).1 == s,
{
}

/// Updating a record whose title no held record carries answers 404
/// and leaves the store exactly as it was.
pub proof fn lemma_update_missing_unchanged(
    body: Seq<u8>,
    s: Seq<RecordModel>,
    title: Seq<char>,
    completed: bool,
)
    requires
        json_record_of(body) == Some((title, completed)),
        valid_title(title),
        !has_title(s, title),
    ensures
        spec_update(body, s).0.status == 404,
        spec_update(body, s).1 == s,
{
}

/// Updating a record whose title some held record carries replaces the
/// first such record in place: same position, full new contents, every
/// other record untouched, and the count unchanged — which is what a
/// listing made afterwards shows.
pub proof fn lemma_update_replaces_in_place(
    body: Seq<u8>,
    s: Seq<RecordModel>,
    title: Seq<char>,
    completed: bool,
)
    requires
        json_record_of(body) == Some((title, completed)),
        valid_title(title),
        has_title(s, title),
    ensures
        ({
            let (resp, s2) = spec_update(body, s);
            let i = first_match(s, title);
            &&& resp.status == 200
            &&& is_first_match(s, title, i)
            &&& s2.len() == s.len()
            &&& s2[i] == RecordModel { title, completed }
            &&& forall|j: int| 0 <= j < s.len() && j != i ==> s2[j] == s[j]
            &&& spec_list(s2).1 == s2
        }),
{
    lemma_first_match(s, title);
}

/// Deleting a record whose title some held record carries removes
/// exactly one record, the first match: every record before it keeps
/// its place, every one after it moves up by one, and a listing made
/// afterwards is shorter by exactly one.
pub proof fn lemma_delete_removes_first_match(
    body: Seq<u8>,
    s: Seq<RecordModel>,
    title: Seq<char>,
    completed: bool,
)
    requires
        json_record_of(body) == Some((title, completed)),
        has_title(s, title),
    ensures
        ({
            let (resp, s2) = spec_delete(body, s);
            let i = first_match(s, title);
            &&& resp.status == 200
            &&& is_first_match(s, title, i)
            &&& s2.len() == s.len() - 1
            &&& forall|j: int| 0 <= j < i ==> s2[j] == s[j]
            &&& forall|j: int| i <= j < s2.len() ==> s2[j] == s[j + 1]
            &&& spec_list(s2).1 == s2
        }),
{
    lemma_first_match(s, title);
}

/// Deleting a record whose title no held record carries answers 404
/// and leaves the store exactly as it was.
pub proof fn lemma_delete_missing_unchanged(
    body: Seq<u8>,
    s: Seq<RecordModel>,
    title: Seq<char>,
    completed: bool,
)
    requires
        json_record_of(body) == Some((title, completed)),
        !has_title(s, title),
    ensures
        spec_delete(body, s).0.status == 404,
        spec_delete(body, s).1 == s,
{
}

/// What a run of creations leaves behind: `Store::create` ensures that
/// each call appends exactly its record, so running the calls of `rs`
/// one after another, in whichever order the store's exclusive access
/// serialized them, appends exactly `rs`.
pub open spec fn apply_creates(s: Seq<RecordModel>, rs: Seq<RecordModel>) -> Seq<RecordModel>
    decreases rs.len(),
{
    if rs.len() == 0 {
        s
    } else {
        apply_creates(s.push(rs[0]), rs.skip(1))
    }
}

/// Creations with pairwise distinct titles, serialized in any order by
/// the store's exclusive access, all take effect: afterwards the store
/// holds every one of them after the records it already held — none is
/// lost and none is duplicated.
pub proof fn lemma_creates_keep_all(s: Seq<RecordModel>, rs: Seq<RecordModel>)
    requires
        forall|i: int, j: int| 0 <= i < j < rs.len() ==> rs[i].title != rs[j].title,
    ensures
        apply_creates(s, rs) == s + rs,
        apply_creates(s, rs).len() == s.len() + rs.len(),
        forall|i: int| 0 <= i < s.len() ==> apply_creates(s, rs)[i] == s[i],
        forall|i: int| 0 <= i < rs.len() ==> apply_creates(s, rs)[s.len() + i] == rs[i],
    decreases rs.len(),
{
    if rs.len() == 0 {
        assert(apply_creates(s, rs) =~= s + rs);
    } else {
        let s1 = s.push(rs[0]);
        let rest = rs.skip(1);
        assert(forall|i: int, j: int| 0 <= i < j < rest.len() ==> rest[i].title != rest[j].title);
        lemma_creates_keep_all(s1, rest);
        assert(s1 + rest =~= s + rs);
    }
}

} // verus!
