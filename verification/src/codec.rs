use vstd::prelude::*;
use vstd::string::StringExecFns;

use crate::record::{Record, RecordModel};

verus! {

/// What decoding a request body yields: the title and the completion
/// flag of the record the bytes describe, or nothing when the bytes are
/// not a well-formed description of one. The outcome is a function of
/// the bytes alone.
pub uninterp spec fn json_record_of(body: Seq<u8>) -> Option<(Seq<char>, bool)>;

/// The JSON text for one record, a function of the title and the flag
/// alone: an object holding the title under `title` and the flag under
/// `completed`, in that order.
pub uninterp spec fn json_of_record(title: Seq<char>, completed: bool) -> Seq<char>;

/// Relies on `serde_json::from_slice` to parse the bytes into a
/// `serde_json::Value`, and on `Value::get`, `Value::as_str` and
/// `Value::as_bool` to read the `title` and `completed` fields; all of
/// them compute from their arguments alone.
#[verifier::external_body]
pub(crate) fn decode_record(body: &[u8]) -> (out: Option<Record>)
    ensures
        out is Some <==> json_record_of(body@) is Some,
        out matches Some(r) ==> json_record_of(body@) == Some((r.title@, r.completed)),
{
    let v: serde_json::Value = match serde_json::from_slice(body) {
        Ok(v) => v,
        Err(_) => return None,
    };
    let title = match v.get("title").and_then(|t| t.as_str()) {
        Some(t) => t.to_string(),
        None => return None,
    };
    let completed = match v.get("completed").and_then(|c| c.as_bool()) {
        Some(c) => c,
        None => return None,
    };
    Some(Record { title, completed })
}

/// Relies on `serde_json::to_string` over a two-entry
/// `serde_json::Map` (which keeps insertion order): the text is a
/// function of the title and the flag alone.
#[verifier::external_body]
pub(crate) fn encode_record(title: &String, completed: bool) -> (out: String)
    ensures
        out@ == json_of_record(title@, completed),
{
    let mut fields = serde_json::Map::new();
    fields.insert("title".to_string(), serde_json::Value::String(title.clone()));
    fields.insert("completed".to_string(), serde_json::Value::Bool(completed));
    serde_json::to_string(&serde_json::Value::Object(fields)).unwrap()
}

/// The JSON texts of the records of `s`, joined by commas.
pub open spec fn json_items(s: Seq<RecordModel>) -> Seq<char>
    decreases s.len(),
{
    if s.len() == 0 {
        Seq::<char>::empty()
    } else if s.len() == 1 {
        json_of_record(s[0].title, s[0].completed)
    } else {
        json_items(s.drop_last()) + seq![','] + json_of_record(s.last().title, s.last().completed)
    }
}

/// The JSON text for a whole listing: the records' texts joined by
/// commas, between brackets.
pub open spec fn json_of_records(s: Seq<RecordModel>) -> Seq<char> {
    seq!['['] + json_items(s) + seq![']']
}

/// Encodes a listing as a JSON array of record objects, in order.
#[verifier::loop_isolation(false)]
pub fn encode_records(records: &Vec<Record>) -> (out: String)
    ensures
        out@ == json_of_records(records@.map_values(|r: Record| r@)),
{
    let ghost models = records@.map_values(|r: Record| r@);
    let mut out = String::from_str("[");
    proof {
        reveal_strlit("[");
        assert(out@ =~= seq!['[']);
    }
    let mut i: usize = 0;
    while i < records.len()
        invariant
            i <= records.len(),
            out@ == seq!['['] + json_items(models.take(i as int)),
        decreases records.len() - i,
    {
        if i > 0 {
            out.append(",");
            proof {
                reveal_strlit(",");
            }
        }
        let item = encode_record(&records[i].title, records[i].completed);
        out.append(item.as_str());
        i += 1;
        proof {
            let taken = models.take(i as int);
            assert(taken.drop_last() =~= models.take(i as int - 1));
            assert(taken.last() == models[i as int - 1]);
            assert(out@ =~= seq!['['] + json_items(taken));
        }
    }
    out.append("]");
    proof {
        reveal_strlit("]");
        assert(models.take(records@.len() as int) =~= models);
        assert(out@ =~= json_of_records(models));
    }
    out
}

/// Relies on `str`'s equality: two string slices are equal exactly when
/// their characters are.
#[verifier::external_body]
pub(crate) fn str_eq(a: &str, b: &str) -> (r: bool)
    ensures
        r == (a@ == b@),
{
    a == b
}

} // verus!
