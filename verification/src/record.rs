use vstd::prelude::*;
use vstd::string::StrSliceExecFns;

verus! {

/// A single entry of the collection: a title, which identifies the
/// entry among the records held at any moment, and a completion flag.
pub struct Record {
    pub title: String,
    pub completed: bool,
}

/// The mathematical value of a [`Record`]: the title as a sequence of
/// characters, and the flag.
#[verifier::ext_equal]
pub ghost struct RecordModel {
    pub title: Seq<char>,
    pub completed: bool,
}

impl View for Record {
    type V = RecordModel;

    open spec fn view(&self) -> RecordModel {
        RecordModel { title: self.title@, completed: self.completed }
    }
}

/// The validation rule: a title is acceptable when it has between
/// 1 and 100 characters.
pub open spec fn valid_title(t: Seq<char>) -> bool {
    1 <= t.len() <= 100
}

impl Record {
    /// Decides the validation rule for this record's title.
    pub fn validate(&self) -> (ok: bool)
        ensures
            ok == valid_title(self@.title),
    {
        let n = self.title.as_str().unicode_len();
        1 <= n && n <= 100
    }
}

impl Clone for Record {
    fn clone(&self) -> (out: Self)
        ensures
            out == *self,
    {
        Record { title: self.title.clone(), completed: self.completed }
    }
}

} // verus!
