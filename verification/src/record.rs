//! The record model: the in-memory shape of a stored item and the rules that
//! build one from a submitted form.

use vstd::prelude::*;
use vstd::string::StrSliceExecFns;
use vstd::string::StringExecFns;
use crate::strings::str_eq;

verus! {

/// A record as handled in memory: a name, a free-form date (no calendar
/// validation is performed), and the tag texts submitted with it. Tags are
/// accepted on input but never persisted, so a listed record always carries
/// an empty tag sequence.
#[derive(Debug, PartialEq, Eq)]
pub struct Record {
    pub name: String,
    pub date: String,
    pub tags: Vec<String>,
}

/// The mathematical value of a [`Record`]: its fields as character sequences.
#[verifier::ext_equal]
pub ghost struct RecordV {
    pub name: Seq<char>,
    pub date: Seq<char>,
    pub tags: Seq<Seq<char>>,
}

impl View for Record {
    type V = RecordV;

    open spec fn view(&self) -> RecordV {
        RecordV { name: self.name@, date: self.date@, tags: self.tags.deep_view() }
    }
}

impl Record {
    /// The fields the list renderer reads from this record: its name and its
    /// date. Tags are carried for future use but no list view reads them.
    pub fn to_fragment_row(&self) -> (r: (String, String))
        ensures
            r.0@ == self@.name,
            r.1@ == self@.date,
    {
        (self.name.clone(), self.date.clone())
    }
}

/// The values of a sequence of records.
pub open spec fn recs_view(recs: Seq<Record>) -> Seq<RecordV> {
    recs.map_values(|r: Record| r@)
}

/// A required form field was missing from a submission.
#[derive(Clone, Copy, Debug, PartialEq, Eq)]
pub enum ValidationError {
    MissingName,
    MissingDate,
}

/// The value of the first field with the given key, if any: form semantics,
/// where the first occurrence of a repeated key wins.
pub open spec fn spec_lookup(fields: Seq<(String, String)>, key: Seq<char>) -> Option<Seq<char>>
    decreases fields.len(),
{
    if fields.len() == 0 {
        None
    } else if fields[0].0@ == key {
        Some(fields[0].1@)
    } else {
        spec_lookup(fields.drop_first(), key)
    }
}

/// Finds the value of the first field named `key`.
fn lookup(fields: &Vec<(String, String)>, key: &str) -> (r: Option<String>)
    ensures
        match r {
            Some(v) => spec_lookup(fields@, key@) == Some(v@),
            None => spec_lookup(fields@, key@) is None,
        },
{
    let n = fields.len();
    let mut i: usize = 0;
    proof {
        assert(fields@.skip(0) =~= fields@);
    }
    while i < n
        invariant
            n == fields@.len(),
            i <= n,
            spec_lookup(fields@, key@) == spec_lookup(fields@.skip(i as int), key@),
        decreases n - i,
    {
        proof {
            assert(fields@.skip(i as int)[0] == fields@[i as int]);
            assert(fields@.skip(i as int).drop_first() =~= fields@.skip(i as int + 1));
        }
        if str_eq(fields[i].0.as_str(), key) {
            return Some(fields[i].1.clone());
        }
        i += 1;
    }
    proof {
        assert(fields@.skip(n as int) =~= Seq::<(String, String)>::empty());
    }
    None
}

/// The index of the first comma in `s`, or `s.len()` if there is none.
pub open spec fn first_comma(s: Seq<char>) -> nat
    decreases s.len(),
{
    if s.len() == 0 {
        0
    } else if s[0] == ',' {
        0
    } else {
        1 + first_comma(s.drop_first())
    }
}

proof fn lemma_first_comma_at(s: Seq<char>, i: int)
    requires
        0 <= i <= s.len(),
        forall|j: int| 0 <= j < i ==> s[j] != ',',
        i < s.len() ==> s[i] == ',',
    ensures
        first_comma(s) == i,
    decreases i,
{
    if i == 0 {
        if s.len() > 0 {
            assert(s[0] == ',');
        }
    } else {
        assert(s[0] != ',');
        assert forall|j: int| 0 <= j < i - 1 implies s.drop_first()[j] != ',' by {
            assert(s.drop_first()[j] == s[j + 1]);
        }
        if i - 1 < s.drop_first().len() {
            assert(s.drop_first()[i - 1] == s[i]);
        }
        lemma_first_comma_at(s.drop_first(), i - 1);
    }
}

proof fn lemma_first_comma_le_len(s: Seq<char>)
    ensures
        first_comma(s) <= s.len(),
    decreases s.len(),
{
    if s.len() > 0 && s[0] != ',' {
        lemma_first_comma_le_len(s.drop_first());
    }
}

/// The comma-separated segments of `s`. Empty segments between commas are
/// kept; the empty text has no segments, so a trailing comma adds nothing.
pub open spec fn spec_split_tags(s: Seq<char>) -> Seq<Seq<char>>
    decreases s.len(),
    via spec_split_tags_decreases
{
    if s.len() == 0 {
        Seq::empty()
    } else {
        let i = first_comma(s);
        if i == s.len() {
            seq![s]
        } else {
            seq![s.take(i as int)] + spec_split_tags(s.skip(i as int + 1))
        }
    }
}

#[via_fn]
proof fn spec_split_tags_decreases(s: Seq<char>) {
    lemma_first_comma_le_len(s);
}

/// Splits a raw tag field into its comma-separated segments.
pub fn split_tags(s: &str) -> (r: Vec<String>)
    ensures
        r.deep_view() == spec_split_tags(s@),
    decreases s@.len(),
{
    let n = s.unicode_len();
    if n == 0 {
        let r: Vec<String> = Vec::new();
        proof {
            assert(r.deep_view() =~= spec_split_tags(s@));
        }
        return r;
    }
    let mut i: usize = 0;
    while i < n && s.get_char(i) != ','
        invariant
            n == s@.len(),
            i <= n,
            forall|j: int| 0 <= j < i ==> s@[j] != ',',
        decreases n - i,
    {
        i += 1;
    }
    proof {
        lemma_first_comma_at(s@, i as int);
    }
    if i == n {
        let mut r: Vec<String> = Vec::new();
        r.push(String::from_str(s));
        proof {
            assert(r.deep_view() =~= spec_split_tags(s@));
        }
        r
    } else {
        let head = s.substring_char(0, i);
        let rest = s.substring_char(i + 1, n);
        proof {
            assert(rest@ =~= s@.skip(i as int + 1));
        }
        let mut r: Vec<String> = Vec::new();
        r.push(String::from_str(head));
        let mut tail = split_tags(rest);
        r.append(&mut tail);
        proof {
            assert(head@ =~= s@.take(i as int));
            assert(r.deep_view() =~= spec_split_tags(s@));
        }
        r
    }
}

/// The tag sequence a submission carries: the split `tags` field, or no tags
/// when the field is absent.
pub open spec fn spec_tags_of(fields: Seq<(String, String)>) -> Seq<Seq<char>> {
    match spec_lookup(fields, "tags"@) {
        Some(t) => spec_split_tags(t),
        None => Seq::empty(),
    }
}

/// Builds a record from submitted form fields. `name` and `date` are required
/// (a missing `name` is reported first); any text, including empty or
/// whitespace text, is accepted as their value. The optional `tags` field is
/// split on commas.
pub fn from_form_submission(fields: &Vec<(String, String)>) -> (r: Result<
    Record,
    ValidationError,
>)
    ensures
        spec_lookup(fields@, "name"@) is None ==> r == Err::<Record, ValidationError>(
            ValidationError::MissingName,
        ),
        spec_lookup(fields@, "name"@) is Some && spec_lookup(fields@, "date"@) is None ==> r
            == Err::<Record, ValidationError>(ValidationError::MissingDate),
        spec_lookup(fields@, "name"@) is Some && spec_lookup(fields@, "date"@) is Some ==> (
        r matches Ok(rec) && rec@.name == spec_lookup(fields@, "name"@)->Some_0 && rec@.date
            == spec_lookup(fields@, "date"@)->Some_0 && rec@.tags == spec_tags_of(fields@)),
{
    let name = match lookup(fields, "name") {
        Some(v) => v,
        None => {
            return Err(ValidationError::MissingName);
        },
    };
    let date = match lookup(fields, "date") {
        Some(v) => v,
        None => {
            return Err(ValidationError::MissingDate);
        },
    };
    let tags = match lookup(fields, "tags") {
        Some(t) => split_tags(t.as_str()),
        None => Vec::new(),
    };
    proof {
        assert(tags.deep_view() =~= spec_tags_of(fields@));
    }
    Ok(Record { name, date, tags })
}

/// Rebuilds records from plain (name, date) column pairs, as a listing query
/// hands them back; tags are not stored, so each record gets an empty tag
/// sequence.
pub fn records_from_pairs(pairs: &Vec<(String, String)>) -> (r: Vec<Record>)
    ensures
        r@.len() == pairs@.len(),
        forall|j: int|
            0 <= j < pairs@.len() ==> #[trigger] r@[j]@ == (RecordV {
                name: pairs@[j].0@,
                date: pairs@[j].1@,
                tags: Seq::empty(),
            }),
{
    let n = pairs.len();
    let mut r: Vec<Record> = Vec::new();
    let mut i: usize = 0;
    while i < n
        invariant
            n == pairs@.len(),
            i <= n,
            r@.len() == i,
            forall|j: int|
                0 <= j < i ==> #[trigger] r@[j]@ == (RecordV {
                    name: pairs@[j].0@,
                    date: pairs@[j].1@,
                    tags: Seq::empty(),
                }),
        decreases n - i,
    {
        let rec = Record {
            name: pairs[i].0.clone(),
            date: pairs[i].1.clone(),
            tags: Vec::new(),
        };
        proof {
            assert(rec@ =~~= (RecordV {
                name: pairs@[i as int].0@,
                date: pairs@[i as int].1@,
                tags: Seq::empty(),
            }));
        }
        r.push(rec);
        i += 1;
    }
    r
}

} // verus!
