//! The library's model of one video's metadata: the top-level fields of the
//! JSON object that the downloader emits for each video, with string values
//! carried through and every other value marked as such. Template expansion
//! and id extraction work on this model and are verified; only the JSON
//! parser itself is trusted.

use vstd::prelude::*;
use crate::text::chars_to_string;
use crate::text::chars_eq;

verus! {

/// One top-level field of the metadata object. `value` is `None` when the
/// JSON value is not a string.
pub struct MetaField {
    /// Field name.
    pub key: Vec<char>,
    /// Field value, when the JSON value is a string.
    pub value: Option<Vec<char>>,
}

impl View for MetaField {
    type V = (Seq<char>, Option<Seq<char>>);

    open spec fn view(&self) -> Self::V {
        (self.key@, match self.value {
            Some(v) => Some(v@),
            None => None,
        })
    }
}

/// The top-level fields of one video's metadata object, in the order the
/// parser yields them.
pub struct Metadata {
    /// The object's fields, in parser order.
    pub fields: Vec<MetaField>,
}

impl View for Metadata {
    type V = Seq<(Seq<char>, Option<Seq<char>>)>;

    open spec fn view(&self) -> Self::V {
        self.fields@.map_values(|f: MetaField| f@)
    }
}

/// The top-level fields of the JSON object encoded by `line`, in the order
/// serde_json's map iterates them, each string value carried through and
/// every other value replaced by `None`; `None` when `line` is not a JSON
/// object. Named here because stating a JSON parser in full is not the
/// purpose of this library.
pub uninterp spec fn json_top_fields(line: Seq<char>) -> Option<Seq<(Seq<char>, Option<Seq<char>>)>>;

/// Relies on serde_json's parser: yields the top-level fields of the
/// object, string values as strings, any other value as `None`; fails on
/// input that is not a JSON object.
#[verifier::external_body]
fn parse_top_fields(line: &String) -> (r: Option<Metadata>)
    ensures
        match r {
            Some(m) => json_top_fields(line@) == Some(m@),
            None => json_top_fields(line@) is None,
        },
{
    let value: serde_json::Value = serde_json::from_str(line.as_str()).ok()?;
    let obj = value.as_object()?;
    Some(Metadata {
        fields: obj
            .iter()
            .map(|(k, v)| MetaField {
                key: k.chars().collect(),
                value: v.as_str().map(|s| s.chars().collect()),
            })
            .collect(),
    })
}

/// The value of the first field named `key`, `None` when there is no such
/// field or its value is not a string.
pub open spec fn spec_lookup(
    fields: Seq<(Seq<char>, Option<Seq<char>>)>,
    key: Seq<char>,
) -> Option<Seq<char>>
    decreases fields.len(),
{
    if fields.len() == 0 {
        None
    } else if fields[0].0 == key {
        fields[0].1
    } else {
        spec_lookup(fields.drop_first(), key)
    }
}

impl Metadata {
    /// Parses one line of downloader output into the metadata model.
    pub fn parse(line: &String) -> (r: Option<Metadata>)
        ensures
            match r {
                Some(m) => json_top_fields(line@) == Some(m@),
                None => json_top_fields(line@) is None,
            },
    {
        parse_top_fields(line)
    }

    /// The string value of the field named `key`.
    pub fn lookup(&self, key: &Vec<char>) -> (r: Option<Vec<char>>)
        ensures
            match r {
                Some(v) => spec_lookup(self@, key@) == Some(v@),
                None => spec_lookup(self@, key@) is None,
            },
    {
        let mut i: usize = 0;
        assert(self@.skip(0) =~= self@);
        while i < self.fields.len()
            invariant
                i <= self.fields@.len(),
                self@.len() == self.fields@.len(),
                spec_lookup(self@.skip(i as int), key@) == spec_lookup(self@, key@),
            decreases self.fields@.len() - i,
        {
            proof {
                assert(self@.skip(i as int)[0] == self@[i as int]);
                assert(self@.skip(i as int).drop_first() =~= self@.skip(i + 1));
            }
            if chars_eq(&self.fields[i].key, key) {
                return match &self.fields[i].value {
                    Some(v) => Some(v.clone()),
                    None => None,
                };
            }
            i += 1;
        }
        assert(self@.skip(i as int) =~= Seq::<(Seq<char>, Option<Seq<char>>)>::empty());
        None
    }
}

/// The metadata key naming the video id.
pub open spec fn spec_id_key() -> Seq<char> {
    seq!['i', 'd']
}

/// The video id named by one line of downloader output: the top-level
/// string field `id`, if the line parses as a JSON object that has one.
pub open spec fn spec_id_of(line: Seq<char>) -> Option<Seq<char>> {
    match json_top_fields(line) {
        Some(fields) => spec_lookup(fields, spec_id_key()),
        None => None,
    }
}

/// Extracts the video id from one line of downloader output.
pub fn parse_id(line: &String) -> (r: Option<String>)
    ensures
        match r {
            Some(s) => spec_id_of(line@) == Some(s@),
            None => spec_id_of(line@) is None,
        },
{
    let meta = match Metadata::parse(line) {
        Some(m) => m,
        None => {
            return None;
        },
    };
    let key: Vec<char> = vec!['i', 'd'];
    assert(key@ =~= spec_id_key());
    match meta.lookup(&key) {
        Some(id) => Some(chars_to_string(&id)),
        None => None,
    }
}

/// The metadata key naming the thumbnail URL.
pub open spec fn spec_thumbnail_key() -> Seq<char> {
    seq!['t', 'h', 'u', 'm', 'b', 'n', 'a', 'i', 'l']
}

/// Reads the default thumbnail URL out of the metadata: the top-level
/// string field `thumbnail`. A metadata object without one cannot have
/// its thumbnail fetched.
pub fn get_thumbnail_url(meta: &Metadata) -> (r: Result<String, crate::error::Error>)
    ensures
        match spec_lookup(meta@, spec_thumbnail_key()) {
            Some(u) => r matches Ok(s) && s@ == u,
            None => r matches Err(e) && e matches crate::error::Error::UserInputError(_),
        },
{
    let key: Vec<char> = vec!['t', 'h', 'u', 'm', 'b', 'n', 'a', 'i', 'l'];
    assert(key@ =~= spec_thumbnail_key());
    match meta.lookup(&key) {
        Some(u) => Ok(chars_to_string(&u)),
        None => Err(crate::error::Error::UserInputError(String::from_str(
            "metadata is missing thumbnail",
        ))),
    }
}

/// One video resolved by the query: its id and the verbatim metadata line
/// it came from.
#[derive(Debug, PartialEq, Eq, Clone)]
pub struct Entity {
    /// The video id.
    pub id: String,
    /// The metadata line, verbatim.
    pub metadata: String,
}

impl Entity {
    /// Copies the entity; unlike a derived clone, the copy is known to
    /// equal the original.
    pub fn duplicate(&self) -> (r: Entity)
        ensures
            r == *self,
    {
        Entity { id: self.id.clone(), metadata: self.metadata.clone() }
    }
}

/// Turns one line of query output into an `Entity`, skipping lines that do
/// not carry a video id, as the stream may hold warnings.
pub fn parse_entity(line: &String) -> (r: Option<Entity>)
    ensures
        match r {
            Some(e) => spec_id_of(line@) == Some(e.id@) && e.metadata@ == line@,
            None => spec_id_of(line@) is None,
        },
{
    match parse_id(line) {
        Some(id) => Some(Entity { id, metadata: line.clone() }),
        None => None,
    }
}

} // verus!
