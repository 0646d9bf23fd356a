use vstd::prelude::*;

use serde_json::Value;

use crate::config_service::{lookup_view, ConfigRetriever};
use crate::errors::{AppError, AppResult, ErrorKind, ErrorView};

verus! {

/// A member of a JSON object as held by a configuration file: its name, and
/// its value where that value is a JSON string.
pub type JsonEntry = (String, Option<String>);

/// A configuration file member as a value.
pub type EntryView = (Seq<char>, Option<Seq<char>>);

/// The members of a configuration file, as values.
pub open spec fn entries_view(entries: Seq<JsonEntry>) -> Seq<EntryView> {
    entries.map_values(|e: JsonEntry| (e.0@, match e.1 { Some(v) => Some(v@), None => None }))
}

/// What `serde_json` makes of a document: `None` where the bytes are not a
/// JSON document; `Some(None)` where the document is not an object; else the
/// members of the object, in the order of `serde_json::Map`, each with its
/// value where that value is a string.
pub uninterp spec fn json_config_document(bytes: Seq<u8>) -> Option<Option<Seq<EntryView>>>;

#[verifier::external_type_specification]
#[verifier::external_body]
pub struct ExJsonError(serde_json::Error);

/// Calls `serde_json::from_slice::<serde_json::Value>` on `bytes` and, where the
/// document is an object, hands out its members with their string values.
/// Trusted: the outcome is what `json_config_document` names.
#[verifier::external_body]
fn parse_json_object(bytes: &[u8]) -> (res: Result<Option<Vec<JsonEntry>>, serde_json::Error>)
    ensures
        match res {
            Ok(Some(entries)) => json_config_document(bytes@) == Some(Some(entries_view(entries@))),
            Ok(None) => json_config_document(bytes@) == Some(None::<Seq<EntryView>>),
            Err(_) => json_config_document(bytes@) is None,
        },
{
    match serde_json::from_slice::<Value>(bytes) {
        Ok(Value::Object(map)) => Ok(Some(map.into_iter().map(|(name, value)| match value {
            Value::String(s) => (name, Some(s)),
            Value::Null => (name, None),
            Value::Bool(_) => (name, None),
            Value::Number(_) => (name, None),
            Value::Array(_) => (name, None),
            Value::Object(_) => (name, None),
        }).collect())),
        Ok(Value::Null | Value::Bool(_) | Value::Number(_) | Value::String(_) | Value::Array(_)) => Ok(None),
        Err(e) => Err(e),
    }
}

/// The display text of a `serde_json::Error`. Trusted; nothing is stated of the text.
#[verifier::external_body]
pub(crate) fn json_error_message(e: &serde_json::Error) -> String {
    format!("{}", e)
}

/// Whether member `i` is the first with the name `key`.
pub open spec fn first_with_name(entries: Seq<EntryView>, key: Seq<char>, i: int) -> bool {
    &&& 0 <= i < entries.len()
    &&& entries[i].0 == key
    &&& forall|j: int| 0 <= j < i ==> entries[j].0 != key
}

/// The string value of the first member named `key`, if there is such a member
/// and its value is a string.
pub open spec fn entry_value(entries: Seq<EntryView>, key: Seq<char>) -> Option<Seq<char>> {
    if exists|i: int| first_with_name(entries, key, i) {
        entries[choose|i: int| first_with_name(entries, key, i)].1
    } else {
        None
    }
}

/// A member whose value is a string, the empty string included, is found
/// under its name with that value (the first member of that name, where the
/// name occurs more than once); a name that no member has is not found.
pub proof fn lemma_member_value_found(entries: Seq<EntryView>, key: Seq<char>, i: int)
    requires
        0 <= i < entries.len(),
        entries[i].0 == key,
        forall|j: int| 0 <= j < i ==> entries[j].0 != key,
    ensures
        entry_value(entries, key) == entries[i].1,
        entries[i].1 matches Some(v) ==> entry_value(entries, key) == Some(v),
{
    assert(first_with_name(entries, key, i));
    let k = choose|k: int| first_with_name(entries, key, k);
    if k < i {
        assert(entries[k].0 == key);
    } else if k > i {
        assert(entries[i].0 != key);
    }
}

/// A name that no member has is not found.
pub proof fn lemma_absent_name_not_found(entries: Seq<EntryView>, key: Seq<char>)
    requires
        forall|j: int| 0 <= j < entries.len() ==> entries[j].0 != key,
    ensures
        entry_value(entries, key) is None,
{
}

/// The message of the error for a configuration document that is not an object.
pub open spec fn invalid_document_message() -> Seq<char> {
    "Invalid json content for configuration."@
}

/// Configuration values read from a JSON object: each member whose value is a
/// string is a key with that value.
#[derive(Clone, Debug)]
pub struct ConfigRetrieverFile {
    data: Vec<JsonEntry>,
}

impl View for ConfigRetrieverFile {
    type V = Seq<EntryView>;

    closed spec fn view(&self) -> Seq<EntryView> {
        entries_view(self.data@)
    }
}

impl ConfigRetrieverFile {
    /// Reads the configuration from the bytes of a JSON document, which must
    /// hold an object.
    pub fn from_json_bytes(bytes: &[u8]) -> (res: AppResult<ConfigRetrieverFile>)
        ensures
            match json_config_document(bytes@) {
                None => res matches Err(e) && e@.0 == ErrorKind::Parse,
                Some(None) => res matches Err(e) && e@ == (ErrorKind::Parse, invalid_document_message()),
                Some(Some(entries)) => res matches Ok(f) && f@ == entries,
            },
    {
        match parse_json_object(bytes) {
            Ok(Some(data)) => Ok(ConfigRetrieverFile { data }),
            Ok(None) => Err(AppError::ParseError(String::from_str("Invalid json content for configuration."))),
            Err(e) => Err(AppError::ParseError(json_error_message(&e))),
        }
    }
}

/// The names of the members.
pub open spec fn entry_names(entries: Seq<EntryView>) -> Set<Seq<char>> {
    entries.map_values(|e: EntryView| e.0).to_set()
}

impl ConfigRetriever for ConfigRetrieverFile {
    open spec fn retrieved(&self, key: Seq<char>) -> Result<Option<Seq<char>>, ErrorView> {
        Ok(entry_value(self@, key))
    }

    open spec fn defined_keys(&self) -> Set<Seq<char>> {
        entry_names(self@).filter(|k: Seq<char>| entry_value(self@, k) is Some)
    }

    proof fn lemma_defined_keys(&self) {
        let names = entry_names(self@);
        vstd::seq_lib::seq_to_set_is_finite(self@.map_values(|e: EntryView| e.0));
        assert(self.defined_keys().subset_of(names));
        vstd::set_lib::lemma_len_subset(self.defined_keys(), names);
        assert forall|k: Seq<char>| #![trigger self.retrieved(k)]
            (self.retrieved(k) matches Ok(Some(_))) implies self.defined_keys().contains(k) by {
            let i = choose|i: int| first_with_name(self@, k, i);
            assert(self@.map_values(|e: EntryView| e.0)[i] == k);
        }
    }

    fn get(&self, key: &str) -> (res: AppResult<Option<String>>)
        ensures
            forall|i: int| first_with_name(self@, key@, i) ==> lookup_view(res) == Ok::<Option<Seq<char>>, ErrorView>(self@[i].1),
            (forall|i: int| 0 <= i < self@.len() ==> self@[i].0 != key@) ==> lookup_view(res) == Ok::<Option<Seq<char>>, ErrorView>(None),
            forall|v: Seq<char>| lookup_view(res) == Ok::<Option<Seq<char>>, ErrorView>(Some(v))
                <==> exists|i: int| first_with_name(self@, key@, i) && self@[i].1 == Some(v),
            res is Ok,
    {
        let key_text = String::from_str(key);
        let ghost es = self@;
        let mut i: usize = 0;
        while i < self.data.len()
            invariant
                i <= self.data.len(),
                es == entries_view(self.data@),
                key_text@ == key@,
                forall|j: int| 0 <= j < i ==> es[j].0 != key@,
            decreases self.data.len() - i,
        {
            if self.data[i].0 == key_text {
                assert(first_with_name(es, key@, i as int));
                let ghost chosen = choose|j: int| first_with_name(es, key@, j);
                assert(chosen == i as int) by {
                    if chosen < i as int {
                    } else if chosen > i as int {
                        assert(es[i as int].0 != key@);
                    }
                }
                return match &self.data[i].1 {
                    Some(v) => Ok(Some(v.clone())),
                    None => Ok(None),
                };
            }
            i = i + 1;
        }
        Ok(None)
    }
}

} // verus!
