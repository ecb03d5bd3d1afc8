//! Items of a Bitwarden vault, read through the `bw` command.
use vstd::prelude::*;
use crate::error::NovopsError;
use crate::text::{copy_string, push_char, split_char, split_spec, str_eq, string_from_utf8, views};
use vstd::utf8::{decode_utf8, valid_utf8};

verus! {

/// A Bitwarden secret reference.
#[derive(Debug, Clone, PartialEq)]
pub struct BitwardenItemInput {
    pub bitwarden: BitwardenEntry,
}

/// A Bitwarden entry and the field of it to use, such as `login.password`.
#[derive(Debug, Clone, PartialEq)]
pub struct BitwardenEntry {
    /// Entry name.
    pub entry: String,
    /// Field of the entry, a path separated by dots.
    pub field: String,
}

/// A JSON document as `bw get item` prints it.
#[derive(Debug, PartialEq)]
pub enum JsonValue {
    Null,
    Bool(bool),
    /// A number, in its textual form.
    Number(String),
    Str(String),
    Array(Vec<JsonValue>),
    /// Members in order; keys are unique.
    Object(Vec<(String, JsonValue)>),
}

/// The member `key` of an object's members, the first one with that key.
pub open spec fn members_get(m: Seq<(String, JsonValue)>, key: Seq<char>) -> Option<JsonValue>
    decreases m.len(),
{
    if m.len() == 0 {
        None
    } else if m[0].0@ == key {
        Some(m[0].1)
    } else {
        members_get(m.drop_first(), key)
    }
}

/// `serde_json`'s JSON value, carried from the parser to its conversion.
#[verifier::external_type_specification]
#[verifier::external_body]
pub struct ExJsonDocument(serde_json::Value);

/// The document that `serde_json::from_str` parses from a text, as a `JsonValue`;
/// `None` when the text is not JSON.
pub uninterp spec fn json_parse(s: Seq<char>) -> Option<JsonValue>;

/// Converts a `serde_json::Value` into a `JsonValue`, variant for variant, numbers as
/// `serde_json` prints them and object members in the order the map holds them. Nothing
/// is stated of it: it is the conversion part of `parse_json`, whose result is named.
#[verifier::external_body]
fn json_value_of(v: serde_json::Value) -> JsonValue {
    match v {
        serde_json::Value::Null => JsonValue::Null,
        serde_json::Value::Bool(b) => JsonValue::Bool(b),
        serde_json::Value::Number(n) => JsonValue::Number(n.to_string()),
        serde_json::Value::String(s) => JsonValue::Str(s),
        serde_json::Value::Array(a) => JsonValue::Array(a.into_iter().map(json_value_of).collect()),
        serde_json::Value::Object(o) => JsonValue::Object(o.into_iter().map(|(k, x)| (k, json_value_of(x))).collect()),
    }
}

/// Calls `serde_json::from_str` into a `serde_json::Value`, then converts it; the
/// result is named `json_parse`.
#[verifier::external_body]
fn parse_json(s: &str) -> (r: Option<JsonValue>)
    ensures
        r == json_parse(s@),
{
    serde_json::from_str::<serde_json::Value>(s).ok().map(json_value_of)
}

/// The item that `bw get item` printed: an error when its output is not UTF-8, when it
/// failed, or when what it printed is not JSON; the parsed document otherwise.
pub fn item_from_output(stdout: Vec<u8>, success: bool) -> (r: Result<JsonValue, NovopsError>)
    ensures
        !valid_utf8(stdout@) ==> r matches Err(NovopsError::CommandOutputNotUtf8),
        valid_utf8(stdout@) && !success ==> r matches Err(NovopsError::CommandFailed),
        valid_utf8(stdout@) && success ==> match json_parse(decode_utf8(stdout@)) {
            Some(v) => r == Ok::<JsonValue, NovopsError>(v),
            None => r matches Err(NovopsError::InvalidJson),
        },
{
    let text = match string_from_utf8(stdout) {
        Some(t) => t,
        None => return Err(NovopsError::CommandOutputNotUtf8),
    };
    if !success {
        return Err(NovopsError::CommandFailed);
    }
    match parse_json(text.as_str()) {
        Some(v) => Ok(v),
        None => Err(NovopsError::InvalidJson),
    }
}

/// The member `key` of a value, as `serde_json::Value::get` finds it: only objects have members.
pub open spec fn json_get(v: JsonValue, key: Seq<char>) -> Option<JsonValue> {
    match v {
        JsonValue::Object(m) => members_get(m@, key),
        _ => None,
    }
}

/// What a path of fields leads to in a value.
pub enum PathOutcome {
    Found(Seq<char>),
    Missing(Seq<char>),
    NotAString(Seq<char>),
}

/// Follows the fields one after the other; the last must lead to a string.
pub open spec fn json_path_string(v: JsonValue, fields: Seq<Seq<char>>) -> PathOutcome
    decreases fields.len(),
{
    if fields.len() == 0 {
        PathOutcome::Missing(seq![])
    } else {
        let f = fields[0];
        match json_get(v, f) {
            None => PathOutcome::Missing(f),
            Some(found) => if fields.len() > 1 {
                json_path_string(found, fields.drop_first())
            } else {
                match found {
                    JsonValue::Str(s) => PathOutcome::Found(s@),
                    _ => PathOutcome::NotAString(f),
                }
            },
        }
    }
}

/// Following a path is following its first field, then the rest of the path from the
/// value found there; a first field that is not a member is the missing field.
pub proof fn lemma_path_first_field_then_rest(v: JsonValue, f: Seq<char>, rest: Seq<Seq<char>>)
    ensures
        match json_get(v, f) {
            None => json_path_string(v, seq![f] + rest) == PathOutcome::Missing(f),
            Some(x) => if rest.len() > 0 {
                json_path_string(v, seq![f] + rest) == json_path_string(x, rest)
            } else {
                match x {
                    JsonValue::Str(s) => json_path_string(v, seq![f]) == PathOutcome::Found(s@),
                    _ => json_path_string(v, seq![f]) == PathOutcome::NotAString(f),
                }
            },
        },
{
    assert((seq![f] + rest)[0] == f);
    assert((seq![f] + rest).drop_first() =~= rest);
    if rest.len() == 0 {
        assert(seq![f] + rest =~= seq![f]);
    }
}

/// A lookup that fails names a field of the path: a missing one anywhere along it, or
/// the last one when what it holds is not a string; a lookup of no field finds nothing.
pub proof fn lemma_path_error_names_path_field(v: JsonValue, fields: Seq<Seq<char>>)
    ensures
        match json_path_string(v, fields) {
            PathOutcome::Found(_) => fields.len() > 0,
            PathOutcome::Missing(f) => fields.len() == 0 || fields.contains(f),
            PathOutcome::NotAString(f) => fields.len() > 0 && f == fields.last(),
        },
    decreases fields.len(),
{
    if fields.len() > 0 {
        match json_get(v, fields[0]) {
            None => {
                assert(fields.contains(fields[0]));
            },
            Some(x) => {
                if fields.len() > 1 {
                    let rest = fields.drop_first();
                    lemma_path_error_names_path_field(x, rest);
                    match json_path_string(x, rest) {
                        PathOutcome::Missing(f) => {
                            let i = choose|i: int| 0 <= i < rest.len() && rest[i] == f;
                            assert(fields[i + 1] == f);
                        },
                        _ => {},
                    }
                }
            },
        }
    }
}

/// The result of a path lookup matches its outcome.
pub open spec fn matches_outcome(r: Result<String, NovopsError>, o: PathOutcome) -> bool {
    match o {
        PathOutcome::Found(s) => r matches Ok(t) && t@ == s,
        PathOutcome::Missing(f) => r matches Err(NovopsError::FieldNotFound(g)) && g@ == f,
        PathOutcome::NotAString(f) => r matches Err(NovopsError::FieldNotString(g)) && g@ == f,
    }
}

/// The member `key` of a value, if it is an object that has one.
fn json_member<'a>(value: &'a JsonValue, key: &str) -> (r: Option<&'a JsonValue>)
    ensures
        match json_get(*value, key@) {
            Some(x) => r matches Some(y) && *y == x,
            None => r is None,
        },
{
    match value {
        JsonValue::Object(m) => {
            let mut j: usize = 0;
            assert(m@.skip(0) =~= m@);
            while j < m.len()
                invariant
                    j <= m@.len(),
                    json_get(*value, key@) == members_get(m@, key@),
                    members_get(m@, key@) == members_get(m@.skip(j as int), key@),
                decreases m.len() - j,
            {
                assert(m@.skip(j as int)[0] == m@[j as int]);
                if str_eq(m[j].0.as_str(), key) {
                    return Some(&m[j].1);
                }
                assert(m@.skip(j as int).drop_first() =~= m@.skip(j + 1));
                j = j + 1;
            }
            None
        },
        _ => None,
    }
}

/// The string at the end of a path of fields in a JSON value, such as
/// `["login", "password"]` in `{"login": {"password": "secret"}}`; an error naming the
/// field that is missing, or the last one when its value is not a string.
pub fn get_string_in_value(value: &JsonValue, fields: Vec<String>) -> (r: Result<String, NovopsError>)
    requires
        fields@.len() > 0,
    ensures
        matches_outcome(r, json_path_string(*value, views(fields@))),
    decreases fields@.len(),
{
    let mut fields = fields;
    let ghost all = views(fields@);
    let field = fields.remove(0);
    assert(views(fields@) =~= all.drop_first());
    let found = match json_member(value, field.as_str()) {
        Some(v) => v,
        None => return Err(NovopsError::FieldNotFound(field)),
    };
    if fields.len() > 0 {
        get_string_in_value(found, fields)
    } else {
        match found {
            JsonValue::Str(s) => Ok(copy_string(s.as_str())),
            _ => Err(NovopsError::FieldNotString(field)),
        }
    }
}

pub open spec fn result_prefix() -> Seq<char> {
    seq!['R', 'E', 'S', 'U', 'L', 'T', ':']
}

impl BitwardenItemInput {
    /// The value given in dry-run mode: `RESULT:<entry>.<field>`.
    pub open spec fn dry_run_spec(self) -> Seq<char> {
        result_prefix() + self.bitwarden.entry@ + seq!['.'] + self.bitwarden.field@
    }

    /// The value given in dry-run mode: `RESULT:<entry>.<field>`.
    pub fn dry_run_value(&self) -> (r: String)
        ensures
            r@ == self.dry_run_spec(),
    {
        proof {
            reveal_strlit("RESULT:");
            assert("RESULT:"@ =~= result_prefix());
        }
        let mut s = String::new();
        s.append("RESULT:");
        s.append(self.bitwarden.entry.as_str());
        push_char(&mut s, '.');
        s.append(self.bitwarden.field.as_str());
        s
    }

    /// The arguments of the `bw` command that prints the entry: `get item <entry>`.
    pub fn command_args(&self) -> (r: Vec<String>)
        ensures
            views(r@) == seq!["get"@, "item"@, self.bitwarden.entry@],
    {
        let mut v: Vec<String> = Vec::new();
        v.push(copy_string("get"));
        v.push(copy_string("item"));
        v.push(copy_string(self.bitwarden.entry.as_str()));
        assert(views(v@) =~= seq!["get"@, "item"@, self.bitwarden.entry@]);
        v
    }

    /// The entry's field: the string found by following the dot-separated path of `field`.
    pub fn value_from(&self, item: &JsonValue) -> (r: Result<String, NovopsError>)
        ensures
            matches_outcome(r, json_path_string(*item, split_spec(self.bitwarden.field@, '.'))),
    {
        let fields = split_char(self.bitwarden.field.as_str(), '.');
        get_string_in_value(item, fields)
    }
}

/// The fixed words this module writes and matches, spelled out as text.
pub proof fn lemma_bitwarden_words()
    ensures
        result_prefix() == "RESULT:"@,
{
    reveal_strlit("RESULT:");
    assert(result_prefix() =~= "RESULT:"@);
}

} // verus!
