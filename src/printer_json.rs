//! Printer lists from the JSON reply of `Get-Printer`: an array of printer
//! records, or a single record where the host knows one printer.

use crate::model::{printers_view, PrinterInfo, PrinterModel};
use crate::text::{back_white, chars_of, skip_white, trim};
use vstd::prelude::*;

verus! {

broadcast use vstd::string::group_string_axioms;

/// A JSON value, as plain data.
#[derive(Debug)]
pub enum Json {
    Null,
    Bool(bool),
    /// A number, in its JSON text.
    Number(String),
    Str(String),
    Array(Vec<Json>),
    /// The members of an object, in the order the reader gives them.
    Object(Vec<JsonMember>),
}

/// A member of a JSON object.
#[derive(Debug)]
pub struct JsonMember {
    pub key: String,
    pub value: Json,
}

/// The JSON document that a text holds, or the reader's description of why it
/// holds none, as serde_json reads it.
pub uninterp spec fn json_of(text: Seq<char>) -> Result<Json, Seq<char>>;

#[verifier::external_type_specification]
#[verifier::external_body]
pub struct ExJsonValue(serde_json::Value);

/// Relies on the variants of `serde_json::Value`: each value becomes the
/// [`Json`] value of the same kind, with the same contents.
#[verifier::external_body]
fn json_from_value(v: &serde_json::Value) -> (r: Json) {
    match v {
        serde_json::Value::Null => Json::Null,
        serde_json::Value::Bool(b) => Json::Bool(*b),
        serde_json::Value::Number(n) => Json::Number(n.to_string()),
        serde_json::Value::String(s) => Json::Str(s.clone()),
        serde_json::Value::Array(a) => Json::Array(a.iter().map(json_from_value).collect()),
        serde_json::Value::Object(m) => Json::Object(
            m.iter().map(|(k, x)| JsonMember { key: k.clone(), value: json_from_value(x) }).collect(),
        ),
    }
}

/// Relies on `serde_json::from_str` into `serde_json::Value`, whose document or
/// error message depends on the text alone.
#[verifier::external_body]
fn read_json(text: &str) -> (r: Result<Json, String>)
    ensures
        match r {
            Ok(j) => json_of(text@) == Ok::<Json, Seq<char>>(j),
            Err(e) => json_of(text@) == Err::<Json, Seq<char>>(e@),
        },
{
    match serde_json::from_str::<serde_json::Value>(text) {
        Ok(v) => Ok(json_from_value(&v)),
        Err(e) => Err(e.to_string()),
    }
}

/// Start of the error for a failed `Get-Printer`.
pub const QUERY_FAILED: &'static str = "PowerShell command failed: ";

/// Start of the error for a reply that is not a printer list.
pub const UNPARSED: &'static str = "Failed to parse printer list: ";

/// Text between the reason and the quoted output in that error.
pub const OUTPUT: &'static str = " - Output: ";

/// Reason given for a JSON document that is not a printer list.
pub const NOT_PRINTERS: &'static str = "expected an array of printer records or a single printer record";

/// The value of the first member of `ms` under `key`.
pub open spec fn member(ms: Seq<JsonMember>, key: Seq<char>) -> Option<Json>
    decreases ms.len(),
{
    if ms.len() == 0 {
        None
    } else if ms[0].key@ == key {
        Some(ms[0].value)
    } else {
        member(ms.drop_first(), key)
    }
}

/// The printer that the members of an object describe: `Name` a string,
/// `DriverName` a string, `null` or absent, `Default` a boolean, `null` or
/// absent (absent meaning not the default); `None` when a field has another
/// type or `Name` is missing.
pub open spec fn json_record(ms: Seq<JsonMember>) -> Option<PrinterModel> {
    let name = match member(ms, "Name"@) {
        Some(Json::Str(s)) => Some(s@),
        _ => None,
    };
    let description = match member(ms, "DriverName"@) {
        None => Some(None),
        Some(Json::Null) => Some(None),
        Some(Json::Str(s)) => Some(Some(s@)),
        _ => None,
    };
    let is_default = match member(ms, "Default"@) {
        None => Some(false),
        Some(Json::Null) => Some(false),
        Some(Json::Bool(b)) => Some(b),
        _ => None,
    };
    if name is Some && description is Some && is_default is Some {
        Some(
            PrinterModel {
                name: name->0,
                is_default: is_default->0,
                description: description->0,
                status: None,
            },
        )
    } else {
        None
    }
}

/// The printer that an array element describes, if it is a valid record.
pub open spec fn item_record(j: Json) -> Option<PrinterModel> {
    match j {
        Json::Object(ms) => json_record(ms@),
        _ => None,
    }
}

/// The printers of a JSON document: every element of an array when each is a
/// valid record; the one record of a single object when it is valid; else an
/// error.
pub open spec fn json_printers(j: Json) -> Result<Seq<PrinterModel>, Seq<char>> {
    match j {
        Json::Array(items) => if forall|i: int|
            0 <= i < items@.len() ==> (#[trigger] item_record(items@[i])) is Some {
            Ok(items@.map_values(|it: Json| item_record(it)->0))
        } else {
            Err(NOT_PRINTERS@)
        },
        Json::Object(ms) => match json_record(ms@) {
            Some(p) => Ok(seq![p]),
            None => Err(NOT_PRINTERS@),
        },
        _ => Err(NOT_PRINTERS@),
    }
}

/// The printers of a text read as JSON, or why there are none.
pub open spec fn parsed_printers(parsed: Result<Json, Seq<char>>) -> Result<
    Seq<PrinterModel>,
    Seq<char>,
> {
    match parsed {
        Ok(j) => json_printers(j),
        Err(e) => Err(e),
    }
}

/// The printer list that a run of `Get-Printer` gives: an error with the error
/// output when the command failed; no printers when its output is blank; else
/// the printers of `parsed`, the output read as JSON, or an error that gives
/// the reason and quotes the output.
pub open spec fn query_printers(
    exited_ok: bool,
    out: Seq<char>,
    err: Seq<char>,
    parsed: Result<Json, Seq<char>>,
) -> Result<Seq<PrinterModel>, Seq<char>> {
    if !exited_ok {
        Err(QUERY_FAILED@ + err)
    } else if trim(out).len() == 0 {
        Ok(seq![])
    } else {
        match parsed_printers(parsed) {
            Ok(ps) => Ok(ps),
            Err(e) => Err(UNPARSED@ + e + OUTPUT@ + out),
        }
    }
}

/// Whether an executable printer list or error is the abstract one `q`.
pub open spec fn answers(r: Result<Vec<PrinterInfo>, String>, q: Result<Seq<PrinterModel>, Seq<char>>) -> bool {
    match r {
        Ok(ps) => q == Ok::<Seq<PrinterModel>, Seq<char>>(printers_view(ps@)),
        Err(e) => q == Err::<Seq<PrinterModel>, Seq<char>>(e@),
    }
}

/// The value of the first member of `ms` under `key`.
pub fn member_of<'a>(ms: &'a Vec<JsonMember>, key: &str) -> (r: Option<&'a Json>)
    ensures
        match r {
            Some(v) => member(ms@, key@) == Some(*v),
            None => member(ms@, key@) is None,
        },
{
    let k = String::from_str(key);
    let mut i: usize = 0;
    assert(ms@.subrange(0, ms@.len() as int) =~= ms@);
    while i < ms.len()
        invariant
            i <= ms@.len(),
            k@ == key@,
            member(ms@, key@) == member(ms@.subrange(i as int, ms@.len() as int), key@),
        decreases ms@.len() - i,
    {
        let ghost rest = ms@.subrange(i as int, ms@.len() as int);
        assert(rest.drop_first() =~= ms@.subrange(i + 1, ms@.len() as int));
        if ms[i].key == k {
            return Some(&ms[i].value);
        }
        i = i + 1;
    }
    None
}

/// The printer that the members of an object describe, if its fields have
/// the expected types.
pub fn record_from_members(ms: &Vec<JsonMember>) -> (r: Option<PrinterInfo>)
    ensures
        match r {
            Some(p) => json_record(ms@) == Some(p@),
            None => json_record(ms@) is None,
        },
{
    proof {
        reveal_strlit("Name");
        reveal_strlit("DriverName");
        reveal_strlit("Default");
    }
    let name = match member_of(ms, "Name") {
        Some(Json::Str(s)) => s.clone(),
        _ => {
            return None;
        },
    };
    let description = match member_of(ms, "DriverName") {
        None => None,
        Some(Json::Null) => None,
        Some(Json::Str(s)) => Some(s.clone()),
        _ => {
            return None;
        },
    };
    let is_default = match member_of(ms, "Default") {
        None => false,
        Some(Json::Null) => false,
        Some(Json::Bool(b)) => *b,
        _ => {
            return None;
        },
    };
    Some(PrinterInfo { name, is_default, description, status: None })
}

/// The printers of a JSON document, or why it is not a printer list.
pub fn printers_from_json(j: &Json) -> (r: Result<Vec<PrinterInfo>, String>)
    ensures
        answers(r, json_printers(*j)),
{
    match j {
        Json::Array(items) => {
            let mut acc: Vec<PrinterInfo> = Vec::new();
            let mut i: usize = 0;
            while i < items.len()
                invariant
                    *j is Array,
                    j->Array_0@ == items@,
                    i <= items@.len(),
                    forall|k: int| 0 <= k < i ==> (#[trigger] item_record(items@[k])) is Some,
                    printers_view(acc@) =~= items@.subrange(0, i as int).map_values(
                        |it: Json| item_record(it)->0,
                    ),
                decreases items@.len() - i,
            {
                let ghost before = acc@;
                let rec = match &items[i] {
                    Json::Object(ms) => record_from_members(ms),
                    _ => None,
                };
                match rec {
                    Some(p) => {
                        acc.push(p);
                        assert(printers_view(acc@) =~= printers_view(before).push(p@));
                    },
                    None => {
                        assert(item_record(items@[i as int]) is None);
                        return Err(String::from_str(NOT_PRINTERS));
                    },
                }
                assert(items@.subrange(0, i + 1) =~= items@.subrange(0, i as int).push(
                    items@[i as int],
                ));
                i = i + 1;
            }
            assert(items@.subrange(0, i as int) =~= items@);
            Ok(acc)
        },
        Json::Object(ms) => match record_from_members(ms) {
            Some(p) => {
                let v = vec![p];
                assert(printers_view(v@) =~= seq![p@]);
                Ok(v)
            },
            None => Err(String::from_str(NOT_PRINTERS)),
        },
        _ => Err(String::from_str(NOT_PRINTERS)),
    }
}

/// The printers of a text read as JSON, or why there are none: the reader's
/// message where the text is not JSON.
pub fn read_printers_json(text: &str) -> (r: Result<Vec<PrinterInfo>, String>)
    ensures
        answers(r, parsed_printers(json_of(text@))),
{
    match read_json(text) {
        Ok(j) => printers_from_json(&j),
        Err(e) => Err(e),
    }
}

/// The printer list that a run of `Get-Printer` gives, from its exit status,
/// its output, its error output and its output read as JSON (`parsed`, the
/// document or the reader's message).
pub fn printers_from_query(exited_ok: bool, out: &str, err: &str, parsed: Result<Json, String>) -> (r: Result<Vec<PrinterInfo>, String>)
    ensures
        answers(
            r,
            query_printers(
                exited_ok,
                out@,
                err@,
                match parsed {
                    Ok(j) => Ok::<Json, Seq<char>>(j),
                    Err(e) => Err::<Json, Seq<char>>(e@),
                },
            ),
        ),
{
    if !exited_ok {
        let mut e = String::from_str(QUERY_FAILED);
        e.append(err);
        return Err(e);
    }
    let v = chars_of(out);
    let n = v.len();
    let a = skip_white(&v, 0, n);
    let b = back_white(&v, a, n);
    assert(v@.subrange(0, n as int) =~= v@);
    if a == b {
        let empty: Vec<PrinterInfo> = Vec::new();
        assert(printers_view(empty@) =~= Seq::<PrinterModel>::empty());
        return Ok(empty);
    }
    let listed = match parsed {
        Ok(j) => printers_from_json(&j),
        Err(e) => Err(e),
    };
    match listed {
        Ok(ps) => Ok(ps),
        Err(reason) => {
            let mut e = String::from_str(UNPARSED);
            e.append(reason.as_str());
            e.append(OUTPUT);
            e.append(out);
            Err(e)
        },
    }
}

/// The printer list that a run of `Get-Printer` gives, from its exit status,
/// its output and its error output.
pub fn printers_from_powershell(exited_ok: bool, out: &str, err: &str) -> (r: Result<Vec<PrinterInfo>, String>)
    ensures
        answers(r, query_printers(exited_ok, out@, err@, json_of(out@))),
{
    let parsed = read_json(out);
    printers_from_query(exited_ok, out, err, parsed)
}

/// A run of `Get-Printer` that succeeds with blank output lists no printers
/// and is no error, whatever the output read as JSON.
pub proof fn lemma_blank_reply_no_printers(out: Seq<char>, err: Seq<char>, parsed: Result<Json, Seq<char>>)
    requires
        trim(out).len() == 0,
    ensures
        query_printers(true, out, err, parsed) == Ok::<Seq<PrinterModel>, Seq<char>>(seq![]),
{
}

} // verus!
