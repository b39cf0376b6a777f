//! The extra runtime arguments: an optional setting whose text is a JSON
//! array of strings, placed before the `--` of the runtime's command line.
use vstd::prelude::*;

verus! {

#[verifier::external_type_specification]
#[verifier::external_body]
pub struct ExJsonError(serde_json::Error);

/// One entry of a JSON array, as far as the launcher reads it.
#[derive(Debug, PartialEq, Eq)]
pub enum JsonEntry {
    /// A JSON string, with its text.
    Text(String),
    /// Any other JSON value, with a rendering of it for messages.
    Other(String),
}

/// A JSON document, as far as the launcher reads it.
#[derive(Debug, PartialEq, Eq)]
pub enum JsonDocument {
    /// A top-level array, with its entries in order.
    List(Vec<JsonEntry>),
    /// Any other top-level value.
    Other,
}

/// Why the extra runtime arguments cannot be used.
#[derive(Debug)]
pub enum ConfigError {
    /// The setting is not valid JSON.
    Malformed(serde_json::Error),
    /// The setting is JSON, but not an array.
    NotAList,
    /// An entry of the array is not a string; it holds that entry's rendering.
    NotText(String),
}

/// The document that a JSON text holds, or `None` where it is not JSON.
pub uninterp spec fn json_document(text: Seq<char>) -> Option<JsonDocument>;

/// Relies on `serde_json::from_str` to read `text` as a `serde_json::Value`,
/// whose array and string variants are then moved into the launcher's own
/// types. The result depends on the text alone.
#[verifier::external_body]
fn read_json(text: &str) -> (r: Result<JsonDocument, serde_json::Error>)
    ensures
        r is Ok <==> json_document(text@) is Some,
        r matches Ok(d) ==> json_document(text@) == Some(d),
{
    Ok(match serde_json::from_str::<serde_json::Value>(text)? {
        serde_json::Value::Array(items) => JsonDocument::List(items.into_iter().map(|v| match v {
            serde_json::Value::String(s) => JsonEntry::Text(s),
            other => JsonEntry::Other(format!("{:?}", other)),
        }).collect()),
        _ => JsonDocument::Other,
    })
}

/// Whether every entry is a string.
pub open spec fn all_text(es: Seq<JsonEntry>) -> bool {
    forall|i: int| 0 <= i < es.len() ==> (#[trigger] es[i]) is Text
}

/// The texts of entries that are all strings.
pub open spec fn texts(es: Seq<JsonEntry>) -> Seq<String> {
    es.map_values(|e: JsonEntry| e->Text_0)
}

/// `x` renders the first entry that is not a string.
pub open spec fn first_other(es: Seq<JsonEntry>, x: String) -> bool {
    exists|i: int|
        0 <= i < es.len() && #[trigger] es[i] == JsonEntry::Other(x) && (forall|j: int|
            0 <= j < i ==> (#[trigger] es[j]) is Text)
}

/// What the entries of an array give: their texts where all are strings, and
/// otherwise the rendering of the first that is not.
pub open spec fn entries_outcome(es: Seq<JsonEntry>, r: Result<Vec<String>, ConfigError>) -> bool {
    if all_text(es) {
        r matches Ok(v) && v@ == texts(es)
    } else {
        r matches Err(ConfigError::NotText(x)) && first_other(es, x)
    }
}

/// What a document gives: the arguments where it is an array of strings, and
/// otherwise the error that names what is wrong with it.
pub open spec fn document_outcome(doc: JsonDocument, r: Result<Vec<String>, ConfigError>) -> bool {
    match doc {
        JsonDocument::Other => r matches Err(ConfigError::NotAList),
        JsonDocument::List(es) => entries_outcome(es@, r),
    }
}

/// The texts of the entries, or an error at the first that is not a string.
fn args_from_entries(es: &Vec<JsonEntry>) -> (r: Result<Vec<String>, ConfigError>)
    ensures
        entries_outcome(es@, r),
{
    let mut out: Vec<String> = Vec::new();
    let mut i: usize = 0;
    while i < es.len()
        invariant
            0 <= i <= es@.len(),
            forall|j: int| 0 <= j < i ==> (#[trigger] es@[j]) is Text,
            out@ == texts(es@.subrange(0, i as int)),
        decreases es@.len() - i,
    {
        match &es[i] {
            JsonEntry::Text(s) => {
                out.push(s.clone());
            },
            JsonEntry::Other(x) => {
                assert(es@[i as int] == JsonEntry::Other(*x));
                assert(first_other(es@, *x));
                return Err(ConfigError::NotText(x.clone()));
            },
        }
        i = i + 1;
        assert(out@ =~= texts(es@.subrange(0, i as int)));
    }
    assert(es@.subrange(0, es@.len() as int) =~= es@);
    Ok(out)
}

/// The runtime arguments that a JSON document lists.
pub fn args_from_document(doc: JsonDocument) -> (r: Result<Vec<String>, ConfigError>)
    ensures
        document_outcome(doc, r),
{
    match doc {
        JsonDocument::Other => Err(ConfigError::NotAList),
        JsonDocument::List(es) => args_from_entries(&es),
    }
}

/// The extra runtime arguments that a setting gives, if it is usable: none
/// without a setting, and the strings of a JSON array of strings.
pub open spec fn extra_args_of(setting: Option<Seq<char>>) -> Option<Seq<String>> {
    match setting {
        None => Some(Seq::empty()),
        Some(t) => match json_document(t) {
            Some(JsonDocument::List(es)) => if all_text(es@) {
                Some(texts(es@))
            } else {
                None
            },
            _ => None,
        },
    }
}

/// What a setting gives: the arguments it lists, or the error that names what
/// is wrong with it.
pub open spec fn setting_outcome(
    setting: Option<Seq<char>>,
    r: Result<Vec<String>, ConfigError>,
) -> bool {
    match setting {
        None => r matches Ok(v) && v@.len() == 0,
        Some(t) => match json_document(t) {
            None => r matches Err(ConfigError::Malformed(_)),
            Some(d) => document_outcome(d, r),
        },
    }
}

/// A setting whose JSON is not an array, or is an array with an entry that is
/// not a string, gives no arguments: the launch stops on it.
pub proof fn lemma_malformed_setting_rejected(text: Seq<char>, doc: JsonDocument)
    requires
        json_document(text) == Some(doc),
        doc is Other || (doc matches JsonDocument::List(es) && exists|i: int|
            0 <= i < es@.len() && (#[trigger] es@[i]) is Other),
    ensures
        extra_args_of(Some(text)) is None,
{
}

/// The view of an optional string slice.
pub open spec fn setting_view(s: Option<&str>) -> Option<Seq<char>> {
    match s {
        Some(x) => Some(x@),
        None => None,
    }
}

/// The extra runtime arguments from the setting's text, if the setting is
/// there. Without it there are none.
pub fn extra_runtime_args(setting: Option<&str>) -> (r: Result<Vec<String>, ConfigError>)
    ensures
        setting_outcome(setting_view(setting), r),
        extra_args_of(setting_view(setting)) matches Some(v) ==> (r matches Ok(w) && w@ == v),
        extra_args_of(setting_view(setting)) is None ==> r is Err,
{
    match setting {
        None => Ok(Vec::new()),
        Some(text) => match read_json(text) {
            Err(e) => Err(ConfigError::Malformed(e)),
            Ok(doc) => args_from_document(doc),
        },
    }
}

} // verus!
