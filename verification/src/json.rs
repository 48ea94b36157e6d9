//! JSON as this crate sees it: a model of what a document holds, and the
//! calls into `serde_json` that read, change and write documents. The
//! contracts of those calls are taken on trust; they say what the outside
//! crate does in terms of the model.

use crate::config::texts_view;
use crate::error::{ProjectError, ProjectErrorView};
use crate::text::without;
use vstd::prelude::*;

verus! {

/// A JSON document of `serde_json`. Nothing of its inside is visible here;
/// `json_model` says what it holds.
#[verifier::external_type_specification]
#[verifier::external_body]
pub struct ExJsonValue(serde_json::Value);

/// The error of `serde_json`. Nothing of its inside is visible here;
/// `error_text` is its description.
#[verifier::external_type_specification]
#[verifier::external_body]
pub struct ExJsonError(serde_json::Error);

/// What a JSON document holds.
pub enum JsonModel {
    Null,
    Bool(bool),
    /// A number, by the digits and signs that `serde_json` writes for it.
    Number(Seq<char>),
    Text(Seq<char>),
    List(Seq<JsonModel>),
    /// An object: its members by name. `serde_json` keeps them sorted by
    /// name, so an object is no more than this map.
    Object(Map<Seq<char>, JsonModel>),
}

/// What a document of `serde_json` holds.
pub uninterp spec fn json_model(document: serde_json::Value) -> JsonModel;

/// The description that `serde_json` gives of one of its errors.
pub uninterp spec fn error_text(error: serde_json::Error) -> Seq<char>;

/// What `serde_json::from_str` reads from a text: the document, or the
/// description of its error where the text is no JSON.
pub uninterp spec fn parsed_json(text: Seq<char>) -> Result<JsonModel, Seq<char>>;

/// What `serde_json::to_string_pretty` writes for a document: its indented
/// text, or the description of its error.
pub uninterp spec fn pretty_json(document: JsonModel) -> Result<Seq<char>, Seq<char>>;

/// What `serde_json::to_string` writes for a list of texts: a JSON array on
/// one line, or the description of its error.
pub uninterp spec fn json_list_text(items: Seq<Seq<char>>) -> Result<Seq<char>, Seq<char>>;

/// What `serde_json::to_string` writes for a text: a JSON string on one
/// line, or the description of its error.
pub uninterp spec fn json_text(text: Seq<char>) -> Result<Seq<char>, Seq<char>>;

/// The document that is a list of texts.
pub open spec fn list_model(items: Seq<Seq<char>>) -> JsonModel {
    JsonModel::List(Seq::new(items.len(), |i: int| JsonModel::Text(items[i])))
}

/// A written text holds no line break and is read as the given document.
pub open spec fn reads_as(json: Seq<char>, document: JsonModel) -> bool {
    &&& without(json, '\n')
    &&& parsed_json(json) == Ok::<JsonModel, Seq<char>>(document)
}

/// A document that can be given members: an object, or null, which then
/// becomes an object.
pub open spec fn takes_members(document: JsonModel) -> bool {
    document is Object || document is Null
}

/// A document after one of its members was set: the member is added to an
/// object, or replaces the one of that name; null becomes an object with
/// that one member.
pub open spec fn with_member(document: JsonModel, name: Seq<char>, member: JsonModel) -> JsonModel {
    match document {
        JsonModel::Object(members) => JsonModel::Object(members.insert(name, member)),
        _ => JsonModel::Object(Map::empty().insert(name, member)),
    }
}

/// Calls `serde_json::from_str` for a whole document. Trusted: the outcome
/// depends on the text alone, and `parsed_json` is the name of what the
/// call returns for it.
#[verifier::external_body]
pub(crate) fn parse_document(text: &str) -> (parsed: Result<serde_json::Value, serde_json::Error>)
    ensures
        match parsed {
            Ok(document) => parsed_json(text@) == Ok::<JsonModel, Seq<char>>(json_model(document)),
            Err(error) => parsed_json(text@) == Err::<JsonModel, Seq<char>>(error_text(error)),
        },
{
    serde_json::from_str::<serde_json::Value>(text)
}

/// Calls `serde_json::to_string_pretty` on a document. Trusted: the outcome
/// depends on what the document holds alone, and `pretty_json` is the name
/// of what the call returns for it. The call succeeds: it writes into
/// memory, and a document holds nothing that cannot be written.
#[verifier::external_body]
pub(crate) fn write_document(document: &serde_json::Value) -> (written: Result<
    String,
    serde_json::Error,
>)
    ensures
        match written {
            Ok(text) => pretty_json(json_model(*document)) == Ok::<Seq<char>, Seq<char>>(text@),
            Err(error) => pretty_json(json_model(*document)) == Err::<Seq<char>, Seq<char>>(
                error_text(error),
            ),
        },
        written is Ok,
{
    serde_json::to_string_pretty(document)
}

/// Calls `serde_json::to_string` on a list of texts. Trusted: the outcome
/// depends on the texts alone, and `json_list_text` is the name of what
/// the call returns for them. The call succeeds: it writes into memory, and
/// every text can be written. What it writes holds no line break, since
/// control characters are escaped, and is read back by `serde_json` as the
/// list of the same texts in the same order.
#[verifier::external_body]
pub(crate) fn write_list(items: &Vec<String>) -> (written: Result<String, serde_json::Error>)
    ensures
        match written {
            Ok(text) => json_list_text(texts_view(items@)) == Ok::<Seq<char>, Seq<char>>(text@),
            Err(error) => json_list_text(texts_view(items@)) == Err::<Seq<char>, Seq<char>>(
                error_text(error),
            ),
        },
        written is Ok,
        written matches Ok(text) ==> reads_as(text@, list_model(texts_view(items@))),
{
    serde_json::to_string(items)
}

/// Calls `serde_json::to_string` on a text. Trusted: the outcome depends on
/// the text alone, and `json_text` is the name of what the call returns for
/// it. The call succeeds: it writes into memory, and every text can be
/// written. What it writes holds no line break, since control characters
/// are escaped, and is read back by `serde_json` as the same text.
#[verifier::external_body]
pub(crate) fn write_text(text: &str) -> (written: Result<String, serde_json::Error>)
    ensures
        match written {
            Ok(json) => json_text(text@) == Ok::<Seq<char>, Seq<char>>(json@),
            Err(error) => json_text(text@) == Err::<Seq<char>, Seq<char>>(error_text(error)),
        },
        written is Ok,
        written matches Ok(json) ==> reads_as(json@, JsonModel::Text(text@)),
{
    serde_json::to_string(text)
}

/// Calls `serde_json::Value::is_object`. Trusted: it tells whether the
/// document is an object.
#[verifier::external_body]
pub(crate) fn is_object(document: &serde_json::Value) -> (answer: bool)
    ensures
        answer == (json_model(*document) is Object),
{
    document.is_object()
}

/// Calls `serde_json::Value::is_null`. Trusted: it tells whether the
/// document is null.
#[verifier::external_body]
pub(crate) fn is_null(document: &serde_json::Value) -> (answer: bool)
    ensures
        answer == (json_model(*document) is Null),
{
    document.is_null()
}

/// Makes a `serde_json::Value::Object` from `serde_json::Map::new`. Trusted:
/// the document is an object without members.
#[verifier::external_body]
pub(crate) fn empty_object() -> (document: serde_json::Value)
    ensures
        json_model(document) == JsonModel::Object(Map::empty()),
{
    serde_json::Value::Object(serde_json::Map::new())
}

/// Makes a `serde_json::Value::String`. Trusted: the document is the text.
#[verifier::external_body]
pub(crate) fn text_value(text: &str) -> (document: serde_json::Value)
    ensures
        json_model(document) == JsonModel::Text(text@),
{
    serde_json::Value::String(text.to_owned())
}

/// Assigns to a member through the index operator of `serde_json::Value`,
/// which panics on a document that is neither an object nor null. Trusted:
/// the member is set as `with_member` says.
#[verifier::external_body]
pub(crate) fn set_member(document: &mut serde_json::Value, name: &str, member: serde_json::Value)
    requires
        takes_members(json_model(*old(document))),
    ensures
        json_model(*final(document)) == with_member(
            json_model(*old(document)),
            name@,
            json_model(member),
        ),
{
    document[name] = member;
}

/// Formats a `serde_json::Error` through its `Display`. Trusted: the text is
/// the error's description.
#[verifier::external_body]
pub(crate) fn describe(error: &serde_json::Error) -> (text: String)
    ensures
        text@ == error_text(*error),
{
    format!("{}", error)
}

/// The failure that an error of `serde_json` stands for: structured data
/// could not be read or written, and the error's description says why.
pub fn config_error(error: serde_json::Error) -> (failure: ProjectError)
    ensures
        failure@ == ProjectErrorView::ConfigError(error_text(error)),
{
    ProjectError::ConfigError(describe(&error))
}

} // verus!
