//! The query that selects the finished output artifacts of one job
//! execution.

use crate::ident::RecordId;
use crate::text::{unquoted, without_quotes};
use mongodb::bson::oid::ObjectId;
use mongodb::bson::Document;
use vstd::prelude::*;

verus! {

/// A BSON document, as the `bson` crate holds it.
#[verifier::external_type_specification]
#[verifier::external_body]
pub struct ExDocument(mongodb::bson::Document);

/// What a field of a document holds.
pub enum FieldValue {
    /// A string.
    Text(Seq<char>),
    /// The identifier of a record, by its bytes.
    Id(Seq<u8>),
    /// A value of any other kind.
    Other,
}

/// All the fields of a document, by key: each key of the document is in the
/// map, with what its field holds.
pub uninterp spec fn document_fields(document: Document) -> Map<Seq<char>, FieldValue>;

/// No field at all.
pub open spec fn no_fields() -> Map<Seq<char>, FieldValue> {
    Map::empty()
}

/// A document without fields.
///
/// Calls `Document::new`, which makes a document over an empty map.
#[verifier::external_body]
fn empty_document() -> (fresh: Document)
    ensures
        document_fields(fresh) == no_fields(),
{
    Document::new()
}

/// Sets the field `key` to the string `value`.
///
/// Calls `Document::insert` with a `String`, which becomes `Bson::String`.
/// The contract claims that the field is added, or replaced where the key
/// was there, and that no other field changes.
#[verifier::external_body]
fn set_text(document: &mut Document, key: &str, value: String)
    ensures
        document_fields(*final(document)) == document_fields(*old(document)).insert(
            key@,
            FieldValue::Text(value@),
        ),
{
    document.insert(key, value);
}

/// Sets the field `key` to the identifier `id`.
///
/// Calls `Document::insert` with the `ObjectId` made of the bytes of `id`,
/// which becomes `Bson::ObjectId`. The contract claims that the field is
/// added, or replaced where the key was there, and that no other field
/// changes.
#[verifier::external_body]
fn set_id(document: &mut Document, key: &str, id: RecordId)
    ensures
        document_fields(*final(document)) == document_fields(*old(document)).insert(
            key@,
            FieldValue::Id(id@),
        ),
{
    document.insert(key, ObjectId::from_bytes(id.bytes));
}

/// The fields of the query for the output artifacts of `entity`, these three
/// and no other: its kind and its status are given as the service writes
/// them, in double quotes or without.
pub open spec fn output_artifact_fields(
    artifact_type: Seq<char>,
    entity: Seq<u8>,
    status: Seq<char>,
) -> Map<Seq<char>, FieldValue> {
    no_fields().insert(
        "artifact_type"@,
        FieldValue::Text(without_quotes(artifact_type)),
    ).insert("entity_id"@, FieldValue::Id(entity)).insert(
        "status"@,
        FieldValue::Text(without_quotes(status)),
    )
}

/// The query for the artifacts of kind `artifact_type` and status `status`
/// that belong to `entity`. Double quotes in the two names are dropped.
pub fn output_artifact_filter(artifact_type: &str, entity: RecordId, status: &str) -> (filter:
    Document)
    ensures
        document_fields(filter) == output_artifact_fields(artifact_type@, entity@, status@),
{
    let mut filter = empty_document();
    set_text(&mut filter, "artifact_type", unquoted(artifact_type));
    set_id(&mut filter, "entity_id", entity);
    set_text(&mut filter, "status", unquoted(status));
    filter
}

} // verus!
