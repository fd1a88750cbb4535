//! Documents: the attributes that the service assigns, and the data of the
//! owner, side by side in one flat JSON object.

use crate::document_attributes::{
    DocumentAttributes, DocumentAttributesView, FIELD_ETAG, FIELD_ID, FIELD_SELF, FIELD_TS,
};
use crate::json::{
    json_text, json_u64, object_clone, object_contains_key, object_fields, object_insert,
    object_remove, parse_object, parsed_object, value_as_str, value_as_u64, value_from_string,
    value_from_u64, JsonObject,
};
use crate::resource::Resource;
use http::header::HeaderMap;
use serde_json::Value;
use vstd::prelude::*;

verus! {

/// The attributes of a document that travel in its JSON object.
#[derive(Debug, Clone, Copy, PartialEq, Eq)]
pub enum MetadataField {
    Id,
    SelfLink,
    Etag,
    Timestamp,
}

impl MetadataField {
    /// The key of the attribute in the JSON object.
    pub open spec fn spec_key(self) -> Seq<char> {
        match self {
            MetadataField::Id => FIELD_ID@,
            MetadataField::SelfLink => FIELD_SELF@,
            MetadataField::Etag => FIELD_ETAG@,
            MetadataField::Timestamp => FIELD_TS@,
        }
    }

    /// The key of the attribute in the JSON object.
    pub fn key(&self) -> (key: &'static str)
        ensures
            key@ == self.spec_key(),
    {
        match self {
            MetadataField::Id => FIELD_ID,
            MetadataField::SelfLink => FIELD_SELF,
            MetadataField::Etag => FIELD_ETAG,
            MetadataField::Timestamp => FIELD_TS,
        }
    }
}

/// Why a response body is not a document.
#[derive(Debug)]
pub enum ParseError {
    /// The body is not the text of one JSON object.
    Json(serde_json::Error),
    /// The object lacks an attribute that every document has.
    MissingField(MetadataField),
    /// An attribute is not of its kind: a text is no JSON string, the time no
    /// unsigned integer.
    InvalidField(MetadataField),
}

/// User-defined content in JSON format, with the attributes that the service
/// keeps of it.
#[derive(Debug, Clone)]
pub struct Document<T> {
    pub document_attributes: DocumentAttributes,
    pub document: T,
}

/// A document whose data is a JSON object, as plain values.
pub struct DocumentView {
    /// The attributes that the service assigns.
    pub attributes: DocumentAttributesView,
    /// The entries of the data of the owner.
    pub payload: Map<Seq<char>, Value>,
}

impl View for Document<JsonObject> {
    type V = DocumentView;

    open spec fn view(&self) -> DocumentView {
        DocumentView {
            attributes: self.document_attributes@,
            payload: object_fields(self.document),
        }
    }
}

/// The keys that the attributes take in the JSON object of a document.
pub open spec fn metadata_keys() -> Set<Seq<char>> {
    set![FIELD_ID@, FIELD_SELF@, FIELD_ETAG@, FIELD_TS@]
}

impl DocumentView {
    /// Whether the data keeps clear of the attributes: no entry of it stands
    /// under the key of an attribute. Only such a document has a flat JSON
    /// object that holds all of its data.
    pub open spec fn well_formed(self) -> bool {
        self.payload.dom().disjoint(metadata_keys())
    }
}

/// The text of the attribute `field` in `fields`: `None` where the object has
/// no such key, an error where the value under it is no JSON string.
pub open spec fn text_field(fields: Map<Seq<char>, Value>, field: MetadataField) -> Result<
    Option<Seq<char>>,
    ParseError,
> {
    if !fields.dom().contains(field.spec_key()) {
        Ok(None)
    } else {
        match json_text(fields[field.spec_key()]) {
            Some(text) => Ok(Some(text)),
            None => Err(ParseError::InvalidField(field)),
        }
    }
}

/// The text of the attribute `field`, which every document has.
pub open spec fn required_text(fields: Map<Seq<char>, Value>, field: MetadataField) -> Result<
    Seq<char>,
    ParseError,
> {
    match text_field(fields, field) {
        Ok(Some(text)) => Ok(text),
        Ok(None) => Err(ParseError::MissingField(field)),
        Err(error) => Err(error),
    }
}

/// The text of the attribute `field`, empty where the object has none.
pub open spec fn optional_text(fields: Map<Seq<char>, Value>, field: MetadataField) -> Result<
    Seq<char>,
    ParseError,
> {
    match text_field(fields, field) {
        Ok(Some(text)) => Ok(text),
        Ok(None) => Ok(Seq::empty()),
        Err(error) => Err(error),
    }
}

/// The time of the last change in `fields`, 0 where the object has none.
pub open spec fn timestamp_field(fields: Map<Seq<char>, Value>) -> Result<u64, ParseError> {
    if !fields.dom().contains(FIELD_TS@) {
        Ok(0)
    } else {
        match json_u64(fields[FIELD_TS@]) {
            Some(ts) => Ok(ts),
            None => Err(ParseError::InvalidField(MetadataField::Timestamp)),
        }
    }
}

/// The attributes that the entries of a JSON object give a document. The id
/// and the self-link must be there; the entity tag and the time default. The
/// first attribute that fails, in the order id, self-link, entity tag, time,
/// decides the error.
pub open spec fn metadata_of(fields: Map<Seq<char>, Value>) -> Result<
    DocumentAttributesView,
    ParseError,
> {
    match required_text(fields, MetadataField::Id) {
        Err(error) => Err(error),
        Ok(id) => match required_text(fields, MetadataField::SelfLink) {
            Err(error) => Err(error),
            Ok(self_link) => match optional_text(fields, MetadataField::Etag) {
                Err(error) => Err(error),
                Ok(etag) => match timestamp_field(fields) {
                    Err(error) => Err(error),
                    Ok(ts) => Ok(DocumentAttributesView { id, self_link, etag, ts }),
                },
            },
        },
    }
}

/// The entries of a JSON object that are the data of the document's owner:
/// all but the attributes.
pub open spec fn payload_of(fields: Map<Seq<char>, Value>) -> Map<Seq<char>, Value> {
    fields.remove_keys(metadata_keys())
}

/// The document that the entries of a flat JSON object stand for: the entries
/// under the keys of the attributes are the attributes, all others the data.
pub open spec fn unflattened(fields: Map<Seq<char>, Value>) -> Result<DocumentView, ParseError> {
    match metadata_of(fields) {
        Ok(attributes) => Ok(DocumentView { attributes, payload: payload_of(fields) }),
        Err(error) => Err(error),
    }
}

/// Whether `fields` are the entries of the flat JSON object of `document`: the
/// entries of its data and, in place of any of them that stands under the key
/// of an attribute, one entry for each attribute.
pub open spec fn flattened(document: DocumentView, fields: Map<Seq<char>, Value>) -> bool {
    &&& fields.dom() == document.payload.dom().union(metadata_keys())
    &&& forall|key: Seq<char>|
        document.payload.dom().contains(key) && !metadata_keys().contains(key)
            ==> #[trigger] fields[key] == document.payload[key]
    &&& json_text(fields[FIELD_ID@]) == Some(document.attributes.id)
    &&& json_text(fields[FIELD_SELF@]) == Some(document.attributes.self_link)
    &&& json_text(fields[FIELD_ETAG@]) == Some(document.attributes.etag)
    &&& json_u64(fields[FIELD_TS@]) == Some(document.attributes.ts)
}

/// What a decoding gave, as plain values.
pub open spec fn decoded_view(decoded: Result<Document<JsonObject>, ParseError>) -> Result<
    DocumentView,
    ParseError,
> {
    match decoded {
        Ok(document) => Ok(document@),
        Err(error) => Err(error),
    }
}

/// The keys of the four attributes differ from each other.
pub proof fn lemma_metadata_keys_distinct()
    ensures
        FIELD_ID@ != FIELD_SELF@,
        FIELD_ID@ != FIELD_ETAG@,
        FIELD_ID@ != FIELD_TS@,
        FIELD_SELF@ != FIELD_ETAG@,
        FIELD_SELF@ != FIELD_TS@,
        FIELD_ETAG@ != FIELD_TS@,
{
    reveal_strlit("id");
    reveal_strlit("_self");
    reveal_strlit("_etag");
    reveal_strlit("_ts");
    assert(FIELD_ID@.len() == 2);
    assert(FIELD_SELF@.len() == 5 && FIELD_SELF@[1] == 's');
    assert(FIELD_ETAG@.len() == 5 && FIELD_ETAG@[1] == 'e');
    assert(FIELD_TS@.len() == 3);
}

impl<T> Document<T> {
    /// A document that was never written: the data, with default attributes.
    pub fn new(document: T) -> (created: Self)
        ensures
            created.document == document,
            created.document_attributes@ == DocumentAttributes::spec_default(),
    {
        let document_attributes = DocumentAttributes::default();

        Self { document_attributes, document }
    }
}

impl<T> Resource for Document<T> {
    /// The self-link of the document.
    fn uri(&self) -> (uri: &str)
        ensures
            uri@ == self.document_attributes@.self_link,
    {
        self.document_attributes._self()
    }
}

impl<T> Resource for &Document<T> {
    /// The self-link of the document, as its owner has it.
    fn uri(&self) -> (uri: &str)
        ensures
            uri@ == self.document_attributes@.self_link,
    {
        self.document_attributes._self()
    }
}

/// What taking a text out of an object gave, as plain values.
spec fn taken_view(taken: Result<Option<String>, ParseError>) -> Result<
    Option<Seq<char>>,
    ParseError,
> {
    match taken {
        Ok(Some(text)) => Ok(Some(text@)),
        Ok(None) => Ok(None),
        Err(error) => Err(error),
    }
}

/// Takes the attribute `field` out of `object` and reads it as a text.
fn take_text(object: &mut JsonObject, field: MetadataField) -> (taken: Result<
    Option<String>,
    ParseError,
>)
    ensures
        object_fields(*final(object)) == object_fields(*old(object)).remove(field.spec_key()),
        taken_view(taken) == text_field(object_fields(*old(object)), field),
{
    match object_remove(object, field.key()) {
        None => Ok(None),
        Some(value) => match value_as_str(&value) {
            Some(text) => Ok(Some(text.to_owned())),
            None => Err(ParseError::InvalidField(field)),
        },
    }
}

/// Takes the time of the last change out of `object`.
fn take_timestamp(object: &mut JsonObject) -> (taken: Result<u64, ParseError>)
    ensures
        object_fields(*final(object)) == object_fields(*old(object)).remove(FIELD_TS@),
        taken == timestamp_field(object_fields(*old(object))),
{
    match object_remove(object, FIELD_TS) {
        None => Ok(0),
        Some(value) => match value_as_u64(&value) {
            Some(ts) => Ok(ts),
            None => Err(ParseError::InvalidField(MetadataField::Timestamp)),
        },
    }
}

impl Document<JsonObject> {
    /// Whether no entry of the data stands under the key of an attribute.
    pub fn is_well_formed(&self) -> (ok: bool)
        ensures
            ok == self@.well_formed(),
    {
        !object_contains_key(&self.document, FIELD_ID) && !object_contains_key(
            &self.document,
            FIELD_SELF,
        ) && !object_contains_key(&self.document, FIELD_ETAG) && !object_contains_key(
            &self.document,
            FIELD_TS,
        )
    }

    /// The document that a flat JSON object stands for. The entries under the
    /// keys of the attributes become the attributes, all other entries the
    /// data, which is well formed. It fails where the id or the self-link is
    /// missing, and where an attribute is not of its kind.
    pub fn from_object(object: JsonObject) -> (decoded: Result<Self, ParseError>)
        ensures
            decoded_view(decoded) == unflattened(object_fields(object)),
            decoded matches Ok(document) ==> document@.well_formed(),
    {
        let ghost fields = object_fields(object);
        proof {
            lemma_metadata_keys_distinct();
        }
        let mut rest = object;
        let id = match take_text(&mut rest, MetadataField::Id) {
            Err(error) => {
                return Err(error);
            },
            Ok(None) => {
                return Err(ParseError::MissingField(MetadataField::Id));
            },
            Ok(Some(text)) => text,
        };
        let self_link = match take_text(&mut rest, MetadataField::SelfLink) {
            Err(error) => {
                return Err(error);
            },
            Ok(None) => {
                return Err(ParseError::MissingField(MetadataField::SelfLink));
            },
            Ok(Some(text)) => text,
        };
        let etag = match take_text(&mut rest, MetadataField::Etag) {
            Err(error) => {
                return Err(error);
            },
            Ok(None) => String::new(),
            Ok(Some(text)) => text,
        };
        let ts = match take_timestamp(&mut rest) {
            Err(error) => {
                return Err(error);
            },
            Ok(ts) => ts,
        };
        proof {
            assert(object_fields(rest) =~= payload_of(fields));
        }
        let document_attributes = DocumentAttributes::new(id, self_link, etag, ts);

        Ok(Document { document_attributes, document: rest })
    }

    /// The document in a response: `value.1` is the body, the text of the
    /// document's flat JSON object. The headers in `value.0` are not read.
    /// It fails with `ParseError::Json` on a body that is not the text of one
    /// JSON object, and as `from_object` does on the object of any other.
    pub fn try_from(value: (&HeaderMap, &[u8])) -> (decoded: Result<Self, ParseError>)
        ensures
            match parsed_object(value.1@) {
                Some(fields) => decoded_view(decoded) == unflattened(fields),
                None => decoded matches Err(ParseError::Json(_)),
            },
            decoded matches Ok(document) ==> document@.well_formed(),
    {
        let _headers = value.0;
        let body = value.1;

        match parse_object(body) {
            Ok(object) => Document::from_object(object),
            Err(error) => Err(ParseError::Json(error)),
        }
    }

    /// The flat JSON object of the document: the entries of its data, and one
    /// entry for each attribute. An entry of the data under the key of an
    /// attribute gives way to the attribute.
    pub fn to_object(&self) -> (object: JsonObject)
        ensures
            flattened(self@, object_fields(object)),
    {
        proof {
            lemma_metadata_keys_distinct();
        }
        let attributes = &self.document_attributes;
        let mut object = object_clone(&self.document);
        object_insert(&mut object, FIELD_ID.to_owned(), value_from_string(attributes.id().to_owned()));
        object_insert(
            &mut object,
            FIELD_SELF.to_owned(),
            value_from_string(attributes._self().to_owned()),
        );
        object_insert(
            &mut object,
            FIELD_ETAG.to_owned(),
            value_from_string(attributes.etag().to_owned()),
        );
        object_insert(&mut object, FIELD_TS.to_owned(), value_from_u64(attributes.ts()));
        proof {
            assert(object_fields(object).dom() =~= self@.payload.dom().union(metadata_keys()));
        }
        object
    }
}

/// A document survives the way through its flat JSON object: once flattened,
/// the object gives back the same attributes and the same data, provided that
/// no entry of the data stands under the key of an attribute. This holds of a
/// document fresh from `new` as of any other.
pub proof fn lemma_flatten_round_trip(document: DocumentView, fields: Map<Seq<char>, Value>)
    requires
        flattened(document, fields),
        document.well_formed(),
    ensures
        unflattened(fields) == Ok::<DocumentView, ParseError>(document),
{
    lemma_metadata_keys_distinct();
    assert(fields.dom().contains(FIELD_ID@));
    assert(fields.dom().contains(FIELD_SELF@));
    assert(fields.dom().contains(FIELD_ETAG@));
    assert(fields.dom().contains(FIELD_TS@));
    assert(payload_of(fields) =~= document.payload);
}

} // verus!
