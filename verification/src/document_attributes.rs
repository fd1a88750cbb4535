//! What the service records about a document next to the data of its owner.

use vstd::prelude::*;

verus! {

/// The key of the id in a document's JSON object.
pub const FIELD_ID: &'static str = "id";

/// The key of the self-link in a document's JSON object.
pub const FIELD_SELF: &'static str = "_self";

/// The key of the entity tag in a document's JSON object.
pub const FIELD_ETAG: &'static str = "_etag";

/// The key of the time of the last change in a document's JSON object.
pub const FIELD_TS: &'static str = "_ts";

/// The attributes that the service assigns to a document. A document that was
/// never written has the default ones: empty texts and the time 0.
#[derive(Debug, Clone, PartialEq, Eq)]
pub struct DocumentAttributes {
    id: String,
    _self: String,
    etag: String,
    ts: u64,
}

/// The attributes of a document as plain values.
pub struct DocumentAttributesView {
    /// The id of the document, unique in its collection.
    pub id: Seq<char>,
    /// The link under which the service addresses the document.
    pub self_link: Seq<char>,
    /// The entity tag: the version of the document.
    pub etag: Seq<char>,
    /// The time of the last change, in seconds since the epoch.
    pub ts: u64,
}

impl View for DocumentAttributes {
    type V = DocumentAttributesView;

    closed spec fn view(&self) -> DocumentAttributesView {
        DocumentAttributesView {
            id: self.id@,
            self_link: self._self@,
            etag: self.etag@,
            ts: self.ts,
        }
    }
}

impl DocumentAttributes {
    /// The attributes of a document that was never written.
    pub open spec fn spec_default() -> DocumentAttributesView {
        DocumentAttributesView {
            id: Seq::empty(),
            self_link: Seq::empty(),
            etag: Seq::empty(),
            ts: 0,
        }
    }

    /// The attributes with the given values.
    pub fn new(id: String, self_link: String, etag: String, ts: u64) -> (attributes: Self)
        ensures
            attributes@ == (DocumentAttributesView {
                id: id@,
                self_link: self_link@,
                etag: etag@,
                ts,
            }),
    {
        DocumentAttributes { id, _self: self_link, etag, ts }
    }

    /// The id of the document.
    pub fn id(&self) -> (id: &str)
        ensures
            id@ == self@.id,
    {
        self.id.as_str()
    }

    /// The link under which the service addresses the document.
    pub fn _self(&self) -> (link: &str)
        ensures
            link@ == self@.self_link,
    {
        self._self.as_str()
    }

    /// The entity tag of the document.
    pub fn etag(&self) -> (etag: &str)
        ensures
            etag@ == self@.etag,
    {
        self.etag.as_str()
    }

    /// The time of the last change, in seconds since the epoch.
    pub fn ts(&self) -> (ts: u64)
        ensures
            ts == self@.ts,
    {
        self.ts
    }
}

impl Default for DocumentAttributes {
    /// The attributes of a document that was never written.
    fn default() -> (attributes: Self)
        ensures
            attributes@ == DocumentAttributes::spec_default(),
    {
        DocumentAttributes { id: String::new(), _self: String::new(), etag: String::new(), ts: 0 }
    }
}

} // verus!
