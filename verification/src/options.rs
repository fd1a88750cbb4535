//! Request options, each of which adds itself to a request as one header.

use crate::headers::{
    HEADER_ALLOW_MULTIPLE_WRITES, HEADER_A_IM, HEADER_DOCUMENTDB_IS_UPSERT,
    HEADER_DOCUMENTDB_PARTITIONRANGEID, HEADER_DOCUMENTDB_QUERY_ENABLECROSSPARTITION,
    HEADER_DOCUMENTDB_QUERY_PARALLELIZECROSSPARTITIONQUERY,
};
use crate::request_headers::{
    builder_failed, builder_header, builder_headers, header_appended, header_map_takes,
    header_value_accepted, header_value_char, lemma_value_accepted_by_chars, lower_name,
};
use http::request::Builder;
use vstd::prelude::*;
use vstd::utf8::encode_utf8;

verus! {

/// Whether a query may fan out over every partition of a collection.
#[derive(Debug, Clone, Copy, PartialEq)]
pub enum QueryCrossPartition {
    Yes,
    No,
}

impl QueryCrossPartition {
    /// The header value of the option: `true` for `Yes`, `false` for `No`.
    pub open spec fn spec_bool_str(&self) -> Seq<char> {
        match self {
            Self::Yes => "true"@,
            Self::No => "false"@,
        }
    }

    /// The value of the option as the text of a header.
    pub fn as_bool_str(&self) -> (text: &str)
        ensures
            text@ == self.spec_bool_str(),
    {
        match self {
            Self::Yes => "true",
            Self::No => "false",
        }
    }

    /// Appends `enable-cross-partition-query` with the value of the option.
    /// It succeeds on every builder that has not failed and is sure to take
    /// one more header.
    pub fn add_as_header(&self, builder: Builder) -> (out: Builder)
        ensures
            header_appended(
                builder,
                out,
                HEADER_DOCUMENTDB_QUERY_ENABLECROSSPARTITION@,
                self.spec_bool_str(),
            ),
            !builder_failed(builder) && header_map_takes(builder_headers(builder), 1)
                ==> !builder_failed(out),
    {
        proof {
            reveal_strlit("enable-cross-partition-query");
            lemma_fixed_values_accepted();
        }
        builder_header(
            builder,
            HEADER_DOCUMENTDB_QUERY_ENABLECROSSPARTITION,
            self.as_bool_str(),
        )
    }
}

/// Whether a cross-partition query may run on the partitions in parallel.
#[derive(Debug, Clone, Copy, PartialEq)]
pub enum ParallelizeCrossPartition {
    Yes,
    No,
}

impl ParallelizeCrossPartition {
    /// The header value of the option: `true` for `Yes`, `false` for `No`.
    pub open spec fn spec_bool_str(&self) -> Seq<char> {
        match self {
            Self::Yes => "true"@,
            Self::No => "false"@,
        }
    }

    /// The value of the option as the text of a header.
    pub fn as_bool_str(&self) -> (text: &str)
        ensures
            text@ == self.spec_bool_str(),
    {
        match self {
            Self::Yes => "true",
            Self::No => "false",
        }
    }

    /// Appends `parallelize-cross-partition-query` with the value of the
    /// option. It succeeds on every builder that has not failed and is sure
    /// to take one more header.
    pub fn add_as_header(&self, builder: Builder) -> (out: Builder)
        ensures
            header_appended(
                builder,
                out,
                HEADER_DOCUMENTDB_QUERY_PARALLELIZECROSSPARTITIONQUERY@,
                self.spec_bool_str(),
            ),
            !builder_failed(builder) && header_map_takes(builder_headers(builder), 1)
                ==> !builder_failed(out),
    {
        proof {
            reveal_strlit("parallelize-cross-partition-query");
            lemma_fixed_values_accepted();
        }
        builder_header(
            builder,
            HEADER_DOCUMENTDB_QUERY_PARALLELIZECROSSPARTITIONQUERY,
            self.as_bool_str(),
        )
    }
}

/// Whether a create replaces a document that already has the same id.
#[derive(Debug, Clone, Copy, PartialEq)]
pub enum IsUpsert {
    Yes,
    No,
}

impl IsUpsert {
    /// The header value of the option: `true` for `Yes`, `false` for `No`.
    pub open spec fn spec_bool_str(&self) -> Seq<char> {
        match self {
            Self::Yes => "true"@,
            Self::No => "false"@,
        }
    }

    /// The value of the option as the text of a header.
    pub fn as_bool_str(&self) -> (text: &str)
        ensures
            text@ == self.spec_bool_str(),
    {
        match self {
            Self::Yes => "true",
            Self::No => "false",
        }
    }

    /// Appends `is-upsert` with the value of the option. It succeeds on every
    /// builder that has not failed and is sure to take one more header.
    pub fn add_as_header(&self, builder: Builder) -> (out: Builder)
        ensures
            header_appended(builder, out, HEADER_DOCUMENTDB_IS_UPSERT@, self.spec_bool_str()),
            !builder_failed(builder) && header_map_takes(builder_headers(builder), 1)
                ==> !builder_failed(out),
    {
        proof {
            reveal_strlit("is-upsert");
            lemma_fixed_values_accepted();
        }
        builder_header(builder, HEADER_DOCUMENTDB_IS_UPSERT, self.as_bool_str())
    }
}

/// Whether a read asks for the change feed: the documents that changed since
/// a checkpoint.
#[derive(Debug, Clone, Copy)]
pub enum ChangeFeed {
    Incremental,
    Off,
}

impl ChangeFeed {
    /// The value that the option sends under `A-IM`: `Incremental feed` for
    /// `Incremental`, none for `Off`.
    pub open spec fn spec_header_value(&self) -> Option<Seq<char>> {
        match self {
            Self::Incremental => Some("Incremental feed"@),
            Self::Off => None,
        }
    }

    /// The value that the option sends under `A-IM`, if it sends one.
    pub fn header_value(&self) -> (value: Option<&'static str>)
        ensures
            match value {
                Some(text) => self.spec_header_value() == Some(text@),
                None => self.spec_header_value() is None,
            },
    {
        match self {
            Self::Incremental => Some("Incremental feed"),
            Self::Off => None,
        }
    }

    /// Appends `A-IM: Incremental feed` for `Incremental`, which succeeds on
    /// every builder that has not failed and is sure to take one more header;
    /// hands the builder back as it came for `Off`.
    pub fn add_as_header(&self, builder: Builder) -> (out: Builder)
        ensures
            *self is Incremental ==> header_appended(
                builder,
                out,
                HEADER_A_IM@,
                "Incremental feed"@,
            ),
            *self is Incremental && !builder_failed(builder) && header_map_takes(
                builder_headers(builder),
                1,
            ) ==> !builder_failed(out),
            *self is Off ==> out == builder,
    {
        match self.header_value() {
            Some(value) => {
                proof {
                    reveal_strlit("A-IM");
                    lemma_fixed_values_accepted();
                }
                builder_header(builder, HEADER_A_IM, value)
            },
            None => builder,
        }
    }
}

/// Whether writes may go to any write region.
#[derive(Debug, Clone, Copy)]
pub enum TenativeWritesAllowance {
    Allow,
    Deny,
}

impl TenativeWritesAllowance {
    /// The header value of the option: `true` for `Allow`, `false` for `Deny`.
    pub open spec fn spec_bool_str(&self) -> Seq<char> {
        match self {
            Self::Allow => "true"@,
            Self::Deny => "false"@,
        }
    }

    /// The value of the option as the text of a header.
    pub fn as_bool_str(&self) -> (text: &str)
        ensures
            text@ == self.spec_bool_str(),
    {
        match self {
            Self::Allow => "true",
            Self::Deny => "false",
        }
    }

    /// Appends `allow-multiple-writes` with the value of the option. It
    /// succeeds on every builder that has not failed and is sure to take one
    /// more header.
    pub fn add_as_header(&self, builder: Builder) -> (out: Builder)
        ensures
            header_appended(builder, out, HEADER_ALLOW_MULTIPLE_WRITES@, self.spec_bool_str()),
            !builder_failed(builder) && header_map_takes(builder_headers(builder), 1)
                ==> !builder_failed(out),
    {
        proof {
            reveal_strlit("allow-multiple-writes");
            lemma_fixed_values_accepted();
        }
        builder_header(builder, HEADER_ALLOW_MULTIPLE_WRITES, self.as_bool_str())
    }
}

/// The partition key range that a request is routed to.
#[derive(Debug, Clone, Copy)]
pub struct PartitionRangeId<'a>(&'a str);

impl<'a> View for PartitionRangeId<'a> {
    type V = Seq<char>;

    /// The id, as it was given.
    closed spec fn view(&self) -> Seq<char> {
        self.0@
    }
}

impl<'a> PartitionRangeId<'a> {
    /// The range of the given id, which is kept as it is.
    pub fn new(id: &'a str) -> (range: Self)
        ensures
            range@ == id@,
    {
        Self(id)
    }

    /// Whether a header can hold the id: it has no control character but the
    /// tab. The empty id and ids with non-ASCII characters are among those
    /// that it can hold.
    pub open spec fn fits_header(&self) -> bool {
        forall|i: int| 0 <= i < self@.len() ==> header_value_char(#[trigger] self@[i])
    }

    /// Appends `partition-range-id` with the id as its value, byte for byte.
    /// Nothing checks the id before. With an id that a header can hold it
    /// succeeds on every builder that has not failed and is sure to take one
    /// more header; any other id makes the builder fail.
    pub fn add_as_header(&self, builder: Builder) -> (out: Builder)
        ensures
            header_appended(builder, out, HEADER_DOCUMENTDB_PARTITIONRANGEID@, self@),
            self.fits_header() && !builder_failed(builder) && header_map_takes(
                builder_headers(builder),
                1,
            ) ==> !builder_failed(out),
            !self.fits_header() ==> builder_failed(out),
    {
        proof {
            reveal_strlit("partition-range-id");
            lemma_value_accepted_by_chars(self@);
        }
        builder_header(builder, HEADER_DOCUMENTDB_PARTITIONRANGEID, self.0)
    }
}

/// The values that the two-state options and the change feed send are values
/// that a header can hold.
pub proof fn lemma_fixed_values_accepted()
    ensures
        header_value_accepted(encode_utf8("true"@)),
        header_value_accepted(encode_utf8("false"@)),
        header_value_accepted(encode_utf8("Incremental feed"@)),
{
    reveal_strlit("true");
    reveal_strlit("false");
    reveal_strlit("Incremental feed");
    lemma_value_accepted_by_chars("true"@);
    lemma_value_accepted_by_chars("false"@);
    lemma_value_accepted_by_chars("Incremental feed"@);
}

/// The names of the headers that the options of this module set.
pub open spec fn option_header_names() -> Seq<Seq<char>> {
    seq![
        HEADER_DOCUMENTDB_QUERY_ENABLECROSSPARTITION@,
        HEADER_DOCUMENTDB_QUERY_PARALLELIZECROSSPARTITIONQUERY@,
        HEADER_DOCUMENTDB_IS_UPSERT@,
        HEADER_A_IM@,
        HEADER_ALLOW_MULTIPLE_WRITES@,
        HEADER_DOCUMENTDB_PARTITIONRANGEID@,
    ]
}

/// No two options share a header: the six names differ, also in lower case,
/// so that options can be applied in any number and in any order.
pub proof fn lemma_option_names_distinct()
    ensures
        option_header_names().len() == 6,
        forall|i: int, j: int|
            0 <= i < j < 6 ==> lower_name(#[trigger] option_header_names()[i]) != lower_name(
                #[trigger] option_header_names()[j],
            ),
{
    reveal_strlit("enable-cross-partition-query");
    reveal_strlit("parallelize-cross-partition-query");
    reveal_strlit("is-upsert");
    reveal_strlit("A-IM");
    reveal_strlit("allow-multiple-writes");
    reveal_strlit("partition-range-id");
    let names = option_header_names();
    assert(lower_name(names[0]).len() == 28);
    assert(lower_name(names[1]).len() == 33);
    assert(lower_name(names[2]).len() == 9);
    assert(lower_name(names[3]).len() == 4);
    assert(lower_name(names[4]).len() == 21);
    assert(lower_name(names[5]).len() == 18);
}

} // verus!
