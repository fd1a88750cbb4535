//! A model of the headers of an `http` request builder, and the one call
//! through which this crate appends to them.

use http::request::Builder;
use vstd::prelude::*;
use vstd::utf8::{
    char_is_scalar, encode_scalar, encode_utf8, has_width_1_encoding, last_continuation_byte,
    leading_byte_width_1, leading_byte_width_2, leading_byte_width_3, leading_byte_width_4,
    second_last_continuation_byte, third_last_continuation_byte,
};

verus! {

/// `http::request::Builder`, of which the verifier sees only what the names
/// below say.
#[verifier::external_type_specification]
#[verifier::external_body]
pub struct ExBuilder(http::request::Builder);

/// `http::header::HeaderMap`, which this crate takes and does not read.
#[verifier::external_type_specification]
#[verifier::external_body]
#[verifier::reject_recursive_types(T)]
pub struct ExHeaderMap<T>(http::header::HeaderMap<T>);

/// `http::header::HeaderValue`, the values of a `HeaderMap`.
#[verifier::external_type_specification]
#[verifier::external_body]
pub struct ExHeaderValue(http::header::HeaderValue);

/// Whether `builder` holds an error in place of a request head. A builder
/// starts without one and keeps the first error that a call ran into.
pub uninterp spec fn builder_failed(builder: Builder) -> bool;

/// The headers of `builder`: each name, in lower case, with the values that
/// were appended under it, oldest first. Meaningful while the builder has not
/// failed.
pub uninterp spec fn builder_headers(builder: Builder) -> Map<Seq<char>, Seq<Seq<u8>>>;

/// The method of the request that `builder` makes, as `Method::as_str` gives
/// it. Meaningful while the builder has not failed.
pub uninterp spec fn builder_method(builder: Builder) -> Seq<char>;

/// The URI of the request that `builder` makes, as the URI displays.
/// Meaningful while the builder has not failed.
pub uninterp spec fn builder_uri(builder: Builder) -> Seq<char>;

/// The HTTP version of the request that `builder` makes, by its name, such
/// as `HTTP/1.1`. Meaningful while the builder has not failed.
pub uninterp spec fn builder_version(builder: Builder) -> Seq<char>;

/// Whether two builders make requests of the same method, URI and version.
pub open spec fn same_request_line(before: Builder, after: Builder) -> bool {
    &&& builder_method(after) == builder_method(before)
    &&& builder_uri(after) == builder_uri(before)
    &&& builder_version(after) == builder_version(before)
}

/// The lower-case form of an ASCII letter; any other character is itself.
pub open spec fn ascii_lower(c: char) -> char {
    if 'A' <= c && c <= 'Z' {
        ((c as u8) + 32) as u8 as char
    } else {
        c
    }
}

/// `name` with its ASCII letters in lower case: the form under which a header
/// map files a name.
pub open spec fn lower_name(name: Seq<char>) -> Seq<char> {
    name.map_values(|c: char| ascii_lower(c))
}

/// Letters, digits and the hyphen.
pub open spec fn plain_name_char(c: char) -> bool {
    ('a' <= c && c <= 'z') || ('A' <= c && c <= 'Z') || ('0' <= c && c <= '9') || c == '-'
}

/// Names of one to 64 letters, digits and hyphens: every such name is a valid
/// header name.
pub open spec fn plain_header_name(name: Seq<char>) -> bool {
    &&& 1 <= name.len() <= 64
    &&& forall|i: int| 0 <= i < name.len() ==> plain_name_char(#[trigger] name[i])
}

/// The bytes that a header value may hold: the tab, and everything from the
/// space upwards but DEL. Bytes above 127, and so the encodings of non-ASCII
/// characters, are among them.
pub open spec fn header_value_byte(b: u8) -> bool {
    (b >= 32 && b != 127) || b == 9
}

/// Whether a header value can be made of `bytes`.
pub open spec fn header_value_accepted(bytes: Seq<u8>) -> bool {
    forall|i: int| 0 <= i < bytes.len() ==> header_value_byte(#[trigger] bytes[i])
}

/// The values that `headers` holds under `key`, oldest first; none where the
/// key is missing.
pub open spec fn header_values(headers: Map<Seq<char>, Seq<Seq<u8>>>, key: Seq<char>) -> Seq<
    Seq<u8>,
> {
    if headers.dom().contains(key) {
        headers[key]
    } else {
        Seq::empty()
    }
}

/// `headers` after `value` was appended under `name`: the name is filed in
/// lower case, and the value comes after those that the name already has.
pub open spec fn with_header(
    headers: Map<Seq<char>, Seq<Seq<u8>>>,
    name: Seq<char>,
    value: Seq<u8>,
) -> Map<Seq<char>, Seq<Seq<u8>>> {
    let key = lower_name(name);
    headers.insert(key, header_values(headers, key).push(value))
}

/// Whether `headers` are sure to take `count` more headers. A header map
/// holds its names in a table of at most 32768 slots and refuses an entry
/// rather than outgrow that. A table of that size asks for a larger one at
/// the earliest when a fifth of its slots are in use, which takes 6554 names;
/// a smaller table can still grow. So a map of at most 6553 names takes one
/// more header, under an old name or a new one, whatever else is true of it.
pub open spec fn header_map_takes(headers: Map<Seq<char>, Seq<Seq<u8>>>, count: nat) -> bool {
    headers.dom().finite() && headers.dom().len() + count <= 6554
}

/// The characters whose encoding a header value may hold: the tab, and every
/// character from the space upwards but DEL, the non-ASCII ones among them.
pub open spec fn header_value_char(c: char) -> bool {
    c == '\t' || (' ' <= c && c != '\u{7f}')
}

/// What appending the header `name: value` to `before` leaves in `after`.
/// The append succeeds on a builder that has not failed, with a value that a
/// header can hold, while the header map is sure to take one more. It fails on
/// a failed builder and on a value that no header can hold. A builder that has
/// not failed afterwards holds the headers of `before` with the bytes of
/// `value` appended under `name`, and makes a request of the same method, URI
/// and version.
pub open spec fn header_appended(
    before: Builder,
    after: Builder,
    name: Seq<char>,
    value: Seq<char>,
) -> bool {
    &&& !builder_failed(before) && header_value_accepted(encode_utf8(value)) && header_map_takes(
        builder_headers(before),
        1,
    ) ==> !builder_failed(after)
    &&& builder_failed(before) ==> builder_failed(after)
    &&& !header_value_accepted(encode_utf8(value)) ==> builder_failed(after)
    &&& !builder_failed(after) ==> builder_headers(after) == with_header(
        builder_headers(before),
        name,
        encode_utf8(value),
    )
    &&& !builder_failed(after) ==> same_request_line(before, after)
}

/// `http::request::Builder::header` with a name and a value given as text.
/// The name is parsed into a header name, which puts it in lower case, and the
/// value into a header value, which keeps its bytes; then the pair is
/// appended to the header map, and nothing else of the request changes. A
/// plain name always parses. The value parses unless it holds a byte that no
/// header value takes. The map takes the pair unless it would have to grow
/// beyond its largest table, which no map of at most 6553 names asks for. A
/// builder that had failed stays as it is; where a step fails, the builder
/// holds the error and no request.
#[verifier::external_body]
pub(crate) fn builder_header(builder: Builder, name: &str, value: &str) -> (out: Builder)
    requires
        plain_header_name(name@),
    ensures
        !builder_failed(builder) && header_value_accepted(encode_utf8(value@)) && header_map_takes(
            builder_headers(builder),
            1,
        ) ==> !builder_failed(out),
        builder_failed(builder) ==> builder_failed(out),
        !header_value_accepted(encode_utf8(value@)) ==> builder_failed(out),
        !builder_failed(out) ==> builder_headers(out) == with_header(
            builder_headers(builder),
            name@,
            encode_utf8(value@),
        ),
        !builder_failed(out) ==> builder_method(out) == builder_method(builder),
        !builder_failed(out) ==> builder_uri(out) == builder_uri(builder),
        !builder_failed(out) ==> builder_version(out) == builder_version(builder),
{
    builder.header(name, value)
}

/// The bytes of one encoded character can stand in a header value exactly
/// when the character can.
proof fn lemma_scalar_accepted(c: char)
    ensures
        header_value_accepted(encode_scalar(c as u32)) <==> header_value_char(c),
{
    let scalar = c as u32;
    let bytes = encode_scalar(scalar);
    char_is_scalar(c);
    if has_width_1_encoding(scalar) {
        assert(leading_byte_width_1(scalar) == scalar) by (bit_vector)
            requires
                scalar <= 0x7f,
        ;
        assert(bytes[0] == scalar);
        assert(header_value_byte(bytes[0]) <==> header_value_char(c));
    } else {
        assert(leading_byte_width_2(scalar) >= 0x80 && leading_byte_width_3(scalar) >= 0x80
            && leading_byte_width_4(scalar) >= 0x80 && last_continuation_byte(scalar) >= 0x80
            && second_last_continuation_byte(scalar) >= 0x80 && third_last_continuation_byte(
            scalar,
        ) >= 0x80) by (bit_vector);
        assert(header_value_char(c));
    }
}

/// A text can be a header value exactly when each of its characters can: the
/// tab, the space and what is above it but DEL. Non-ASCII characters pass, and
/// so does the empty text; a line feed or any other control character does
/// not.
pub proof fn lemma_value_accepted_by_chars(value: Seq<char>)
    ensures
        header_value_accepted(encode_utf8(value)) <==> forall|i: int|
            0 <= i < value.len() ==> header_value_char(#[trigger] value[i]),
    decreases value.len(),
{
    if value.len() > 0 {
        let head = encode_scalar(value[0] as u32);
        let tail = encode_utf8(value.drop_first());
        lemma_scalar_accepted(value[0]);
        lemma_value_accepted_by_chars(value.drop_first());
        assert(encode_utf8(value) == head + tail);
        if header_value_accepted(head + tail) {
            assert forall|i: int| 0 <= i < head.len() implies header_value_byte(
                #[trigger] head[i],
            ) by {
                assert((head + tail)[i] == head[i]);
            }
            assert forall|i: int| 0 <= i < tail.len() implies header_value_byte(
                #[trigger] tail[i],
            ) by {
                assert((head + tail)[head.len() + i] == tail[i]);
            }
            assert forall|i: int| 0 <= i < value.len() implies header_value_char(
                #[trigger] value[i],
            ) by {
                if i > 0 {
                    assert(value.drop_first()[i - 1] == value[i]);
                }
            }
        }
        if forall|i: int| 0 <= i < value.len() ==> header_value_char(#[trigger] value[i]) {
            assert(header_value_char(value[0]));
            assert forall|i: int| 0 <= i < value.drop_first().len() implies header_value_char(
                #[trigger] value.drop_first()[i],
            ) by {
                assert(value.drop_first()[i] == value[i + 1]);
            }
            assert(header_value_accepted(head + tail));
        }
    }
}

/// Headers that are sure to take more than one header are sure to take one
/// less after one was appended.
pub proof fn lemma_with_header_takes(
    headers: Map<Seq<char>, Seq<Seq<u8>>>,
    name: Seq<char>,
    value: Seq<u8>,
    count: nat,
)
    requires
        header_map_takes(headers, count + 1),
    ensures
        header_map_takes(with_header(headers, name, value), count),
{
    assert(with_header(headers, name, value).dom() =~= headers.dom().insert(lower_name(name)));
}

/// Appending a header adds exactly one header: on a builder that has not
/// failed and is sure to take one more, a value that a header can hold leaves
/// the builder without failure, the value last under its name, behind the
/// values that the name had, every other name with the values it had, and the
/// method, URI and version as they were.
pub proof fn lemma_one_header_added(
    before: Builder,
    after: Builder,
    name: Seq<char>,
    value: Seq<char>,
)
    requires
        header_appended(before, after, name, value),
        !builder_failed(before),
        header_value_accepted(encode_utf8(value)),
        header_map_takes(builder_headers(before), 1),
    ensures
        !builder_failed(after),
        builder_headers(after).dom() == builder_headers(before).dom().insert(lower_name(name)),
        builder_headers(after)[lower_name(name)] == header_values(
            builder_headers(before),
            lower_name(name),
        ).push(encode_utf8(value)),
        forall|other: Seq<char>|
            other != lower_name(name) ==> header_values(builder_headers(after), other)
                == header_values(builder_headers(before), other),
        same_request_line(before, after),
{
}

/// Where a builder has not failed after a header was appended, it had not
/// failed before, the value is one that a header can hold, and the header is
/// there, whatever room the map had.
pub proof fn lemma_unfailed_builder_has_header(
    before: Builder,
    after: Builder,
    name: Seq<char>,
    value: Seq<char>,
)
    requires
        header_appended(before, after, name, value),
        !builder_failed(after),
    ensures
        !builder_failed(before),
        header_value_accepted(encode_utf8(value)),
        builder_headers(after) == with_header(builder_headers(before), name, encode_utf8(value)),
        same_request_line(before, after),
{
}

/// A header that is appended twice is there twice: on a builder that has not
/// failed and is sure to take two more, the name holds the values it had, and
/// behind them the new value two times.
pub proof fn lemma_header_added_twice(
    before: Builder,
    between: Builder,
    after: Builder,
    name: Seq<char>,
    value: Seq<char>,
)
    requires
        header_appended(before, between, name, value),
        header_appended(between, after, name, value),
        !builder_failed(before),
        header_value_accepted(encode_utf8(value)),
        header_map_takes(builder_headers(before), 2),
    ensures
        !builder_failed(after),
        builder_headers(after).dom() == builder_headers(before).dom().insert(lower_name(name)),
        builder_headers(after)[lower_name(name)] == header_values(
            builder_headers(before),
            lower_name(name),
        ).push(encode_utf8(value)).push(encode_utf8(value)),
        forall|other: Seq<char>|
            other != lower_name(name) ==> header_values(builder_headers(after), other)
                == header_values(builder_headers(before), other),
{
    lemma_with_header_takes(builder_headers(before), name, encode_utf8(value), 1);
    lemma_one_header_added(before, between, name, value);
    lemma_one_header_added(between, after, name, value);
    assert(builder_headers(after).dom() =~= builder_headers(before).dom().insert(
        lower_name(name),
    ));
}

/// Two headers of different names can be appended in either order: on a
/// builder that has not failed and is sure to take two more, both orders leave
/// a builder without failure, and both leave the same headers.
pub proof fn lemma_two_headers_in_either_order(
    start: Builder,
    first_only: Builder,
    first_then_second: Builder,
    second_only: Builder,
    second_then_first: Builder,
    first_name: Seq<char>,
    first_value: Seq<char>,
    second_name: Seq<char>,
    second_value: Seq<char>,
)
    requires
        header_appended(start, first_only, first_name, first_value),
        header_appended(first_only, first_then_second, second_name, second_value),
        header_appended(start, second_only, second_name, second_value),
        header_appended(second_only, second_then_first, first_name, first_value),
        lower_name(first_name) != lower_name(second_name),
        !builder_failed(start),
        header_value_accepted(encode_utf8(first_value)),
        header_value_accepted(encode_utf8(second_value)),
        header_map_takes(builder_headers(start), 2),
    ensures
        !builder_failed(first_then_second),
        !builder_failed(second_then_first),
        builder_headers(first_then_second) == builder_headers(second_then_first),
{
    let headers = builder_headers(start);
    lemma_with_header_takes(headers, first_name, encode_utf8(first_value), 1);
    lemma_with_header_takes(headers, second_name, encode_utf8(second_value), 1);
    lemma_headers_commute(
        headers,
        first_name,
        encode_utf8(first_value),
        second_name,
        encode_utf8(second_value),
    );
}

/// Headers of different names do not get in each other's way: appended in
/// either order they leave the same headers.
pub proof fn lemma_headers_commute(
    headers: Map<Seq<char>, Seq<Seq<u8>>>,
    first_name: Seq<char>,
    first_value: Seq<u8>,
    second_name: Seq<char>,
    second_value: Seq<u8>,
)
    requires
        lower_name(first_name) != lower_name(second_name),
    ensures
        with_header(with_header(headers, first_name, first_value), second_name, second_value)
            == with_header(
            with_header(headers, second_name, second_value),
            first_name,
            first_value,
        ),
{
    assert(with_header(with_header(headers, first_name, first_value), second_name, second_value)
        =~= with_header(
        with_header(headers, second_name, second_value),
        first_name,
        first_value,
    ));
}

} // verus!
