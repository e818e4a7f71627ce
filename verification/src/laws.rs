//! What holds of the request decoding as a whole.

use vstd::prelude::*;

use crate::decode::{ascii_text, hex_digit, hex_upper, percent_decode, percent_encode, url_decoded};
use vstd::utf8::{char_u32_cast, is_ascii_chars, is_ascii_chars_encode_utf8, encode_scalar, encode_utf8, encode_utf8_decode_utf8, encode_utf8_valid_utf8};
use crate::error::ErrorView;
use crate::external::json_input_value;
use crate::request::{
    batch_outcome, get_method, get_outcome, operation_name_key, post_method, post_outcome,
    query_key, request_outcome, requested_method, scan_parameters, variables_key, BatchView,
    GetGraphQLRequest, ParameterScan, PostBody, ProxyRequest, RequestView,
};
use crate::response::BatchOutcome;

verus! {

/// A GET parameter that is accepted on its own: one of the three names, with
/// exactly one value, whose percent-decoding is valid UTF-8.
pub open spec fn parameter_accepted(entry: (Seq<char>, Seq<Seq<char>>)) -> bool {
    &&& (entry.0 == query_key() || entry.0 == operation_name_key() || entry.0 == variables_key())
    &&& entry.1.len() == 1
    &&& url_decoded(entry.1[0]) is Some
}

/// The decoded value of the last parameter with this name, if any.
pub open spec fn last_value(params: Seq<(Seq<char>, Seq<Seq<char>>)>, key: Seq<char>) -> Option<Seq<char>>
    decreases params.len(),
{
    if params.len() == 0 {
        None
    } else if params.last().0 == key {
        url_decoded(params.last().1[0])
    } else {
        last_value(params.drop_last(), key)
    }
}

/// A GET request is accepted: every parameter is, a query is given, and the
/// variables, where given, are a JSON document of input values.
pub open spec fn get_accepted(params: Seq<(Seq<char>, Seq<Seq<char>>)>) -> bool {
    &&& forall|i: int| 0 <= i < params.len() ==> parameter_accepted(#[trigger] params[i])
    &&& last_value(params, query_key()) is Some
    &&& (last_value(params, variables_key()) matches Some(text) ==> json_input_value(text) is Some)
}

/// The request that an accepted GET request makes.
pub open spec fn get_request(params: Seq<(Seq<char>, Seq<Seq<char>>)>) -> RequestView {
    RequestView {
        query: last_value(params, query_key()).unwrap(),
        operation_name: last_value(params, operation_name_key()),
        variables: match last_value(params, variables_key()) {
            Some(text) => json_input_value(text),
            None => None,
        },
    }
}

/// Reading the GET parameters keeps going exactly while each parameter is
/// accepted on its own, and then holds the last value of each name.
pub proof fn lemma_scan_collects(params: Seq<(Seq<char>, Seq<Seq<char>>)>)
    ensures
        (scan_parameters(params) is Collected) <==> (forall|i: int|
            0 <= i < params.len() ==> parameter_accepted(#[trigger] params[i])),
        (scan_parameters(params) is Collected) ==> scan_parameters(params) == (ParameterScan::Collected {
            query: last_value(params, query_key()),
            operation_name: last_value(params, operation_name_key()),
            variables: last_value(params, variables_key()),
        }),
    decreases params.len(),
{
    if params.len() > 0 {
        let rest = params.drop_last();
        lemma_scan_collects(rest);
        let last = params.last();
        assert(query_key().len() == 5);
        assert(operation_name_key().len() == 14);
        assert(variables_key().len() == 9);
        if scan_parameters(params) is Collected {
            assert forall|i: int| 0 <= i < params.len() implies parameter_accepted(#[trigger] params[i]) by {
                if i < rest.len() {
                    assert(params[i] == rest[i]);
                }
            }
        }
        if forall|i: int| 0 <= i < params.len() ==> parameter_accepted(#[trigger] params[i]) {
            assert forall|i: int| 0 <= i < rest.len() implies parameter_accepted(#[trigger] rest[i]) by {
                assert(rest[i] == params[i]);
            }
            assert(parameter_accepted(params[params.len() - 1]));
        }
    }
}

/// A GET request is decoded exactly when every parameter is one of `query`,
/// `operation_name` and `variables` with a single value that decodes, a query
/// is given, and the variables, where given, are valid JSON input values; the
/// request then holds the last decoded value of each name. So whatever order
/// the parameters come in, a request whose names are distinct decodes to the
/// same request.
pub proof fn law_get_acceptance(params: Seq<(Seq<char>, Seq<Seq<char>>)>)
    ensures
        (get_outcome(params) matches Some(Ok(_))) <==> get_accepted(params),
        get_accepted(params) ==> get_outcome(params) == Some(
            Ok::<BatchView, ErrorView>(BatchView::Single(get_request(params))),
        ),
{
    lemma_scan_collects(params);
}

/// A batch of POST entries is decoded exactly when every entry is; the
/// requests then come in the entries' order, one per entry. Otherwise the
/// error is that of the first entry that is refused.
pub proof fn law_batch_acceptance(entries: Seq<GetGraphQLRequest>)
    ensures
        (batch_outcome(entries) is Ok) <==> (forall|i: int|
            0 <= i < entries.len() ==> (#[trigger] entries[i].spec_request()) is Ok),
        batch_outcome(entries) matches Ok(requests) ==> {
            &&& requests.len() == entries.len()
            &&& forall|i: int| 0 <= i < entries.len() ==> Ok::<RequestView, ErrorView>(#[trigger] requests[i]) == entries[i].spec_request()
        },
        batch_outcome(entries) matches Err(e) ==> exists|k: int| {
            &&& 0 <= k < entries.len()
            &&& (forall|i: int| 0 <= i < k ==> (#[trigger] entries[i].spec_request()) is Ok)
            &&& #[trigger] entries[k].spec_request() == Err::<RequestView, ErrorView>(e)
        },
    decreases entries.len(),
{
    if entries.len() > 0 {
        let rest = entries.drop_last();
        law_batch_acceptance(rest);
        assert forall|i: int| 0 <= i < rest.len() implies #[trigger] rest[i] == entries[i] by {}
        match batch_outcome(rest) {
            Ok(requests) => {
                match entries.last().spec_request() {
                    Ok(r) => {
                        assert forall|i: int| 0 <= i < entries.len() implies (#[trigger] entries[i].spec_request()) is Ok by {
                            if i < rest.len() {
                                assert(rest[i].spec_request() is Ok);
                            }
                        }
                        assert forall|i: int| 0 <= i < entries.len() implies Ok::<RequestView, ErrorView>(
                            #[trigger] requests.push(r)[i],
                        ) == entries[i].spec_request() by {
                            if i < rest.len() {
                                assert(Ok::<RequestView, ErrorView>(requests[i]) == rest[i].spec_request());
                            }
                        }
                    },
                    Err(e) => {
                        let k = entries.len() - 1;
                        assert(entries[k].spec_request() == Err::<RequestView, ErrorView>(e));
                        assert forall|i: int| 0 <= i < k implies (#[trigger] entries[i].spec_request()) is Ok by {
                            assert(Ok::<RequestView, ErrorView>(requests[i]) == rest[i].spec_request());
                        }
                    },
                }
            },
            Err(e) => {
                let k = choose|k: int| {
                    &&& 0 <= k < rest.len()
                    &&& (forall|i: int| 0 <= i < k ==> (#[trigger] rest[i].spec_request()) is Ok)
                    &&& #[trigger] rest[k].spec_request() == Err::<RequestView, ErrorView>(e)
                };
                assert(entries[k] == rest[k]);
                assert(!(entries[k].spec_request() is Ok));
                assert forall|i: int| 0 <= i < k implies (#[trigger] entries[i].spec_request()) is Ok by {
                    assert(entries[i] == rest[i]);
                }
            },
        }
    }
}

/// No two parameters share a name, as in the map that an event holds.
pub open spec fn distinct_names(params: Seq<(Seq<char>, Seq<Seq<char>>)>) -> bool {
    forall|i: int, j: int| 0 <= i < params.len() && 0 <= j < params.len() && i != j ==> #[trigger] params[i].0 != #[trigger] params[j].0
}

/// With distinct names, the last value of a name is the value of the one
/// parameter of that name.
pub proof fn lemma_last_value_distinct(params: Seq<(Seq<char>, Seq<Seq<char>>)>, key: Seq<char>)
    requires
        distinct_names(params),
    ensures
        (forall|i: int| 0 <= i < params.len() ==> #[trigger] params[i].0 != key) ==> last_value(params, key) is None,
        forall|i: int| 0 <= i < params.len() && #[trigger] params[i].0 == key ==> last_value(params, key) == url_decoded(params[i].1[0]),
    decreases params.len(),
{
    if params.len() > 0 {
        let rest = params.drop_last();
        assert forall|i: int, j: int| 0 <= i < rest.len() && 0 <= j < rest.len() && i != j implies #[trigger] rest[i].0 != #[trigger] rest[j].0 by {
            assert(rest[i] == params[i] && rest[j] == params[j]);
        }
        lemma_last_value_distinct(rest, key);
        assert forall|i: int| 0 <= i < params.len() && #[trigger] params[i].0 == key implies last_value(params, key) == url_decoded(params[i].1[0]) by {
            if i < rest.len() {
                assert(rest[i] == params[i]);
                assert(params[i].0 != params[params.len() - 1].0);
            }
        }
        if forall|i: int| 0 <= i < params.len() ==> #[trigger] params[i].0 != key {
            assert(params[params.len() - 1].0 != key);
            assert forall|i: int| 0 <= i < rest.len() implies #[trigger] rest[i].0 != key by {
                assert(rest[i] == params[i]);
            }
        }
    }
}

/// Two lists of distinct-named parameters holding the same parameters give
/// the same last value for every name.
pub proof fn lemma_last_value_same_parameters(
    p: Seq<(Seq<char>, Seq<Seq<char>>)>,
    q: Seq<(Seq<char>, Seq<Seq<char>>)>,
    key: Seq<char>,
)
    requires
        distinct_names(p),
        distinct_names(q),
        forall|e: (Seq<char>, Seq<Seq<char>>)| p.contains(e) <==> q.contains(e),
    ensures
        last_value(p, key) == last_value(q, key),
{
    lemma_last_value_distinct(p, key);
    lemma_last_value_distinct(q, key);
    if exists|i: int| 0 <= i < p.len() && #[trigger] p[i].0 == key {
        let i = choose|i: int| 0 <= i < p.len() && #[trigger] p[i].0 == key;
        assert(p.contains(p[i]));
        let j = choose|j: int| 0 <= j < q.len() && q[j] == p[i];
        assert(q[j].0 == key);
    } else if exists|j: int| 0 <= j < q.len() && #[trigger] q[j].0 == key {
        let j = choose|j: int| 0 <= j < q.len() && #[trigger] q[j].0 == key;
        assert(q.contains(q[j]));
        let i = choose|i: int| 0 <= i < p.len() && p[i] == q[j];
        assert(p[i].0 == key);
    }
}

/// The order in which the parameter map is walked does not matter: two
/// lists of distinct-named GET parameters that hold the same parameters are
/// either both decoded, to the same request, or both refused.
pub proof fn law_get_order_independent(
    p: Seq<(Seq<char>, Seq<Seq<char>>)>,
    q: Seq<(Seq<char>, Seq<Seq<char>>)>,
)
    requires
        distinct_names(p),
        distinct_names(q),
        forall|e: (Seq<char>, Seq<Seq<char>>)| p.contains(e) <==> q.contains(e),
    ensures
        (get_outcome(p) matches Some(Ok(_))) <==> (get_outcome(q) matches Some(Ok(_))),
        (get_outcome(p) matches Some(Ok(_))) ==> get_outcome(p) == get_outcome(q),
{
    law_get_acceptance(p);
    law_get_acceptance(q);
    lemma_last_value_same_parameters(p, q, query_key());
    lemma_last_value_same_parameters(p, q, operation_name_key());
    lemma_last_value_same_parameters(p, q, variables_key());
    assert((forall|i: int| 0 <= i < p.len() ==> parameter_accepted(#[trigger] p[i]))
        <==> (forall|j: int| 0 <= j < q.len() ==> parameter_accepted(#[trigger] q[j]))) by {
        if forall|i: int| 0 <= i < p.len() ==> parameter_accepted(#[trigger] p[i]) {
            assert forall|j: int| 0 <= j < q.len() implies parameter_accepted(#[trigger] q[j]) by {
                assert(q.contains(q[j]));
                let i = choose|i: int| 0 <= i < p.len() && p[i] == q[j];
                assert(parameter_accepted(p[i]));
            }
        }
        if forall|j: int| 0 <= j < q.len() ==> parameter_accepted(#[trigger] q[j]) {
            assert forall|i: int| 0 <= i < p.len() implies parameter_accepted(#[trigger] p[i]) by {
                assert(p.contains(p[i]));
                let j = choose|j: int| 0 <= j < q.len() && q[j] == p[i];
                assert(parameter_accepted(q[j]));
            }
        }
    }
}

/// No byte of the UTF-8 encoding of a text without `%` is the byte of `%`.
pub proof fn lemma_encoding_without_percent(text: Seq<char>)
    requires
        !text.contains('%'),
    ensures
        !encode_utf8(text).contains(0x25u8),
    decreases text.len(),
{
    if text.len() > 0 {
        let rest = text.drop_first();
        assert(!rest.contains('%')) by {
            if rest.contains('%') {
                let i = choose|i: int| 0 <= i < rest.len() && rest[i] == '%';
                assert(text[i + 1] == '%');
            }
        }
        lemma_encoding_without_percent(rest);
        let c = text[0];
        assert(c != '%') by {
            assert(text[0] == c);
        }
        let v = c as u32;
        assert(v != 0x25u32) by {
            char_u32_cast(c, v);
            char_u32_cast('%', '%' as u32);
            assert('%' as u32 == 0x25u32);
        }
        let head = encode_scalar(v);
        assert(!head.contains(0x25u8)) by {
            assert(v <= 0x7F ==> ((v & 0x7F) as u8 == 0x25u8 ==> v == 0x25u32)) by (bit_vector);
            assert(0xC0u8 | ((v >> 6) & 0x1F) as u8 != 0x25u8) by (bit_vector);
            assert(0xE0u8 | ((v >> 12) & 0x0F) as u8 != 0x25u8) by (bit_vector);
            assert(0xF0u8 | ((v >> 18) & 0x7) as u8 != 0x25u8) by (bit_vector);
            assert(0x80u8 | (v & 0x3F) as u8 != 0x25u8) by (bit_vector);
            assert(0x80u8 | ((v >> 6) & 0x3F) as u8 != 0x25u8) by (bit_vector);
            assert(0x80u8 | ((v >> 12) & 0x3F) as u8 != 0x25u8) by (bit_vector);
        }
        let bytes = encode_utf8(text);
        assert(bytes == head + encode_utf8(rest));
        if bytes.contains(0x25u8) {
            let k = choose|k: int| 0 <= k < bytes.len() && bytes[k] == 0x25u8;
            if k < head.len() {
                assert(head[k] == 0x25u8);
            } else {
                assert(encode_utf8(rest)[k - head.len()] == 0x25u8);
            }
        }
    }
}

/// Percent-decoding leaves bytes without `%` as they are.
pub proof fn lemma_percent_decode_plain(bytes: Seq<u8>)
    requires
        !bytes.contains(0x25u8),
    ensures
        percent_decode(bytes) == bytes,
    decreases bytes.len(),
{
    if bytes.len() > 0 {
        let rest = bytes.skip(1);
        assert(bytes[0] != 0x25u8);
        assert(!rest.contains(0x25u8)) by {
            if rest.contains(0x25u8) {
                let i = choose|i: int| 0 <= i < rest.len() && rest[i] == 0x25u8;
                assert(bytes[i + 1] == 0x25u8);
            }
        }
        lemma_percent_decode_plain(rest);
        assert(seq![bytes[0]] + rest =~= bytes);
    }
}

/// A parameter value without `%` decodes to itself.
pub proof fn law_plain_text_decodes_to_itself(text: Seq<char>)
    requires
        !text.contains('%'),
    ensures
        url_decoded(text) == Some(text),
{
    lemma_encoding_without_percent(text);
    lemma_percent_decode_plain(encode_utf8(text));
    encode_utf8_valid_utf8(text);
    encode_utf8_decode_utf8(text);
}

/// Only GET and POST requests are decoded.
pub proof fn law_only_get_and_post(req: ProxyRequest)
    ensures
        (request_outcome(req) matches Some(Ok(_))) ==> requested_method(req) == get_method()
            || requested_method(req) == post_method(),
{
}

/// A GET request is decided by its query string parameters alone, and a POST
/// request by its body alone.
pub proof fn law_method_reads_its_part(a: ProxyRequest, b: ProxyRequest)
    requires
        requested_method(a) == requested_method(b),
    ensures
        requested_method(a) == get_method() && a.multi_value_query_string_parameters.deep_view()
            == b.multi_value_query_string_parameters.deep_view() ==> request_outcome(a) == request_outcome(b),
        requested_method(a) == post_method() && a.body == b.body ==> request_outcome(a) == request_outcome(b),
{
}

/// Percent-decoding undoes percent-encoding.
pub proof fn lemma_decode_encoded(bytes: Seq<u8>, escaped: spec_fn(u8) -> bool)
    ensures
        percent_decode(percent_encode(bytes, escaped)) == bytes,
        forall|i: int| 0 <= i < percent_encode(bytes, escaped).len() ==> #[trigger] percent_encode(bytes, escaped)[i] < 0x80u8,
    decreases bytes.len(),
{
    if bytes.len() > 0 {
        let b = bytes[0];
        let rest = bytes.skip(1);
        lemma_decode_encoded(rest, escaped);
        let tail = percent_encode(rest, escaped);
        let encoded = percent_encode(bytes, escaped);
        if escaped(b) || b == 0x25u8 || b >= 0x80u8 {
            let hi = (b / 16) as u8;
            let lo = (b % 16) as u8;
            assert(hex_digit(hex_upper(hi)) == Some(hi));
            assert(hex_digit(hex_upper(lo)) == Some(lo));
            assert(encoded == seq![0x25u8, hex_upper(hi), hex_upper(lo)] + tail);
            assert(encoded.skip(3) =~= tail);
            assert((hi * 16 + lo) as u8 == b);
            assert(percent_decode(encoded) == seq![b] + percent_decode(tail));
        } else {
            assert(encoded == seq![b] + tail);
            assert(encoded.skip(1) =~= tail);
            assert(percent_decode(encoded) == seq![b] + percent_decode(tail));
        }
        assert(seq![b] + rest =~= bytes);
        assert forall|i: int| 0 <= i < encoded.len() implies #[trigger] encoded[i] < 0x80u8 by {
            if escaped(b) || b == 0x25u8 || b >= 0x80u8 {
                if i >= 3 {
                    assert(encoded[i] == tail[i - 3]);
                }
            } else if i >= 1 {
                assert(encoded[i] == tail[i - 1]);
            }
        }
    }
}

/// Reading ASCII bytes as text and encoding the text as UTF-8 gives the
/// bytes back.
pub proof fn lemma_ascii_text_bytes(bytes: Seq<u8>)
    requires
        forall|i: int| 0 <= i < bytes.len() ==> #[trigger] bytes[i] < 0x80u8,
    ensures
        encode_utf8(ascii_text(bytes)) == bytes,
{
    let text = ascii_text(bytes);
    assert forall|i: int| 0 <= i < text.len() implies '\0' <= #[trigger] text[i] <= '\u{7f}' by {
        let b = bytes[i];
        assert(text[i] == b as char);
        assert(b < 0x80u8);
    }
    assert(is_ascii_chars(text));
    is_ascii_chars_encode_utf8(text);
    assert forall|i: int| 0 <= i < bytes.len() implies #[trigger] encode_utf8(text)[i] == bytes[i] by {
        let b = bytes[i];
        assert(text[i] as u8 == encode_utf8(text)[i]);
        assert((b as char) as u8 == b);
    }
    assert(encode_utf8(text) =~= bytes);
}

/// Percent-decoding gives back any text that was percent-encoded, whichever
/// bytes the encoding chose to escape (as long as `%` and the bytes beyond
/// ASCII are escaped, as percent-encoding always does).
pub proof fn law_url_decode_inverts_encoding(text: Seq<char>, escaped: spec_fn(u8) -> bool)
    ensures
        url_decoded(ascii_text(percent_encode(encode_utf8(text), escaped))) == Some(text),
{
    let encoded = percent_encode(encode_utf8(text), escaped);
    lemma_decode_encoded(encode_utf8(text), escaped);
    lemma_ascii_text_bytes(encoded);
    encode_utf8_valid_utf8(text);
    encode_utf8_decode_utf8(text);
}

/// The variables of an entry are refused: given, but not a JSON document of
/// input values.
pub open spec fn variables_refused(entry: GetGraphQLRequest) -> bool {
    entry.variables matches Some(text) && json_input_value(text@) is None
}

/// The request is the entry's: its query and operation name unchanged, and
/// its variables the JSON reading of the entry's variables text (none where
/// none are given).
pub open spec fn request_of_entry(r: RequestView, entry: GetGraphQLRequest) -> bool {
    &&& r.query == entry.query@
    &&& r.operation_name == entry.operation_name.deep_view()
    &&& match entry.variables {
        Some(text) => r.variables == json_input_value(text@),
        None => r.variables is None,
    }
}

/// An entry (a POST request, or the fields of a GET request) makes the request
/// with its own query, operation name and variables, and is refused, as
/// invalid variables, exactly when its variables text is not a JSON document
/// of input values.
pub proof fn law_entry_request(entry: GetGraphQLRequest)
    ensures
        (entry.spec_request() is Ok) <==> !variables_refused(entry),
        entry.spec_request() matches Ok(r) ==> request_of_entry(r, entry),
        entry.spec_request() matches Err(e) ==> e == ErrorView::InvalidVariablesParameter,
{
}

/// A POST body holding one entry decodes to that entry's own request, never
/// to a batch, and is refused exactly when the entry's variables are.
pub proof fn law_post_single_entry(entry: GetGraphQLRequest)
    ensures
        (post_outcome(Some(PostBody::Single(entry))) is Ok) <==> !variables_refused(entry),
        post_outcome(Some(PostBody::Single(entry))) matches Ok(v) ==> (v matches BatchView::Single(r)
            && request_of_entry(r, entry)),
        post_outcome(Some(PostBody::Single(entry))) matches Err(e) ==> e
            == ErrorView::InvalidVariablesParameter,
{
}

/// A POST body holding a list of entries, of whatever length, decodes to a
/// batch with one request per entry, each the entry's own request in the
/// entries' order; it is refused exactly when some entry's variables are.
pub proof fn law_post_batch(entries: Vec<GetGraphQLRequest>)
    ensures
        (post_outcome(Some(PostBody::Batch(entries))) is Ok) <==> (forall|i: int|
            0 <= i < entries@.len() ==> !variables_refused(#[trigger] entries@[i])),
        post_outcome(Some(PostBody::Batch(entries))) matches Ok(v) ==> (v matches BatchView::Batch(rs) && {
            &&& rs.len() == entries@.len()
            &&& forall|i: int| 0 <= i < rs.len() ==> request_of_entry(#[trigger] rs[i], entries@[i])
        }),
{
    law_batch_acceptance(entries@);
    assert forall|i: int| 0 <= i < entries@.len() implies ((#[trigger] entries@[i]).spec_request() is Ok
        <==> !variables_refused(entries@[i])) by {
        law_entry_request(entries@[i]);
    }
    if let Ok(rs) = batch_outcome(entries@) {
        assert forall|i: int| 0 <= i < rs.len() implies request_of_entry(#[trigger] rs[i], entries@[i]) by {
            law_entry_request(entries@[i]);
            assert(Ok::<RequestView, ErrorView>(rs[i]) == entries@[i].spec_request());
        }
    }
}

/// A POST request decodes as its body does, whatever its query string holds.
pub proof fn law_post_decodes_body(req: ProxyRequest)
    ensures
        requested_method(req) == post_method() ==> request_outcome(req) == Some(post_outcome(req.body)),
{
    assert(crate::decode::is_method_token(post_method()));
}

/// The operation names are one per request, in order: the single request's
/// name, or the i-th request's own name at place i of a batch.
pub proof fn law_operation_names_per_request(v: BatchView)
    ensures
        v matches BatchView::Single(r) ==> v.operation_names() == seq![r.operation_name],
        v matches BatchView::Batch(rs) ==> {
            &&& v.operation_names().len() == rs.len()
            &&& forall|i: int| 0 <= i < rs.len() ==> #[trigger] v.operation_names()[i] == rs[i].operation_name
        },
{
}

/// Executed requests succeeded exactly when every one of them did: a batch
/// with any failed request is not all right (and so is answered with 400).
pub proof fn law_outcome_every_flag(outcome: BatchOutcome)
    ensures
        outcome matches BatchOutcome::Single(ok) ==> outcome.all_ok() == ok,
        outcome matches BatchOutcome::Batch(oks) ==> {
            &&& outcome.all_ok() <==> forall|i: int| 0 <= i < oks@.len() ==> #[trigger] oks@[i]
            &&& !outcome.all_ok() <==> exists|i: int| 0 <= i < oks@.len() && !#[trigger] oks@[i]
        },
{
}

} // verus!
