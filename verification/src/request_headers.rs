//! Which request headers a start request hands on to the transfer engine.

use crate::nalai_download_info::{distinct_names, header_views, HeaderEntry};
use vstd::prelude::*;
use vstd::string::StringSliceAdditionalSpecFns;

verus! {

/// Whether the `http` crate takes the text as the name of a header.
pub uninterp spec fn is_header_name(name: Seq<char>) -> bool;

/// A byte that may stand in a header value: no control character but the
/// tabulator.
pub open spec fn is_header_value_byte(byte: u8) -> bool {
    (byte >= 32 && byte != 127) || byte == 9
}

/// Whether every byte of the text may stand in a header value.
pub open spec fn is_header_value(bytes: Seq<u8>) -> bool {
    forall|i: int| 0 <= i < bytes.len() ==> is_header_value_byte(#[trigger] bytes[i])
}

/// Calls `headers::HeaderName::try_from` on the name as a `String`.
///
/// Trusted: whether the call succeeds depends on the name alone.
#[verifier::external_body]
fn header_name_parses(name: &String) -> (accepted: bool)
    ensures
        accepted == is_header_name(name@),
{
    headers::HeaderName::try_from(name.clone()).is_ok()
}

/// Calls `headers::HeaderValue::from_str`.
///
/// Trusted: the call succeeds exactly where every byte of the value is
/// either the tabulator or neither a control character nor DEL.
#[verifier::external_body]
fn header_value_parses(value: &str) -> (accepted: bool)
    ensures
        accepted == is_header_value(value.spec_bytes()),
{
    headers::HeaderValue::from_str(value).is_ok()
}

/// Whether a header, given as name and value, is handed on to the engine.
pub open spec fn is_accepted(header: HeaderEntry) -> bool {
    is_header_name(header.name@) && is_header_value(vstd::utf8::encode_utf8(header.value@))
}

/// The headers of a list that are handed on, in the order of the list.
pub open spec fn accepted_of(headers: Seq<HeaderEntry>) -> Seq<HeaderEntry>
    decreases headers.len(),
{
    if headers.len() == 0 {
        Seq::empty()
    } else if is_accepted(headers.last()) {
        accepted_of(headers.drop_last()).push(headers.last())
    } else {
        accepted_of(headers.drop_last())
    }
}

/// The headers that are handed on stand in the list they were taken from,
/// in the order they had there.
pub proof fn lemma_accepted_keeps_order(headers: Seq<HeaderEntry>)
    ensures
        forall|i: int|
            0 <= i < accepted_of(headers).len() ==> exists|a: int|
                0 <= a < headers.len() && headers[a] == #[trigger] accepted_of(headers)[i],
        forall|i: int, j: int|
            0 <= i < j < accepted_of(headers).len() ==> exists|a: int, b: int|
                0 <= a < b < headers.len() && headers[a] == #[trigger] accepted_of(headers)[i]
                    && headers[b] == #[trigger] accepted_of(headers)[j],
    decreases headers.len(),
{
    if headers.len() > 0 {
        let front = headers.drop_last();
        let kept = accepted_of(headers);
        let last = headers.len() - 1;
        lemma_accepted_keeps_order(front);
        assert forall|i: int| 0 <= i < kept.len() implies exists|a: int|
            0 <= a < headers.len() && headers[a] == #[trigger] kept[i] by {
            if i < accepted_of(front).len() {
                let a = choose|a: int|
                    0 <= a < front.len() && front[a] == #[trigger] accepted_of(front)[i];
                assert(headers[a] == kept[i]);
            } else {
                assert(headers[last] == kept[i]);
            }
        }
        assert forall|i: int, j: int| 0 <= i < j < kept.len() implies exists|a: int, b: int|
            0 <= a < b < headers.len() && headers[a] == #[trigger] kept[i] && headers[b]
                == #[trigger] kept[j] by {
            if j < accepted_of(front).len() {
                let (a, b) = choose|a: int, b: int|
                    0 <= a < b < front.len() && front[a] == #[trigger] accepted_of(front)[i]
                        && front[b] == #[trigger] accepted_of(front)[j];
                assert(headers[a] == kept[i] && headers[b] == kept[j]);
            } else {
                let a = choose|a: int|
                    0 <= a < front.len() && front[a] == #[trigger] accepted_of(front)[i];
                assert(headers[a] == kept[i] && headers[last] == kept[j]);
            }
        }
    }
}

/// Dropping headers brings no name in twice: where the names of a list are
/// distinct, so are the names of the headers that are handed on.
pub proof fn accepted_names_stay_distinct(headers: Seq<HeaderEntry>)
    requires
        distinct_names(header_views(headers)),
    ensures
        distinct_names(header_views(accepted_of(headers))),
{
    let kept = accepted_of(headers);
    lemma_accepted_keeps_order(headers);
    assert forall|i: int, j: int| 0 <= i < j < kept.len() implies header_views(kept)[i].0
        != header_views(kept)[j].0 by {
        let (a, b) = choose|a: int, b: int|
            0 <= a < b < headers.len() && headers[a] == #[trigger] kept[i] && headers[b]
                == #[trigger] kept[j];
        assert(header_views(headers)[a].0 != header_views(headers)[b].0);
    }
}

/// Whether the header is handed on to the engine.
pub fn accepts(header: &HeaderEntry) -> (accepted: bool)
    ensures
        accepted == is_accepted(*header),
{
    header_name_parses(&header.name) && header_value_parses(header.value.as_str())
}

/// Keeps the headers that the engine can send and drops the others: a
/// header stays where its name is a header name and its value a header
/// value.
pub fn accepted_headers(headers: Vec<HeaderEntry>) -> (accepted: Vec<HeaderEntry>)
    ensures
        accepted@ == accepted_of(headers@),
        distinct_names(header_views(headers@)) ==> distinct_names(header_views(accepted@)),
{
    let mut accepted: Vec<HeaderEntry> = Vec::new();
    let mut i: usize = 0;
    while i < headers.len()
        invariant
            i <= headers.len(),
            accepted@ == accepted_of(headers@.take(i as int)),
        decreases headers.len() - i,
    {
        proof {
            assert(headers@.take(i + 1).drop_last() == headers@.take(i as int));
        }
        if accepts(&headers[i]) {
            accepted.push(headers[i].clone());
        }
        i += 1;
    }
    assert(headers@.take(i as int) == headers@);
    proof {
        if distinct_names(header_views(headers@)) {
            accepted_names_stay_distinct(headers@);
        }
    }
    accepted
}

} // verus!
