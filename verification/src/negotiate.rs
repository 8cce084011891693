//! Negotiation of a request's Content-Type header: the media type is the
//! header up to the first `;`, without trailing blanks, in lower case.

use crate::content_type::{ApiEndpointBodyContentType, BodyFormat};
use crate::error::{outcome, BodyError, BodyErrorView};
use crate::text::{all_ascii, ascii_text, ascii_to_string};
use vstd::prelude::*;
use vstd::string::*;

verus! {

/// A byte that may stand in a header's text: printable ASCII or a tab.
pub open spec fn is_visible_ascii(b: u8) -> bool {
    (32 <= b && b < 127) || b == 9
}

/// Whether a header value is text.
pub open spec fn header_is_text(h: Seq<u8>) -> bool {
    forall|i: int| 0 <= i < h.len() ==> is_visible_ascii(#[trigger] h[i])
}

/// An ASCII blank: space, tab, line feed, vertical tab, form feed or
/// carriage return.
pub open spec fn is_blank(b: u8) -> bool {
    b == 32 || (9 <= b && b <= 13)
}

/// The lower-case form of an ASCII byte.
pub open spec fn lower_byte(b: u8) -> u8 {
    if 65 <= b && b <= 90 {
        (b + 32) as u8
    } else {
        b
    }
}

/// A byte sequence with each ASCII letter in lower case.
pub open spec fn lowered(s: Seq<u8>) -> Seq<u8> {
    Seq::new(s.len(), |i: int| lower_byte(s[i]))
}

/// Where the media type ends: the place of the first `;`, or the length
/// where there is none.
pub open spec fn media_end(h: Seq<u8>) -> int
    decreases h.len(),
{
    if h.len() == 0 || h[0] == 59 {
        0
    } else {
        1 + media_end(h.drop_first())
    }
}

/// The length of `s` without its trailing blanks.
pub open spec fn trimmed_len(s: Seq<u8>) -> int
    decreases s.len(),
{
    if s.len() > 0 && is_blank(s.last()) {
        trimmed_len(s.drop_last())
    } else {
        s.len() as int
    }
}

/// The media type that a header value declares.
pub open spec fn media_type_of(h: Seq<u8>) -> Seq<u8> {
    let head = h.subrange(0, media_end(h));
    lowered(head.subrange(0, trimmed_len(head)))
}

/// `media_end` is within the value.
pub proof fn lemma_media_end_bounds(h: Seq<u8>)
    ensures
        0 <= media_end(h) <= h.len(),
        forall|j: int| 0 <= j < media_end(h) ==> h[j] != 59,
        media_end(h) < h.len() ==> h[media_end(h)] == 59,
    decreases h.len(),
{
    if h.len() == 0 || h[0] == 59 {
    } else {
        let t = h.drop_first();
        lemma_media_end_bounds(t);
        assert forall|j: int| 0 <= j < media_end(h) implies h[j] != 59 by {
            if j > 0 {
                assert(h[j] == t[j - 1]);
            }
        }
        assert(h[media_end(h)] == t[media_end(t)] || media_end(h) == h.len());
    }
}

/// A place with no `;` before it, that holds one or is the end, is where the
/// media type ends.
pub proof fn lemma_media_end_is(h: Seq<u8>, k: int)
    requires
        0 <= k <= h.len(),
        forall|j: int| 0 <= j < k ==> h[j] != 59,
        k < h.len() ==> h[k] == 59,
    ensures
        media_end(h) == k,
{
    lemma_media_end_bounds(h);
    let m = media_end(h);
    if m < k {
        assert(h[m] == 59);
    } else if k < m {
        assert(h[k] == 59);
    }
}

/// `trimmed_len` cuts exactly the trailing blanks.
pub proof fn lemma_trimmed_len_bounds(s: Seq<u8>)
    ensures
        0 <= trimmed_len(s) <= s.len(),
        forall|j: int| trimmed_len(s) <= j < s.len() ==> is_blank(s[j]),
        trimmed_len(s) > 0 ==> !is_blank(s[trimmed_len(s) - 1]),
    decreases s.len(),
{
    if s.len() > 0 && is_blank(s.last()) {
        let t = s.drop_last();
        lemma_trimmed_len_bounds(t);
        assert forall|j: int| trimmed_len(s) <= j < s.len() implies is_blank(s[j]) by {
            if j < t.len() {
                assert(s[j] == t[j]);
            }
        }
        if trimmed_len(s) > 0 {
            assert(s[trimmed_len(s) - 1] == t[trimmed_len(t) - 1]);
        }
    }
}

/// A length after which all is blank, and that is zero or follows a byte
/// that is not blank, is the trimmed length.
pub proof fn lemma_trimmed_len_is(s: Seq<u8>, k: int)
    requires
        0 <= k <= s.len(),
        forall|j: int| k <= j < s.len() ==> is_blank(s[j]),
        k > 0 ==> !is_blank(s[k - 1]),
    ensures
        trimmed_len(s) == k,
{
    lemma_trimmed_len_bounds(s);
    let m = trimmed_len(s);
    if m < k {
        assert(is_blank(s[k - 1]));
    } else if k < m {
        assert(is_blank(s[m - 1]));
    }
}

/// Extracts the media type of a header value.
pub fn media_type(header: &[u8]) -> (m: Vec<u8>)
    ensures
        m@ == media_type_of(header@),
{
    let mut end: usize = 0;
    while end < header.len() && header[end] != 59
        invariant
            end <= header@.len(),
            forall|j: int| 0 <= j < end ==> header@[j] != 59,
        decreases header@.len() - end,
    {
        end += 1;
    }
    proof {
        lemma_media_end_is(header@, end as int);
    }
    let ghost head = header@.subrange(0, end as int);
    let mut stop: usize = end;
    while stop > 0 && (header[stop - 1] == 32 || (9 <= header[stop - 1] && header[stop - 1] <= 13))
        invariant
            stop <= end <= header@.len(),
            head == header@.subrange(0, end as int),
            forall|j: int| stop <= j < end ==> is_blank(head[j]),
        decreases stop,
    {
        stop -= 1;
    }
    proof {
        lemma_trimmed_len_is(head, stop as int);
    }
    let mut m: Vec<u8> = Vec::new();
    let mut i: usize = 0;
    while i < stop
        invariant
            i <= stop <= end <= header@.len(),
            m@.len() == i,
            forall|j: int| 0 <= j < i ==> m@[j] == lower_byte(header@[j]),
        decreases stop - i,
    {
        let b: u8 = header[i];
        if 65 <= b && b <= 90 {
            m.push(b + 32);
        } else {
            m.push(b);
        }
        i += 1;
    }
    assert(m@ =~= media_type_of(header@));
    m
}

/// Whether a header value is text.
pub fn is_header_text(header: &[u8]) -> (r: bool)
    ensures
        r == header_is_text(header@),
{
    let mut i: usize = 0;
    while i < header.len()
        invariant
            i <= header@.len(),
            forall|j: int| 0 <= j < i ==> is_visible_ascii(#[trigger] header@[j]),
        decreases header@.len() - i,
    {
        let b: u8 = header[i];
        if !((32 <= b && b < 127) || b == 9) {
            return false;
        }
        i += 1;
    }
    true
}

/// The value of an optional header.
pub open spec fn header_view(header: Option<&[u8]>) -> Option<Seq<u8>> {
    match header {
        Some(h) => Some(h@),
        None => None,
    }
}

/// What negotiation yields: JSON where the header is absent; the kind whose
/// media type the header declares; an error where the header is not text or
/// declares an unknown media type.
pub open spec fn negotiated(header: Option<Seq<u8>>) -> Result<
    ApiEndpointBodyContentType,
    BodyErrorView,
> {
    match header {
        None => Ok(ApiEndpointBodyContentType::Json),
        Some(h) => if !header_is_text(h) {
            Err(BodyErrorView::InvalidContentType)
        } else {
            match ApiEndpointBodyContentType::of_mime(ascii_text(media_type_of(h))) {
                Some(kind) => Ok(kind),
                None => Err(
                    BodyErrorView::UnsupportedMediaType { raw: ascii_text(media_type_of(h)) },
                ),
            }
        },
    }
}

/// A text header's media type is ASCII.
pub proof fn lemma_media_type_ascii(h: Seq<u8>)
    requires
        header_is_text(h),
    ensures
        all_ascii(media_type_of(h)),
{
    lemma_media_end_bounds(h);
    let head = h.subrange(0, media_end(h));
    lemma_trimmed_len_bounds(head);
    let m = media_type_of(h);
    assert forall|i: int| 0 <= i < m.len() implies #[trigger] m[i] < 128 by {
        assert(is_visible_ascii(h[i]));
    }
}

/// Determines the body kind that a request declares.
pub fn negotiate(header: Option<&[u8]>) -> (r: Result<ApiEndpointBodyContentType, BodyError>)
    ensures
        outcome(r) == negotiated(header_view(header)),
{
    match header {
        None => Ok(ApiEndpointBodyContentType::Json),
        Some(h) => {
            if !is_header_text(h) {
                return Err(BodyError::InvalidContentType);
            }
            let m = media_type(h);
            proof {
                lemma_media_type_ascii(h@);
            }
            let mime = ascii_to_string(m.as_slice());
            match ApiEndpointBodyContentType::from_mime_type(mime.as_str()) {
                Ok(kind) => Ok(kind),
                Err(raw) => Err(BodyError::UnsupportedMediaType { raw }),
            }
        },
    }
}

/// How a body is decoded for a handler that expects `expected` when the
/// request declares `found`: only JSON for JSON and form data for form data
/// are decoded; every other pairing is a mismatch naming both.
pub open spec fn dispatched(
    expected: ApiEndpointBodyContentType,
    found: ApiEndpointBodyContentType,
) -> Result<BodyFormat, BodyErrorView> {
    match (expected, found) {
        (ApiEndpointBodyContentType::Json, ApiEndpointBodyContentType::Json) => Ok(
            BodyFormat::Json,
        ),
        (ApiEndpointBodyContentType::UrlEncoded, ApiEndpointBodyContentType::UrlEncoded) => Ok(
            BodyFormat::UrlEncoded,
        ),
        _ => Err(BodyErrorView::ContentTypeMismatch { expected, found }),
    }
}

/// Chooses the decoder for a body, or reports the mismatch.
pub fn dispatch(expected: ApiEndpointBodyContentType, found: ApiEndpointBodyContentType) -> (r:
    Result<BodyFormat, BodyError>)
    ensures
        outcome(r) == dispatched(expected, found),
{
    match (expected, found) {
        (ApiEndpointBodyContentType::Json, ApiEndpointBodyContentType::Json) => Ok(
            BodyFormat::Json,
        ),
        (ApiEndpointBodyContentType::UrlEncoded, ApiEndpointBodyContentType::UrlEncoded) => Ok(
            BodyFormat::UrlEncoded,
        ),
        _ => Err(BodyError::ContentTypeMismatch { expected, found }),
    }
}

/// Two header values that differ only in the case of their letters declare
/// the same media type.
pub proof fn lemma_media_type_ignores_case(a: Seq<u8>, b: Seq<u8>)
    requires
        a.len() == b.len(),
        forall|i: int| 0 <= i < a.len() ==> lower_byte(a[i]) == lower_byte(b[i]),
    ensures
        media_type_of(a) == media_type_of(b),
        header_is_text(a) == header_is_text(b),
{
    lemma_media_end_bounds(a);
    let k = media_end(a);
    assert forall|j: int| 0 <= j < k implies b[j] != 59 by {
        assert(lower_byte(a[j]) == lower_byte(b[j]));
    }
    if k < a.len() {
        assert(lower_byte(a[k]) == lower_byte(b[k]));
    }
    lemma_media_end_is(b, k);
    let ha = a.subrange(0, k);
    let hb = b.subrange(0, k);
    lemma_trimmed_len_bounds(ha);
    let t = trimmed_len(ha);
    assert forall|j: int| t <= j < hb.len() implies is_blank(hb[j]) by {
        assert(is_blank(ha[j]));
        assert(lower_byte(a[j]) == lower_byte(b[j]));
    }
    if t > 0 {
        assert(lower_byte(a[t - 1]) == lower_byte(b[t - 1]));
        assert(!is_blank(ha[t - 1]));
    }
    lemma_trimmed_len_is(hb, t);
    assert(media_type_of(a) =~= media_type_of(b));
    if header_is_text(a) {
        assert forall|i: int| 0 <= i < b.len() implies is_visible_ascii(#[trigger] b[i]) by {
            assert(is_visible_ascii(a[i]));
            assert(lower_byte(a[i]) == lower_byte(b[i]));
        }
    }
    if header_is_text(b) {
        assert forall|i: int| 0 <= i < a.len() implies is_visible_ascii(#[trigger] a[i]) by {
            assert(is_visible_ascii(b[i]));
            assert(lower_byte(a[i]) == lower_byte(b[i]));
        }
    }
}

/// Negotiation is insensitive to the case of the header's letters.
pub proof fn lemma_negotiation_ignores_case(a: Seq<u8>, b: Seq<u8>)
    requires
        a.len() == b.len(),
        forall|i: int| 0 <= i < a.len() ==> lower_byte(a[i]) == lower_byte(b[i]),
    ensures
        negotiated(Some(a)) == negotiated(Some(b)),
{
    lemma_media_type_ignores_case(a, b);
}

/// Blanks after a header value do not change the media type it declares.
pub proof fn lemma_media_type_ignores_trailing_blanks(h: Seq<u8>, blanks: Seq<u8>)
    requires
        forall|i: int| 0 <= i < blanks.len() ==> is_blank(blanks[i]),
    ensures
        media_type_of(h + blanks) == media_type_of(h),
{
    let g = h + blanks;
    lemma_media_end_bounds(h);
    let k = media_end(h);
    if k < h.len() {
        assert forall|j: int| 0 <= j < k implies g[j] != 59 by {
            assert(g[j] == h[j]);
        }
        assert(g[k] == h[k]);
        lemma_media_end_is(g, k);
        assert(g.subrange(0, k) =~= h.subrange(0, k));
    } else {
        assert forall|j: int| 0 <= j < g.len() implies g[j] != 59 by {
            if j < h.len() {
                assert(g[j] == h[j]);
            } else {
                assert(g[j] == blanks[j - h.len()]);
                assert(is_blank(blanks[j - h.len()]));
            }
        }
        lemma_media_end_is(g, g.len() as int);
        assert(g.subrange(0, g.len() as int) =~= g);
        assert(h.subrange(0, k) =~= h);
        lemma_trimmed_len_bounds(h);
        let t = trimmed_len(h);
        assert forall|j: int| t <= j < g.len() implies is_blank(g[j]) by {
            if j < h.len() {
                assert(g[j] == h[j]);
            } else {
                assert(g[j] == blanks[j - h.len()]);
            }
        }
        if t > 0 {
            assert(g[t - 1] == h[t - 1]);
        }
        lemma_trimmed_len_is(g, t);
        assert(g.subrange(0, t) =~= h.subrange(0, t));
    }
}

/// Negotiation is insensitive to spaces and tabs after the header value.
pub proof fn lemma_negotiation_ignores_trailing_blanks(h: Seq<u8>, blanks: Seq<u8>)
    requires
        forall|i: int| 0 <= i < blanks.len() ==> blanks[i] == 32 || blanks[i] == 9,
    ensures
        negotiated(Some(h + blanks)) == negotiated(Some(h)),
{
    lemma_media_type_ignores_trailing_blanks(h, blanks);
    let g = h + blanks;
    if header_is_text(h) {
        assert forall|j: int| 0 <= j < g.len() implies is_visible_ascii(#[trigger] g[j]) by {
            if j < h.len() {
                assert(g[j] == h[j]);
            } else {
                assert(g[j] == blanks[j - h.len()]);
            }
        }
    }
    if header_is_text(g) {
        assert forall|j: int| 0 <= j < h.len() implies is_visible_ascii(#[trigger] h[j]) by {
            assert(g[j] == h[j]);
        }
    }
}

/// What follows a `;` does not change the media type that a header value
/// declares.
pub proof fn lemma_media_type_ignores_parameters(h: Seq<u8>, params: Seq<u8>)
    ensures
        media_type_of(h + seq![59u8] + params) == media_type_of(h),
{
    let g = h + seq![59u8] + params;
    lemma_media_end_bounds(h);
    let k = media_end(h);
    assert forall|j: int| 0 <= j < k implies g[j] != 59 by {
        assert(g[j] == h[j]);
    }
    if k < h.len() {
        assert(g[k] == h[k]);
    } else {
        assert(g[k] == 59);
    }
    lemma_media_end_is(g, k);
    assert(g.subrange(0, k) =~= h.subrange(0, k));
}

/// Negotiation ignores the parameters that follow the media type.
pub proof fn lemma_negotiation_ignores_parameters(h: Seq<u8>, params: Seq<u8>)
    requires
        header_is_text(params),
    ensures
        negotiated(Some(h + seq![59u8] + params)) == negotiated(Some(h)),
{
    lemma_media_type_ignores_parameters(h, params);
    let g = h + seq![59u8] + params;
    if header_is_text(h) {
        assert forall|j: int| 0 <= j < g.len() implies is_visible_ascii(#[trigger] g[j]) by {
            if j < h.len() {
                assert(g[j] == h[j]);
            } else if j == h.len() {
                assert(g[j] == 59);
            } else {
                assert(g[j] == params[j - h.len() - 1]);
            }
        }
    }
    if header_is_text(g) {
        assert forall|j: int| 0 <= j < h.len() implies is_visible_ascii(#[trigger] h[j]) by {
            assert(g[j] == h[j]);
        }
    }
}

/// Negotiation yields a kind only for the header that declares it: the
/// handler's expectation plays no part, and an unknown media type is an
/// error whatever the handler expects.
pub proof fn lemma_negotiation_never_guesses(h: Seq<u8>)
    requires
        header_is_text(h),
        ApiEndpointBodyContentType::of_mime(ascii_text(media_type_of(h))) is None,
    ensures
        negotiated(Some(h)) == Err::<ApiEndpointBodyContentType, BodyErrorView>(
            BodyErrorView::UnsupportedMediaType { raw: ascii_text(media_type_of(h)) },
        ),
{
}

/// A handler's expectation and a request's kind that differ never lead to a
/// decoder; equal kinds with a decoder always do.
pub proof fn lemma_dispatch_is_strict(
    expected: ApiEndpointBodyContentType,
    found: ApiEndpointBodyContentType,
)
    ensures
        expected != found ==> dispatched(expected, found) == Err::<BodyFormat, BodyErrorView>(
            BodyErrorView::ContentTypeMismatch { expected, found },
        ),
        expected == found && expected == ApiEndpointBodyContentType::Json ==> dispatched(
            expected,
            found,
        ) == Ok::<BodyFormat, BodyErrorView>(BodyFormat::Json),
        expected == found && expected == ApiEndpointBodyContentType::UrlEncoded ==> dispatched(
            expected,
            found,
        ) == Ok::<BodyFormat, BodyErrorView>(BodyFormat::UrlEncoded),
{
}

} // verus!
