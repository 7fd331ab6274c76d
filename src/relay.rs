use vstd::prelude::*;

use crate::errors::GatewayError;

verus! {

/// A byte that a relayed header value may hold: visible ASCII, space or tab.
pub open spec fn is_visible_ascii(b: u8) -> bool {
    (b >= 32 && b < 127) || b == 9
}

pub open spec fn all_visible_ascii(s: Seq<u8>) -> bool {
    forall|i: int| 0 <= i < s.len() ==> is_visible_ascii(#[trigger] s[i])
}

/// The bytes of an ASCII text, one per character.
pub open spec fn ascii_of(s: Seq<char>) -> Seq<u8> {
    s.map_values(|c: char| c as u8)
}

/// The decimal digits of `n`, most significant first, without leading zeros.
pub open spec fn decimal_digits(n: nat) -> Seq<u8>
    decreases n,
{
    if n < 10 {
        seq![(48 + n) as u8]
    } else {
        decimal_digits(n / 10).push((48 + n % 10) as u8)
    }
}

pub open spec fn is_digit(b: u8) -> bool {
    48 <= b <= 57
}

/// A non-empty run of decimal digits.
pub open spec fn is_decimal(s: Seq<u8>) -> bool {
    s.len() > 0 && forall|i: int| 0 <= i < s.len() ==> is_digit(#[trigger] s[i])
}

/// The number that a run of decimal digits spells.
pub open spec fn decimal_value(s: Seq<u8>) -> nat
    decreases s.len(),
{
    if s.len() == 0 {
        0
    } else {
        decimal_value(s.drop_last()) * 10 + (s.last() - 48) as nat
    }
}

/// The digits written for a request id are a non-empty decimal number that reads back
/// as that id.
pub proof fn lemma_decimal_round_trip(n: nat)
    ensures
        is_decimal(decimal_digits(n)),
        decimal_value(decimal_digits(n)) == n,
    decreases n,
{
    if n >= 10 {
        lemma_decimal_round_trip(n / 10);
        let d = decimal_digits(n);
        assert(d.drop_last() =~= decimal_digits(n / 10));
        assert(d.last() == (48 + n % 10) as u8);
        assert(n == (n / 10) * 10 + n % 10);
        assert forall|i: int| 0 <= i < d.len() implies is_digit(#[trigger] d[i]) by {
            if i < d.len() - 1 {
                assert(d[i] == decimal_digits(n / 10)[i]);
            }
        }
    } else {
        let d = decimal_digits(n);
        assert(d.drop_last() =~= Seq::<u8>::empty());
        assert(decimal_value(d.drop_last()) == 0);
    }
}

/// A header of the relayed response.
pub struct HeaderField {
    pub name: String,
    pub value: Vec<u8>,
}

impl View for HeaderField {
    type V = (Seq<char>, Seq<u8>);

    open spec fn view(&self) -> (Seq<char>, Seq<u8>) {
        (self.name@, self.value@)
    }
}

pub open spec fn gateway_name() -> Seq<char> {
    "openai-llm-gateway"@
}

/// The headers of a relayed response, in order: the request id, the gateway's identity,
/// the content type (`text/event-stream` when streaming), `no-cache`, and
/// `connection: keep-alive` when streaming.
pub open spec fn relay_headers_of(content_type: Seq<u8>, stream: bool, rid: nat) -> Seq<
    (Seq<char>, Seq<u8>),
> {
    let common = seq![
        ("x-rid"@, decimal_digits(rid)),
        ("x-gateway"@, ascii_of(gateway_name())),
        ("content-type"@, if stream {
            ascii_of("text/event-stream"@)
        } else {
            content_type
        }),
        ("cache-control"@, ascii_of("no-cache"@)),
    ];
    if stream {
        common.push(("connection"@, ascii_of("keep-alive"@)))
    } else {
        common
    }
}

/// The status line and headers of a relayed response; the body follows separately,
/// buffered or streamed.
pub struct RelayHead {
    pub status: u16,
    pub headers: Vec<HeaderField>,
    pub rid: u128,
    pub streaming: bool,
}

impl RelayHead {
    pub open spec fn headers_view(&self) -> Seq<(Seq<char>, Seq<u8>)> {
        self.headers@.map_values(|h: HeaderField| h@)
    }
}

/// The bytes of an ASCII text.
fn ascii_bytes(s: &str) -> (r: Vec<u8>)
    ensures
        r@ == ascii_of(s@),
{
    let n = s.unicode_len();
    let mut out: Vec<u8> = Vec::new();
    let mut i: usize = 0;
    while i < n
        invariant
            n == s@.len(),
            i <= n,
            out@ =~= ascii_of(s@.subrange(0, i as int)),
        decreases n - i,
    {
        let c = s.get_char(i);
        out.push(c as u8);
        i = i + 1;
        assert(out@ =~= ascii_of(s@.subrange(0, i as int)));
    }
    assert(s@.subrange(0, n as int) =~= s@);
    out
}

/// Writes `n` in decimal.
pub fn decimal_bytes(n: u128) -> (r: Vec<u8>)
    ensures
        r@ == decimal_digits(n as nat),
{
    let mut m: u128 = n;
    let mut out: Vec<u8> = Vec::new();
    loop
        invariant_except_break
            decimal_digits(n as nat) == decimal_digits(m as nat) + out@,
        ensures
            decimal_digits(n as nat) == out@,
        decreases m,
    {
        if m < 10 {
            let d = m as u8 + 48;
            let ghost before = out@;
            out.insert(0, d);
            assert(decimal_digits(m as nat) + before =~= out@) by {
                assert(decimal_digits(m as nat) == seq![d]);
            }
            break;
        }
        let d = (m % 10) as u8 + 48;
        let ghost before = out@;
        out.insert(0, d);
        assert(decimal_digits(m as nat) + before =~= decimal_digits((m / 10) as nat) + out@);
        m = m / 10;
    }
    out
}

/// Whether every byte of `v` is visible ASCII, space or tab, so that `v` reads as text.
pub fn is_text_header_value(v: &Vec<u8>) -> (r: bool)
    ensures
        r == all_visible_ascii(v@),
{
    let mut i: usize = 0;
    while i < v.len()
        invariant
            i <= v@.len(),
            forall|j: int| 0 <= j < i ==> is_visible_ascii(#[trigger] v@[j]),
        decreases v@.len() - i,
    {
        let b = v[i];
        if !((b >= 32 && b < 127) || b == 9) {
            return false;
        }
        i = i + 1;
    }
    true
}

/// The bytes of an optional header value.
pub open spec fn option_view(raw: Option<Vec<u8>>) -> Option<Seq<u8>> {
    match raw {
        Some(v) => Some(v@),
        None => None,
    }
}

/// The content type relayed for an upstream `content-type` header `raw`: the header as it
/// came, or `application/json` where the upstream sent none.
pub open spec fn content_type_of(raw: Option<Seq<u8>>) -> Seq<u8> {
    match raw {
        Some(v) => v,
        None => ascii_of("application/json"@),
    }
}

/// The content type to relay: the upstream's `content-type` header where it is present,
/// else `application/json`.
pub fn upstream_content_type(raw: Option<Vec<u8>>) -> (r: Vec<u8>)
    ensures
        r@ == content_type_of(option_view(raw)),
{
    match raw {
        Some(v) => v,
        None => ascii_bytes("application/json"),
    }
}

fn header(name: &str, value: Vec<u8>) -> (r: HeaderField)
    ensures
        r@ == (name@, value@),
{
    HeaderField { name: String::from_str(name), value }
}

/// Builds the status and headers relayed to the caller for an upstream response with
/// status `status` and content type `content_type`, under request id `rid`.
/// The status is the upstream's, unchanged. A content type that is not visible ASCII
/// (with space and tab) is an error, never dropped nor replaced.
pub fn build_relay_head(status: u16, content_type: &Vec<u8>, stream: bool, rid: u128) -> (r:
    Result<RelayHead, GatewayError>)
    ensures
        r is Err <==> !all_visible_ascii(content_type@),
        r is Err ==> r->Err_0 == GatewayError::HeaderConstructionError,
        r matches Ok(h) ==> h.status == status && h.rid == rid && h.streaming == stream
            && h.headers_view() == relay_headers_of(content_type@, stream, rid as nat),
{
    if !is_text_header_value(content_type) {
        return Err(GatewayError::HeaderConstructionError);
    }
    let mut headers: Vec<HeaderField> = Vec::new();
    headers.push(header("x-rid", decimal_bytes(rid)));
    headers.push(header("x-gateway", ascii_bytes("openai-llm-gateway")));
    if stream {
        headers.push(header("content-type", ascii_bytes("text/event-stream")));
    } else {
        headers.push(header("content-type", content_type.clone()));
    }
    headers.push(header("cache-control", ascii_bytes("no-cache")));
    if stream {
        headers.push(header("connection", ascii_bytes("keep-alive")));
    }
    let head = RelayHead { status, headers, rid, streaming: stream };
    assert(head.headers_view() =~= relay_headers_of(content_type@, stream, rid as nat));
    Ok(head)
}

/// The fallback content type is text.
proof fn lemma_json_type_is_text()
    ensures
        all_visible_ascii(ascii_of("application/json"@)),
{
    reveal_strlit("application/json");
    let s = ascii_of("application/json"@);
    assert forall|i: int| 0 <= i < s.len() implies is_visible_ascii(#[trigger] s[i]) by {
        assert(s[i] == "application/json"@[i] as u8);
    }
}

/// The relayed status and headers for an upstream answer with status `status` and
/// `content-type` header `raw`, if any: the computing half of forwarding one chat request.
/// A header that is present but not visible ASCII fails with `HeaderConstructionError`;
/// an absent one is relayed as `application/json`.
pub fn relay_head_for(status: u16, raw: Option<Vec<u8>>, stream: bool, rid: u128) -> (r: Result<
    RelayHead,
    GatewayError,
>)
    ensures
        r is Err <==> (raw matches Some(v) && !all_visible_ascii(v@)),
        r is Err ==> r->Err_0 == GatewayError::HeaderConstructionError,
        r matches Ok(h) ==> h.status == status && h.rid == rid && h.streaming == stream
            && h.headers_view() == relay_headers_of(
            content_type_of(option_view(raw)),
            stream,
            rid as nat,
        ),
{
    let ct = upstream_content_type(raw);
    proof {
        lemma_json_type_is_text();
    }
    build_relay_head(status, &ct, stream, rid)
}

/// Every relayed response, buffered or streamed, carries an `x-rid` header, first, whose
/// value is a non-empty decimal number equal to the request id.
pub proof fn lemma_rid_header_is_decimal(content_type: Seq<u8>, stream: bool, rid: nat)
    ensures
        relay_headers_of(content_type, stream, rid)[0].0 == "x-rid"@,
        is_decimal(relay_headers_of(content_type, stream, rid)[0].1),
        decimal_value(relay_headers_of(content_type, stream, rid)[0].1) == rid,
{
    lemma_decimal_round_trip(rid);
}

} // verus!
