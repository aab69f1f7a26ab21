//! The three webhook signature formats the payment providers use.
//!
//! All three prove possession of a shared secret with HMAC-SHA256 over the
//! raw body bytes, but the envelopes differ:
//!
//! * [`verify_timestamped`]: one header holds comma-separated `key=value`
//!   pairs; `t` gives a timestamp, each `v1` one candidate signature. The
//!   signed payload is `<timestamp>.<body>`.
//! * [`verify_versioned`]: one header holds comma-separated
//!   `version=hexcode` candidates, a second header the timestamp. The
//!   signed payload is `<version>.<timestamp>.<body>`, per candidate.
//! * [`verify_plain`]: one header holds one hex signature over the body
//!   alone.
//!
//! Each verifier is a pure function of secret and message: the contracts
//! pin the result, for every input, to a spec-level restatement of the
//! format, so calling a verifier twice with the same inputs must yield the
//! same result.

use vstd::prelude::*;
use vstd::string::StrSliceExecFns;
use vstd::string::StringSliceAdditionalSpecFns;
use vstd::utf8::encode_utf8;
use crate::sig::{hex_lower, hmac_sha256, spec_hex_lower, spec_hmac_sha256, str_eq_late};
use crate::webhook::{spec_header_lookup, WebhookMessage, WebhookMessageView};

verus! {

/// Why a webhook delivery was rejected.
#[derive(Copy, Clone, Debug, PartialEq, Eq, Structural)]
pub enum WebhookAuthError {
    /// The signature header is absent.
    MissingSignatureHeader,
    /// The separate timestamp header is absent (versioned format only).
    MissingTimestampHeader,
    /// The signature header holds a part without a `=` separator.
    MalformedSignatureHeader,
    /// The signature header holds no `t=` timestamp pair (timestamped
    /// format only).
    MissingTimestamp,
    /// No candidate signature equals the computed one.
    NoSignatureMatch,
}

impl WebhookAuthError {
    /// A short description, for logs.
    pub fn message(&self) -> (r: &'static str)
        ensures
            r@ == self.spec_message(),
    {
        match self {
            WebhookAuthError::MissingSignatureHeader => "missing signature header",
            WebhookAuthError::MissingTimestampHeader => "missing timestamp header",
            WebhookAuthError::MalformedSignatureHeader => "malformed signature header",
            WebhookAuthError::MissingTimestamp => "missing timestamp in signature header",
            WebhookAuthError::NoSignatureMatch => "no valid signature found",
        }
    }

    pub open spec fn spec_message(self) -> Seq<char> {
        match self {
            WebhookAuthError::MissingSignatureHeader => "missing signature header"@,
            WebhookAuthError::MissingTimestampHeader => "missing timestamp header"@,
            WebhookAuthError::MalformedSignatureHeader => "malformed signature header"@,
            WebhookAuthError::MissingTimestamp => "missing timestamp in signature header"@,
            WebhookAuthError::NoSignatureMatch => "no valid signature found"@,
        }
    }
}

/// Index of the first `sep` in `s`, if any.
pub open spec fn spec_find(s: Seq<char>, sep: char) -> Option<int>
    decreases s.len(),
{
    if s.len() == 0 {
        None
    } else if s.first() == sep {
        Some(0)
    } else {
        match spec_find(s.drop_first(), sep) {
            None => None,
            Some(i) => Some(i + 1),
        }
    }
}

/// What [`spec_find`] returns: the position of the first occurrence.
pub proof fn lemma_find_char(s: Seq<char>, sep: char)
    ensures
        match spec_find(s, sep) {
            Some(i) => 0 <= i < s.len() && s[i] == sep && forall|j: int|
                0 <= j < i ==> s[j] != sep,
            None => forall|j: int| 0 <= j < s.len() ==> s[j] != sep,
        },
    decreases s.len(),
{
    if s.len() > 0 && s.first() != sep {
        lemma_find_char(s.drop_first(), sep);
        match spec_find(s.drop_first(), sep) {
            Some(i) => {
                assert(s[i + 1] == s.drop_first()[i]);
                assert forall|j: int| 0 <= j < i + 1 implies s[j] != sep by {
                    if j > 0 {
                        assert(s.drop_first()[j - 1] == s[j]);
                    }
                }
            },
            None => {
                assert forall|j: int| 0 <= j < s.len() implies s[j] != sep by {
                    if j > 0 {
                        assert(s.drop_first()[j - 1] == s[j]);
                    }
                }
            },
        }
    }
}

/// If `sep` occurs first at position `k`, that is what [`spec_find`]
/// returns.
pub proof fn lemma_find_at(s: Seq<char>, sep: char, k: int)
    requires
        0 <= k < s.len(),
        s[k] == sep,
        forall|j: int| 0 <= j < k ==> s[j] != sep,
    ensures
        spec_find(s, sep) == Some(k),
{
    lemma_find_char(s, sep);
    match spec_find(s, sep) {
        None => {
            assert(s[k] != sep);
        },
        Some(i0) => {
            if i0 < k {
                assert(s[i0] != sep);
            } else if i0 > k {
                assert(s[k] != sep);
            }
        },
    }
}

/// If `sep` occurs nowhere in `s`, [`spec_find`] returns nothing.
pub proof fn lemma_find_none(s: Seq<char>, sep: char)
    requires
        forall|j: int| 0 <= j < s.len() ==> s[j] != sep,
    ensures
        spec_find(s, sep) is None,
{
    lemma_find_char(s, sep);
    match spec_find(s, sep) {
        None => {},
        Some(i0) => {
            assert(s[i0] != sep);
        },
    }
}

/// Split on `sep`. Empty parts are kept: splitting `a,,b` gives three
/// parts, splitting the empty string gives one empty part.
pub open spec fn spec_split(s: Seq<char>, sep: char) -> Seq<Seq<char>>
    decreases s.len(),
        via spec_split_decreases
{
    match spec_find(s, sep) {
        None => seq![s],
        Some(i) => seq![s.take(i)] + spec_split(s.skip(i + 1), sep),
    }
}

#[via_fn]
proof fn spec_split_decreases(s: Seq<char>, sep: char) {
    lemma_find_char(s, sep);
}

/// Split a part at its first `=`: the key is what precedes it, the value
/// what follows it up to the next `=` (if any). A part without `=` is
/// malformed.
pub open spec fn spec_kv(part: Seq<char>) -> Option<(Seq<char>, Seq<char>)> {
    match spec_find(part, '=') {
        None => None,
        Some(i) => {
            let rest = part.skip(i + 1);
            let value = match spec_find(rest, '=') {
                None => rest,
                Some(j) => rest.take(j),
            };
            Some((part.take(i), value))
        },
    }
}

/// Some part of the signature header lacks a `=`.
pub open spec fn spec_any_malformed(parts: Seq<Seq<char>>) -> bool {
    exists|i: int| 0 <= i < parts.len() && spec_kv(parts[i]) is None
}

/// The value of the last well-formed pair whose key is `key` (a later
/// occurrence overrides an earlier one).
pub open spec fn spec_last_value(parts: Seq<Seq<char>>, key: Seq<char>) -> Option<Seq<char>>
    decreases parts.len(),
{
    if parts.len() == 0 {
        None
    } else {
        match spec_last_value(parts.drop_first(), key) {
            Some(v) => Some(v),
            None => match spec_kv(parts.first()) {
                Some(p) => if p.0 == key {
                    Some(p.1)
                } else {
                    None
                },
                None => None,
            },
        }
    }
}

/// The values of all well-formed pairs whose key is `key`, in order.
pub open spec fn spec_values(parts: Seq<Seq<char>>, key: Seq<char>) -> Seq<Seq<char>>
    decreases parts.len(),
{
    if parts.len() == 0 {
        seq![]
    } else {
        let tail = spec_values(parts.drop_first(), key);
        match spec_kv(parts.first()) {
            Some(p) => if p.0 == key {
                seq![p.1] + tail
            } else {
                tail
            },
            None => tail,
        }
    }
}

/// The signed payload of the timestamped format: `<timestamp>.<body>`.
pub open spec fn spec_payload_timestamped(ts: Seq<char>, body: Seq<u8>) -> Seq<u8> {
    encode_utf8(ts) + seq![46u8] + body
}

/// The signed payload of the versioned format:
/// `<version>.<timestamp>.<body>`.
pub open spec fn spec_payload_versioned(version: Seq<char>, ts: Seq<char>, body: Seq<u8>) -> Seq<
    u8,
> {
    encode_utf8(version) + seq![46u8] + encode_utf8(ts) + seq![46u8] + body
}

/// What the timestamped verifier returns, for every secret, message and
/// signature header name.
pub open spec fn spec_verify_timestamped(
    secret: Seq<u8>,
    m: WebhookMessageView,
    sig_header: Seq<char>,
) -> Result<(), WebhookAuthError> {
    match spec_header_lookup(m.headers, sig_header) {
        None => Err(WebhookAuthError::MissingSignatureHeader),
        Some(h) => {
            let parts = spec_split(h, ',');
            if spec_any_malformed(parts) {
                Err(WebhookAuthError::MalformedSignatureHeader)
            } else {
                match spec_last_value(parts, "t"@) {
                    None => Err(WebhookAuthError::MissingTimestamp),
                    Some(ts) => {
                        let expected = spec_hex_lower(
                            spec_hmac_sha256(secret, spec_payload_timestamped(ts, m.body)),
                        );
                        if spec_values(parts, "v1"@).contains(expected) {
                            Ok(())
                        } else {
                            Err(WebhookAuthError::NoSignatureMatch)
                        }
                    },
                }
            }
        },
    }
}

/// One part of a versioned signature header carries a matching candidate:
/// it is a well-formed `version=hexcode` pair whose hexcode is the HMAC of
/// `<version>.<timestamp>.<body>`.
pub open spec fn spec_versioned_candidate_matches(
    part: Seq<char>,
    secret: Seq<u8>,
    ts: Seq<char>,
    body: Seq<u8>,
) -> bool {
    match spec_kv(part) {
        None => false,
        Some(p) => p.1 == spec_hex_lower(
            spec_hmac_sha256(secret, spec_payload_versioned(p.0, ts, body)),
        ),
    }
}

/// Some part of the signature header carries a matching candidate.
pub open spec fn spec_any_versioned_match(
    parts: Seq<Seq<char>>,
    secret: Seq<u8>,
    ts: Seq<char>,
    body: Seq<u8>,
) -> bool {
    exists|i: int|
        0 <= i < parts.len() && spec_versioned_candidate_matches(parts[i], secret, ts, body)
}

/// What the versioned verifier returns, for every secret, message and pair
/// of header names.
pub open spec fn spec_verify_versioned(
    secret: Seq<u8>,
    m: WebhookMessageView,
    sig_header: Seq<char>,
    ts_header: Seq<char>,
) -> Result<(), WebhookAuthError> {
    match spec_header_lookup(m.headers, sig_header) {
        None => Err(WebhookAuthError::MissingSignatureHeader),
        Some(h) => match spec_header_lookup(m.headers, ts_header) {
            None => Err(WebhookAuthError::MissingTimestampHeader),
            Some(ts) => {
                if spec_any_versioned_match(spec_split(h, ','), secret, ts, m.body) {
                    Ok(())
                } else {
                    Err(WebhookAuthError::NoSignatureMatch)
                }
            },
        },
    }
}

/// What the plain verifier returns, for every secret, message and
/// signature header name.
pub open spec fn spec_verify_plain(
    secret: Seq<u8>,
    m: WebhookMessageView,
    sig_header: Seq<char>,
) -> Result<(), WebhookAuthError> {
    match spec_header_lookup(m.headers, sig_header) {
        None => Err(WebhookAuthError::MissingSignatureHeader),
        Some(sig) => {
            if sig == spec_hex_lower(spec_hmac_sha256(secret, m.body)) {
                Ok(())
            } else {
                Err(WebhookAuthError::NoSignatureMatch)
            }
        },
    }
}

/// The versioned format's errors discriminate: an absent signature header
/// and an absent timestamp header are each reported under their own name,
/// and a present-but-unmatched candidate list as a plain mismatch, never
/// as a missing header.
pub proof fn lemma_versioned_error_discrimination(
    secret: Seq<u8>,
    m: WebhookMessageView,
    sig_header: Seq<char>,
    ts_header: Seq<char>,
)
    ensures
        spec_header_lookup(m.headers, sig_header) is None ==> spec_verify_versioned(
            secret,
            m,
            sig_header,
            ts_header,
        ) == Err::<(), WebhookAuthError>(WebhookAuthError::MissingSignatureHeader),
        spec_header_lookup(m.headers, sig_header) is Some && spec_header_lookup(
            m.headers,
            ts_header,
        ) is None ==> spec_verify_versioned(secret, m, sig_header, ts_header) == Err::<
            (),
            WebhookAuthError,
        >(WebhookAuthError::MissingTimestampHeader),
        spec_header_lookup(m.headers, sig_header) is Some && spec_header_lookup(
            m.headers,
            ts_header,
        ) is Some ==> (spec_verify_versioned(secret, m, sig_header, ts_header) == Ok::<
            (),
            WebhookAuthError,
        >(()) || spec_verify_versioned(secret, m, sig_header, ts_header) == Err::<
            (),
            WebhookAuthError,
        >(WebhookAuthError::NoSignatureMatch)),
{
}

/// Completeness of the versioned format: for any secret, version string,
/// timestamp and body, the signature computed over
/// `<version>.<timestamp>.<body>` with that secret, delivered as a
/// `<version>=<sig>` candidate beside the timestamp header, verifies. The
/// version string must not contain the `,` and `=` delimiters of the
/// header format.
pub proof fn lemma_versioned_accepts_valid(
    secret: Seq<u8>,
    ver: Seq<char>,
    ts: Seq<char>,
    m: WebhookMessageView,
    sig_header: Seq<char>,
    ts_header: Seq<char>,
    hval: Seq<char>,
)
    requires
        forall|i: int| 0 <= i < ver.len() ==> ver[i] != ',' && ver[i] != '=',
        spec_header_lookup(m.headers, sig_header) == Some(hval),
        spec_header_lookup(m.headers, ts_header) == Some(ts),
        hval =~= ver + "="@ + spec_hex_lower(
            spec_hmac_sha256(secret, spec_payload_versioned(ver, ts, m.body)),
        ),
    ensures
        spec_verify_versioned(secret, m, sig_header, ts_header) == Ok::<(), WebhookAuthError>(()),
{
    reveal_strlit("=");
    let mac = spec_hmac_sha256(secret, spec_payload_versioned(ver, ts, m.body));
    let sig = spec_hex_lower(mac);
    crate::sig::lemma_hex_lower_chars(mac);
    assert(forall|i: int| 0 <= i < sig.len() ==> sig[i] != ',' && sig[i] != '=');
    let k = ver.len() as int;
    assert(hval.len() == ver.len() + 1 + sig.len());
    assert(hval[k] == '=');
    assert forall|j: int| 0 <= j < hval.len() implies hval[j] != ',' by {
        if j < k {
            assert(hval[j] == ver[j]);
        } else if j > k {
            assert(hval[j] == sig[j - k - 1]);
        }
    }
    lemma_find_none(hval, ',');
    let parts = spec_split(hval, ',');
    assert(parts =~= seq![hval]);
    assert forall|j: int| 0 <= j < k implies hval[j] != '=' by {
        assert(hval[j] == ver[j]);
    }
    lemma_find_at(hval, '=', k);
    assert(hval.take(k) =~= ver);
    assert(hval.skip(k + 1) =~= sig);
    lemma_find_none(hval.skip(k + 1), '=');
    assert(spec_kv(hval) == Some((ver, sig)));
    assert(spec_versioned_candidate_matches(parts[0], secret, ts, m.body));
    assert(spec_any_versioned_match(parts, secret, ts, m.body));
}

/// The plain format accepts exactly the hex HMAC of the raw body: with
/// the signature header present, verification succeeds if and only if the
/// header's value is `hex(hmac(secret, body))` — so any mutation of the
/// body that changes the tag fails verification.
pub proof fn lemma_plain_accepts_exactly_the_body_hmac(
    secret: Seq<u8>,
    m: WebhookMessageView,
    sig_header: Seq<char>,
)
    ensures
        spec_verify_plain(secret, m, sig_header) == Ok::<(), WebhookAuthError>(())
            <==> spec_header_lookup(m.headers, sig_header) == Some(
            spec_hex_lower(spec_hmac_sha256(secret, m.body)),
        ),
{
}

/// Index of the first `sep` in `s`, if any.
fn find_char(s: &str, sep: char) -> (r: Option<usize>)
    ensures
        match r {
            Some(i) => spec_find(s@, sep) == Some(i as int),
            None => spec_find(s@, sep) is None,
        },
{
    let n = s.unicode_len();
    for i in 0..n
        invariant
            n == s@.len(),
            forall|j: int| 0 <= j < i ==> s@[j] != sep,
    {
        if s.get_char(i) == sep {
            proof {
                lemma_find_char(s@, sep);
                match spec_find(s@, sep) {
                    None => {
                        assert(s@[i as int] == sep);
                    },
                    Some(i0) => {
                        if i0 < i as int {
                            assert(s@[i0] != sep);
                        } else if i0 > i as int {
                            assert(s@[i as int] != sep);
                        }
                    },
                }
            }
            return Some(i);
        }
    }
    proof {
        lemma_find_char(s@, sep);
        match spec_find(s@, sep) {
            None => {},
            Some(i0) => {
                assert(s@[i0] != sep);
            },
        }
    }
    None
}

/// Split on `sep`, keeping empty parts.
fn split_str(s: &str, sep: char) -> (r: Vec<String>)
    ensures
        r@.len() == spec_split(s@, sep).len(),
        forall|i: int| 0 <= i < r@.len() ==> r@[i]@ == spec_split(s@, sep)[i],
    decreases s@.len(),
{
    proof {
        lemma_find_char(s@, sep);
    }
    let n = s.unicode_len();
    match find_char(s, sep) {
        None => {
            let mut r: Vec<String> = Vec::new();
            r.push(s.to_owned());
            r
        },
        Some(i) => {
            let head = s.substring_char(0, i).to_owned();
            let rest = s.substring_char(i + 1, n);
            proof {
                assert(rest@ =~= s@.skip(i + 1));
                assert(head@ =~= s@.take(i as int));
            }
            let mut r = split_str(rest, sep);
            r.insert(0, head);
            r
        },
    }
}

/// Split a part at its first `=` into key and value.
fn kv_split(part: &str) -> (r: Option<(String, String)>)
    ensures
        match r {
            Some(p) => spec_kv(part@) == Some((p.0@, p.1@)),
            None => spec_kv(part@) is None,
        },
{
    proof {
        lemma_find_char(part@, '=');
    }
    let n = part.unicode_len();
    match find_char(part, '=') {
        None => None,
        Some(i) => {
            let key = part.substring_char(0, i).to_owned();
            let rest = part.substring_char(i + 1, n);
            proof {
                assert(rest@ =~= part@.skip(i + 1));
                assert(key@ =~= part@.take(i as int));
                lemma_find_char(rest@, '=');
            }
            let value = match find_char(rest, '=') {
                None => rest.to_owned(),
                Some(j) => rest.substring_char(0, j).to_owned(),
            };
            Some((key, value))
        },
    }
}

/// `<ts>.<body>` as bytes.
fn payload_timestamped(ts: &str, body: &[u8]) -> (r: Vec<u8>)
    ensures
        r@ == spec_payload_timestamped(ts@, body@),
{
    let mut p = ts.as_bytes_vec();
    p.push(46);
    let n = body.len();
    proof {
        assert(p@ =~= encode_utf8(ts@) + seq![46u8] + body@.take(0));
    }
    for i in 0..n
        invariant
            n == body@.len(),
            p@ == encode_utf8(ts@) + seq![46u8] + body@.take(i as int),
    {
        p.push(body[i]);
        proof {
            assert(p@ =~= encode_utf8(ts@) + seq![46u8] + body@.take(i + 1));
        }
    }
    proof {
        assert(body@.take(n as int) =~= body@);
    }
    p
}

/// `<version>.<ts>.<body>` as bytes.
fn payload_versioned(version: &str, ts: &str, body: &[u8]) -> (r: Vec<u8>)
    ensures
        r@ == spec_payload_versioned(version@, ts@, body@),
{
    let mut p = version.as_bytes_vec();
    p.push(46);
    let tsb = ts.as_bytes_vec();
    let tn = tsb.len();
    proof {
        assert(p@ =~= encode_utf8(version@) + seq![46u8] + encode_utf8(ts@).take(0));
    }
    for i in 0..tn
        invariant
            tn == tsb@.len(),
            tsb@ == encode_utf8(ts@),
            p@ == encode_utf8(version@) + seq![46u8] + encode_utf8(ts@).take(i as int),
    {
        p.push(tsb[i]);
        proof {
            assert(p@ =~= encode_utf8(version@) + seq![46u8] + encode_utf8(ts@).take(i + 1));
        }
    }
    proof {
        assert(encode_utf8(ts@).take(tn as int) =~= encode_utf8(ts@));
    }
    p.push(46);
    let n = body.len();
    let ghost prefix = encode_utf8(version@) + seq![46u8] + encode_utf8(ts@) + seq![46u8];
    proof {
        assert(p@ =~= prefix + body@.take(0));
    }
    for i in 0..n
        invariant
            n == body@.len(),
            p@ == prefix + body@.take(i as int),
    {
        p.push(body[i]);
        proof {
            assert(p@ =~= prefix + body@.take(i + 1));
        }
    }
    proof {
        assert(body@.take(n as int) =~= body@);
        assert(prefix + body@ =~= spec_payload_versioned(version@, ts@, body@));
    }
    p
}

/// Timestamped format: the signature header holds `key=value` pairs
/// separated by commas; `t` is the timestamp, each `v1` a candidate hex
/// signature of `<timestamp>.<body>`. Any candidate may match (several
/// coexist while a secret is being rotated).
#[verifier::loop_isolation(false)]
pub fn verify_timestamped(secret: &str, msg: &WebhookMessage, sig_header: &str) -> (r: Result<
    (),
    WebhookAuthError,
>)
    ensures
        r == spec_verify_timestamped(secret.spec_bytes(), msg@, sig_header@),
{
    let h = match msg.header(sig_header) {
        None => return Err(WebhookAuthError::MissingSignatureHeader),
        Some(h) => h,
    };
    let parts = split_str(h.as_str(), ',');
    let ghost sparts = spec_split(h@, ',');
    let n = parts.len();
    let mut ts: Option<String> = None;
    let mut cands: Vec<String> = Vec::new();
    proof {
        assert(sparts.skip(0) =~= sparts);
        reveal_strlit("t");
        reveal_strlit("v1");
        assert("t"@.len() != "v1"@.len());
    }
    for i in 0..n
        invariant
            n == parts@.len(),
            n == sparts.len(),
            forall|j: int| 0 <= j < n ==> parts@[j]@ == sparts[j],
            forall|j: int| 0 <= j < i ==> spec_kv(sparts[j]) is Some,
            spec_last_value(sparts, "t"@) == match spec_last_value(sparts.skip(i as int), "t"@) {
                Some(v) => Some(v),
                None => match ts {
                    Some(t) => Some(t@),
                    None => None::<Seq<char>>,
                },
            },
            spec_values(sparts, "v1"@) =~= Seq::new(cands@.len(), |j: int| cands@[j]@)
                + spec_values(sparts.skip(i as int), "v1"@),
    {
        proof {
            reveal_strlit("t");
            reveal_strlit("v1");
            assert("t"@.len() != "v1"@.len());
            assert(sparts.skip(i as int).first() == sparts[i as int]);
            assert(sparts.skip(i as int).drop_first() =~= sparts.skip(i as int + 1));
        }
        match kv_split(parts[i].as_str()) {
            None => {
                proof {
                    assert(spec_kv(sparts[i as int]) is None);
                    assert(spec_any_malformed(sparts));
                }
                return Err(WebhookAuthError::MalformedSignatureHeader);
            },
            Some(p) => {
                let (k, v) = p;
                if str_eq_late(k.as_str(), "t") {
                    ts = Some(v);
                } else if str_eq_late(k.as_str(), "v1") {
                    cands.push(v);
                    proof {
                        assert(Seq::new(cands@.len(), |j: int| cands@[j]@) =~= Seq::new(
                            (cands@.len() - 1) as nat,
                            |j: int| cands@[j]@,
                        ) + seq![v@]);
                    }
                }
            },
        }
    }
    proof {
        assert(sparts.skip(n as int) =~= Seq::<Seq<char>>::empty());
        assert(!spec_any_malformed(sparts));
    }
    let ts = match ts {
        None => return Err(WebhookAuthError::MissingTimestamp),
        Some(t) => t,
    };
    let payload = payload_timestamped(ts.as_str(), msg.body.as_slice());
    let mac = hmac_sha256(secret.as_bytes(), payload.as_slice());
    let expected = hex_lower(mac.as_slice());
    let cn = cands.len();
    let mut found = false;
    for i in 0..cn
        invariant
            cn == cands@.len(),
            found == exists|j: int| 0 <= j < i && cands@[j]@ == expected@,
    {
        if str_eq_late(cands[i].as_str(), expected.as_str()) {
            found = true;
        }
    }
    proof {
        let svals = spec_values(sparts, "v1"@);
        assert(svals.len() == cands@.len());
        assert(forall|j: int| 0 <= j < cands@.len() ==> svals[j] == cands@[j]@);
        if found {
            let j = choose|j: int| 0 <= j < cn && cands@[j]@ == expected@;
            assert(svals[j] == expected@);
        } else {
            assert(forall|j: int| 0 <= j < svals.len() ==> svals[j] != expected@);
        }
    }
    if found {
        Ok(())
    } else {
        Err(WebhookAuthError::NoSignatureMatch)
    }
}

/// Versioned format: one header holds comma-separated `version=hexcode`
/// candidates, a second header the timestamp; each candidate signs
/// `<version>.<timestamp>.<body>` with its own version string. The two
/// headers are reported missing separately, so a caller can log which one
/// was absent.
#[verifier::loop_isolation(false)]
pub fn verify_versioned(
    secret: &str,
    msg: &WebhookMessage,
    sig_header: &str,
    ts_header: &str,
) -> (r: Result<(), WebhookAuthError>)
    ensures
        r == spec_verify_versioned(secret.spec_bytes(), msg@, sig_header@, ts_header@),
{
    let h = match msg.header(sig_header) {
        None => return Err(WebhookAuthError::MissingSignatureHeader),
        Some(h) => h,
    };
    let ts = match msg.header(ts_header) {
        None => return Err(WebhookAuthError::MissingTimestampHeader),
        Some(t) => t.clone(),
    };
    let parts = split_str(h.as_str(), ',');
    let ghost sparts = spec_split(h@, ',');
    let n = parts.len();
    let mut found = false;
    for i in 0..n
        invariant
            n == parts@.len(),
            n == sparts.len(),
            forall|j: int| 0 <= j < n ==> parts@[j]@ == sparts[j],
            found == exists|j: int|
                0 <= j < i && spec_versioned_candidate_matches(
                    sparts[j],
                    secret.spec_bytes(),
                    ts@,
                    msg@.body,
                ),
    {
        match kv_split(parts[i].as_str()) {
            None => {
                proof {
                    assert(!spec_versioned_candidate_matches(
                        sparts[i as int],
                        secret.spec_bytes(),
                        ts@,
                        msg@.body,
                    ));
                }
            },
            Some(p) => {
                let payload = payload_versioned(p.0.as_str(), ts.as_str(), msg.body.as_slice());
                let mac = hmac_sha256(secret.as_bytes(), payload.as_slice());
                let expected = hex_lower(mac.as_slice());
                if str_eq_late(p.1.as_str(), expected.as_str()) {
                    found = true;
                    proof {
                        assert(spec_versioned_candidate_matches(
                            sparts[i as int],
                            secret.spec_bytes(),
                            ts@,
                            msg@.body,
                        ));
                    }
                } else {
                    proof {
                        assert(!spec_versioned_candidate_matches(
                            sparts[i as int],
                            secret.spec_bytes(),
                            ts@,
                            msg@.body,
                        ));
                    }
                }
            },
        }
    }
    proof {
        let sb = secret.spec_bytes();
        if found {
            let j = choose|j: int|
                0 <= j < n && spec_versioned_candidate_matches(sparts[j], sb, ts@, msg@.body);
            assert(0 <= j < sparts.len() && spec_versioned_candidate_matches(
                sparts[j],
                sb,
                ts@,
                msg@.body,
            ));
        } else {
            assert forall|j: int| 0 <= j < sparts.len() implies !spec_versioned_candidate_matches(
                sparts[j],
                sb,
                ts@,
                msg@.body,
            ) by {
                assert(!(0 <= j < n && spec_versioned_candidate_matches(
                    sparts[j],
                    sb,
                    ts@,
                    msg@.body,
                )));
            }
        }
    }
    if found {
        Ok(())
    } else {
        Err(WebhookAuthError::NoSignatureMatch)
    }
}

/// Completeness of the timestamped format: for any secret, timestamp and
/// body, the signature computed over `<timestamp>.<body>` with that
/// secret, delivered as the `v1` candidate of a `t=<timestamp>,v1=<sig>`
/// signature header, verifies. The timestamp must not contain the `,` and
/// `=` delimiters of the header format.
pub proof fn lemma_timestamped_accepts_valid(
    secret: Seq<u8>,
    ts: Seq<char>,
    m: WebhookMessageView,
    sig_header: Seq<char>,
    hval: Seq<char>,
)
    requires
        forall|i: int| 0 <= i < ts.len() ==> ts[i] != ',' && ts[i] != '=',
        spec_header_lookup(m.headers, sig_header) == Some(hval),
        hval =~= "t="@ + ts + ","@ + "v1="@ + spec_hex_lower(
            spec_hmac_sha256(secret, spec_payload_timestamped(ts, m.body)),
        ),
    ensures
        spec_verify_timestamped(secret, m, sig_header) == Ok::<(), WebhookAuthError>(()),
{
    reveal_strlit("t=");
    reveal_strlit(",");
    reveal_strlit("v1=");
    reveal_strlit("t");
    reveal_strlit("v1");
    let mac = spec_hmac_sha256(secret, spec_payload_timestamped(ts, m.body));
    let sig = spec_hex_lower(mac);
    crate::sig::lemma_hex_lower_chars(mac);
    assert(forall|i: int| 0 <= i < sig.len() ==> sig[i] != ',' && sig[i] != '=');
    let k = 2 + ts.len() as int;
    assert(hval.len() == 6 + ts.len() + sig.len());
    assert(hval[k] == ',');
    assert forall|j: int| 0 <= j < k implies hval[j] != ',' by {
        if j < 2 {
            assert(hval[j] == "t="@[j]);
        } else {
            assert(hval[j] == ts[j - 2]);
        }
    }
    lemma_find_at(hval, ',', k);
    let part0 = hval.take(k);
    let part1 = hval.skip(k + 1);
    assert(part0 =~= "t="@ + ts);
    assert(part1 =~= "v1="@ + sig);
    assert forall|j: int| 0 <= j < part1.len() implies part1[j] != ',' by {
        if j < 3 {
            assert(part1[j] == "v1="@[j]);
        } else {
            assert(part1[j] == sig[j - 3]);
        }
    }
    lemma_find_none(part1, ',');
    let parts = spec_split(hval, ',');
    assert(spec_split(part1, ',') == seq![part1]);
    assert(parts =~= seq![part0, part1]);
    // `t=<ts>` parses to the pair ("t", ts)
    assert(part0[0] == 't' && part0[1] == '=');
    lemma_find_at(part0, '=', 1);
    assert(part0.skip(2) =~= ts);
    lemma_find_none(part0.skip(2), '=');
    assert(part0.take(1) =~= "t"@);
    assert(spec_kv(part0) == Some(("t"@, ts)));
    // `v1=<sig>` parses to the pair ("v1", sig)
    assert(part1[0] == 'v' && part1[1] == '1' && part1[2] == '=');
    lemma_find_at(part1, '=', 2);
    assert(part1.skip(3) =~= sig);
    lemma_find_none(part1.skip(3), '=');
    assert(part1.take(2) =~= "v1"@);
    assert(spec_kv(part1) == Some(("v1"@, sig)));
    // both parts are well formed
    assert forall|i: int| 0 <= i < parts.len() implies spec_kv(parts[i]) is Some by {
        if i == 0 {
            assert(spec_kv(parts[0]) is Some);
        } else {
            assert(spec_kv(parts[1]) is Some);
        }
    }
    assert(!spec_any_malformed(parts));
    // the timestamp is found, and the candidate list is exactly the signature
    assert("t"@ != "v1"@);
    assert(parts.drop_first() =~= seq![part1]);
    assert(seq![part1].drop_first() =~= Seq::<Seq<char>>::empty());
    assert(seq![part1].first() == part1);
    assert(spec_last_value(Seq::<Seq<char>>::empty(), "t"@) is None);
    assert(spec_last_value(seq![part1], "t"@) is None);
    assert(spec_last_value(parts, "t"@) == Some(ts));
    assert(spec_values(Seq::<Seq<char>>::empty(), "v1"@) =~= Seq::<Seq<char>>::empty());
    assert(spec_values(seq![part1], "v1"@) =~= seq![sig]);
    assert(spec_values(parts, "v1"@) =~= seq![sig]);
    assert(spec_values(parts, "v1"@)[0] == sig);
    assert(spec_values(parts, "v1"@).contains(sig));
}

/// Plain format: one header, one hex signature over the raw body bytes.
pub fn verify_plain(secret: &str, msg: &WebhookMessage, sig_header: &str) -> (r: Result<
    (),
    WebhookAuthError,
>)
    ensures
        r == spec_verify_plain(secret.spec_bytes(), msg@, sig_header@),
{
    let sig = match msg.header(sig_header) {
        None => return Err(WebhookAuthError::MissingSignatureHeader),
        Some(s) => s,
    };
    let mac = hmac_sha256(secret.as_bytes(), msg.body.as_slice());
    let expected = hex_lower(mac.as_slice());
    if str_eq_late(sig.as_str(), expected.as_str()) {
        Ok(())
    } else {
        Err(WebhookAuthError::NoSignatureMatch)
    }
}

} // verus!
