//! Bearer-token checks for the admin-only `/stats/*` routes.
use vstd::prelude::*;
use vstd::slice::slice_to_vec;
use vstd::utf8::encode_utf8;
use sha2::Digest;

verus! {

/// The SHA-256 digest of `data` (FIPS 180-4), as `sha2` computes it.
pub uninterp spec fn sha256_digest(data: Seq<u8>) -> Seq<u8>;

/// Calls `sha2::Sha256::digest`. Claims that the result is the SHA-256 digest
/// of the input, a function of the input alone, and that it is 32 bytes long
/// (`Sha256`'s output size is `U32`). Nothing is claimed about collisions.
#[verifier::external_body]
fn sha256(data: &[u8]) -> (r: Vec<u8>)
    ensures
        r@ == sha256_digest(data@),
        r@.len() == 32,
{
    sha2::Sha256::digest(data).to_vec()
}

/// Compares two byte strings through their SHA-256 digests, touching every
/// digest byte, so the time taken leaks neither the contents nor the length of
/// either side. The result is whether the two digests are equal.
pub fn constant_time_eq(a: &[u8], b: &[u8]) -> (r: bool)
    ensures
        r == (sha256_digest(a@) == sha256_digest(b@)),
{
    let da = sha256(a);
    let db = sha256(b);
    digests_equal(&da, &db)
}

/// Whether two 32-byte digests are equal, found by OR-ing the XOR of every
/// byte pair, without stopping at the first difference.
pub fn digests_equal(da: &Vec<u8>, db: &Vec<u8>) -> (r: bool)
    requires
        da@.len() == 32,
        db@.len() == 32,
    ensures
        r == (da@ == db@),
{
    let mut diff: u8 = 0;
    let mut i: usize = 0;
    while i < 32
        invariant
            da@.len() == 32,
            db@.len() == 32,
            i <= 32,
            (diff == 0) <==> (forall|j: int| 0 <= j < i ==> da@[j] == db@[j]),
        decreases 32 - i,
    {
        let x = da[i];
        let y = db[i];
        let d = diff;
        assert(((d | (x ^ y)) == 0u8) <==> (d == 0u8 && x == y)) by (bit_vector);
        diff = d | (x ^ y);
        i = i + 1;
    }
    proof {
        if diff == 0 {
            assert(da@ =~= db@);
        }
    }
    diff == 0
}

/// A byte that `HeaderValue::to_str` accepts: visible ASCII or a tab.
pub open spec fn header_text_byte(b: u8) -> bool {
    (32 <= b && b < 127) || b == 9
}

/// A header value that reads as text.
pub open spec fn header_is_text(h: Seq<u8>) -> bool {
    forall|i: int| 0 <= i < h.len() ==> header_text_byte(#[trigger] h[i])
}

/// The bytes of `"Bearer "`.
pub open spec fn bearer_prefix() -> Seq<u8> {
    seq![66u8, 101u8, 97u8, 114u8, 101u8, 114u8, 32u8]
}

/// ASCII whitespace as `str::trim` removes it (tab, line feed, vertical tab,
/// form feed, carriage return, space).
pub open spec fn ascii_space(b: u8) -> bool {
    b == 9 || b == 10 || b == 11 || b == 12 || b == 13 || b == 32
}

/// `s` without its leading and trailing ASCII whitespace.
pub open spec fn trim_ascii(s: Seq<u8>) -> Seq<u8>
    decreases s.len(),
{
    if s.len() == 0 {
        s
    } else if ascii_space(s[0]) {
        trim_ascii(s.drop_first())
    } else if ascii_space(s.last()) {
        trim_ascii(s.drop_last())
    } else {
        s
    }
}

/// The token an `Authorization` header presents: the value must read as text
/// and start with `"Bearer "`; the rest, trimmed, is the token.
pub open spec fn presented_token(header: Option<Seq<u8>>) -> Option<Seq<u8>> {
    match header {
        Some(h) => if header_is_text(h) && h.len() >= 7 && h.take(7) == bearer_prefix() {
            Some(trim_ascii(h.skip(7)))
        } else {
            None
        },
        None => None,
    }
}

/// Whether a request with this `Authorization` header may read admin routes:
/// always when no admin token is configured, otherwise only when the presented
/// token has the same digest as the configured one.
pub open spec fn admin_allows_spec(expected: Option<Seq<u8>>, header: Option<Seq<u8>>) -> bool {
    match expected {
        None => true,
        Some(e) => match presented_token(header) {
            Some(t) => sha256_digest(t) == sha256_digest(e),
            None => false,
        },
    }
}

fn is_ascii_space(b: u8) -> (r: bool)
    ensures
        r == ascii_space(b),
{
    b == 9 || b == 10 || b == 11 || b == 12 || b == 13 || b == 32
}

/// `s` with leading and trailing ASCII whitespace removed.
pub fn trim_ascii_bytes(s: &[u8]) -> (r: Vec<u8>)
    ensures
        r@ == trim_ascii(s@),
{
    let mut lo: usize = 0;
    let mut hi: usize = s.len();
    assert(s@.subrange(0, s@.len() as int) =~= s@);
    loop
        invariant
            lo <= hi <= s@.len(),
            trim_ascii(s@.subrange(lo as int, hi as int)) == trim_ascii(s@),
        ensures
            lo <= hi <= s@.len(),
            s@.subrange(lo as int, hi as int) == trim_ascii(s@),
        decreases hi - lo,
    {
        let ghost t = s@.subrange(lo as int, hi as int);
        if lo < hi && is_ascii_space(s[lo]) {
            assert(t.drop_first() =~= s@.subrange(lo + 1, hi as int));
            lo = lo + 1;
        } else if lo < hi && is_ascii_space(s[hi - 1]) {
            assert(t.drop_last() =~= s@.subrange(lo as int, hi - 1));
            hi = hi - 1;
        } else {
            assert(trim_ascii(t) == t);
            break;
        }
    }
    slice_to_vec(&s[lo..hi])
}

fn is_header_text(h: &[u8]) -> (r: bool)
    ensures
        r == header_is_text(h@),
{
    let mut i: usize = 0;
    while i < h.len()
        invariant
            i <= h@.len(),
            forall|j: int| 0 <= j < i ==> header_text_byte(#[trigger] h@[j]),
        decreases h@.len() - i,
    {
        let b = h[i];
        if !((32 <= b && b < 127) || b == 9) {
            return false;
        }
        i = i + 1;
    }
    true
}

fn has_bearer_prefix(h: &[u8]) -> (r: bool)
    ensures
        r == (h@.len() >= 7 && h@.take(7) == bearer_prefix()),
{
    if h.len() < 7 {
        return false;
    }
    let r = h[0] == 66 && h[1] == 101 && h[2] == 97 && h[3] == 114 && h[4] == 101 && h[5] == 114
        && h[6] == 32;
    proof {
        if r {
            assert(h@.take(7) =~= bearer_prefix());
        } else {
            if h@.take(7) == bearer_prefix() {
                assert(h@.take(7)[0] == 66u8);
            }
        }
    }
    r
}

/// The bytes of a header value, when the header is present.
pub open spec fn header_bytes(h: Option<&[u8]>) -> Option<Seq<u8>> {
    match h {
        Some(b) => Some(b@),
        None => None,
    }
}

/// The token presented by an `Authorization` header value, if any.
pub fn bearer_token(header: Option<&[u8]>) -> (r: Option<Vec<u8>>)
    ensures
        match r {
            Some(t) => presented_token(header_bytes(header)) == Some(t@),
            None => presented_token(header_bytes(header)) is None,
        },
{
    match header {
        Some(h) => {
            if is_header_text(h) && has_bearer_prefix(h) {
                let rest = &h[7..h.len()];
                assert(rest@ =~= h@.skip(7));
                Some(trim_ascii_bytes(rest))
            } else {
                None
            }
        },
        None => None,
    }
}

/// Decides whether a request may reach an admin route, given the configured
/// admin token and the raw bytes of the request's `Authorization` header.
pub fn admin_allows(admin_token: &Option<String>, authorization: Option<&[u8]>) -> (r: bool)
    ensures
        r == admin_allows_spec(
            match admin_token {
                Some(t) => Some(encode_utf8(t@)),
                None => None,
            },
            header_bytes(authorization),
        ),
{
    match admin_token {
        None => true,
        Some(expected) => match bearer_token(authorization) {
            Some(token) => constant_time_eq(token.as_slice(), expected.as_str().as_bytes()),
            None => false,
        },
    }
}

/// With no admin token configured the admin routes are open to everyone.
pub proof fn lemma_open_without_admin_token(header: Option<Seq<u8>>)
    ensures
        admin_allows_spec(None, header),
{
}

/// With an admin token configured, a request without an `Authorization`
/// header is refused.
pub proof fn lemma_missing_header_refused(expected: Seq<u8>)
    ensures
        !admin_allows_spec(Some(expected), None),
{
}

/// With an admin token configured, a request that presents a token (with no
/// whitespace at its ends) whose digest differs from the configured one's is
/// refused.
pub proof fn lemma_other_token_refused(expected: Seq<u8>, token: Seq<u8>)
    requires
        sha256_digest(token) != sha256_digest(expected),
        token.len() == 0 || (!ascii_space(token[0]) && !ascii_space(token.last())),
    ensures
        !admin_allows_spec(Some(expected), Some(bearer_prefix() + token)),
{
    let h = bearer_prefix() + token;
    if presented_token(Some(h)) is Some {
        assert(h.skip(7) =~= token);
        lemma_trim_ascii_unchanged(token);
    }
}

/// A token with no whitespace at its ends is left as it is by trimming.
pub proof fn lemma_trim_ascii_unchanged(t: Seq<u8>)
    requires
        t.len() == 0 || (!ascii_space(t[0]) && !ascii_space(t.last())),
    ensures
        trim_ascii(t) == t,
{
}

/// `Authorization: Bearer <token>` with the configured token is accepted,
/// whenever that token can be sent as header text at all and has no
/// whitespace at its ends.
pub proof fn lemma_correct_token_accepted(token: Seq<u8>)
    requires
        header_is_text(token),
        token.len() == 0 || (!ascii_space(token[0]) && !ascii_space(token.last())),
    ensures
        admin_allows_spec(Some(token), Some(bearer_prefix() + token)),
{
    let h = bearer_prefix() + token;
    assert(h.take(7) =~= bearer_prefix());
    assert(h.skip(7) =~= token);
    assert forall|i: int| 0 <= i < h.len() implies header_text_byte(#[trigger] h[i]) by {
        if i >= 7 {
            assert(h[i] == token[i - 7]);
        }
    }
    lemma_trim_ascii_unchanged(token);
}

} // verus!
