//! Byte and character helpers over vstd's model of `str`: a string's view is
//! its sequence of chars and `len()` counts the bytes of its UTF-8 encoding.
use vstd::prelude::*;
use vstd::utf8::*;
use vstd::string::StrSliceExecFns;

verus! {

/// Length in bytes of the UTF-8 encoding of `s`, as `str::len` returns it.
pub open spec fn byte_len(s: Seq<char>) -> usize {
    encode_utf8(s).len() as usize
}

/// Two byte slices hold the same bytes.
pub fn bytes_eq(a: &[u8], b: &[u8]) -> (r: bool)
    ensures
        r == (a@ == b@),
{
    if a.len() != b.len() {
        return false;
    }
    let n = a.len();
    let mut i: usize = 0;
    while i < n
        invariant
            n == a@.len(),
            n == b@.len(),
            i <= n,
            forall|j: int| 0 <= j < i ==> a@[j] == b@[j],
        decreases n - i,
    {
        if a[i] != b[i] {
            return false;
        }
        i = i + 1;
    }
    assert(a@ =~= b@);
    true
}

/// Two strings hold the same characters.
pub fn str_eq(a: &str, b: &str) -> (r: bool)
    ensures
        r == (a@ == b@),
{
    let r = bytes_eq(a.as_bytes(), b.as_bytes());
    proof {
        decode_utf8_encode_utf8_view(a@);
        decode_utf8_encode_utf8_view(b@);
    }
    r
}

/// Encoding to UTF-8 loses nothing: decoding gives the chars back.
pub proof fn decode_utf8_encode_utf8_view(s: Seq<char>)
    ensures
        decode_utf8(encode_utf8(s)) == s,
{
    encode_utf8_decode_utf8(s);
}

/// A char with the Unicode `White_Space` property, which `char::is_whitespace`
/// tests and `str::trim` removes.
pub open spec fn unicode_space(c: char) -> bool {
    let u = c as u32;
    ||| 9 <= u <= 13
    ||| u == 32
    ||| u == 0x85
    ||| u == 0xA0
    ||| u == 0x1680
    ||| 0x2000 <= u <= 0x200A
    ||| u == 0x2028
    ||| u == 0x2029
    ||| u == 0x202F
    ||| u == 0x205F
    ||| u == 0x3000
}

/// `s` without its leading and trailing whitespace, as `str::trim` gives it.
pub open spec fn trim_chars(s: Seq<char>) -> Seq<char>
    decreases s.len(),
{
    if s.len() == 0 {
        s
    } else if unicode_space(s[0]) {
        trim_chars(s.drop_first())
    } else if unicode_space(s.last()) {
        trim_chars(s.drop_last())
    } else {
        s
    }
}

/// Index of the first `','` in `s`, or `s.len()` when there is none.
pub open spec fn comma_at(s: Seq<char>) -> nat
    decreases s.len(),
{
    if s.len() == 0 {
        0
    } else if s[0] == ',' {
        0
    } else {
        1 + comma_at(s.drop_first())
    }
}

/// A list entry is kept only when it is not empty.
pub open spec fn kept_entry(e: Seq<char>) -> Seq<Seq<char>> {
    if e.len() == 0 {
        Seq::<Seq<char>>::empty()
    } else {
        seq![e]
    }
}

/// The comma-separated entries of `s`, each trimmed, with empty ones dropped:
/// what `s.split(',').map(str::trim).filter(|x| !x.is_empty())` yields.
pub open spec fn list_entries(s: Seq<char>) -> Seq<Seq<char>>
    decreases s.len(),
{
    let i = comma_at(s);
    let kept = kept_entry(trim_chars(s.take(i as int)));
    if i >= s.len() {
        kept
    } else {
        kept + list_entries(s.skip(i + 1int))
    }
}

/// `comma_at` finds the first comma: the one at `k` when none comes before it.
pub proof fn lemma_comma_at(s: Seq<char>, k: int)
    requires
        0 <= k <= s.len(),
        forall|j: int| 0 <= j < k ==> s[j] != ',',
        k == s.len() || s[k] == ',',
    ensures
        comma_at(s) == k,
    decreases k,
{
    if k > 0 {
        lemma_comma_at(s.drop_first(), k - 1);
    }
}

/// Whether `c` is whitespace in the sense of `char::is_whitespace`.
pub fn is_unicode_space(c: char) -> (r: bool)
    ensures
        r == unicode_space(c),
{
    let u = c as u32;
    (9 <= u && u <= 13) || u == 32 || u == 0x85 || u == 0xA0 || u == 0x1680 || (0x2000 <= u && u
        <= 0x200A) || u == 0x2028 || u == 0x2029 || u == 0x202F || u == 0x205F || u == 0x3000
}

/// The chars of `s`, in order.
pub fn chars_of(s: &str) -> (r: Vec<char>)
    ensures
        r@ == s@,
{
    let n = s.unicode_len();
    let mut out: Vec<char> = Vec::new();
    let mut i: usize = 0;
    while i < n
        invariant
            n == s@.len(),
            i <= n,
            out@ == s@.take(i as int),
        decreases n - i,
    {
        out.push(s.get_char(i));
        assert(out@ =~= s@.take(i + 1));
        i = i + 1;
    }
    assert(out@ =~= s@);
    out
}

/// Bounds `[lo, hi)` of `cs[from..to]` with whitespace trimmed off both ends.
pub fn trim_bounds(cs: &Vec<char>, from: usize, to: usize) -> (r: (usize, usize))
    requires
        from <= to <= cs@.len(),
    ensures
        from <= r.0 <= r.1 <= to,
        cs@.subrange(r.0 as int, r.1 as int) == trim_chars(cs@.subrange(from as int, to as int)),
{
    let mut lo = from;
    let mut hi = to;
    loop
        invariant
            from <= lo <= hi <= to <= cs@.len(),
            trim_chars(cs@.subrange(lo as int, hi as int)) == trim_chars(
                cs@.subrange(from as int, to as int),
            ),
        ensures
            from <= lo <= hi <= to,
            cs@.subrange(lo as int, hi as int) == trim_chars(cs@.subrange(from as int, to as int)),
        decreases hi - lo,
    {
        let ghost t = cs@.subrange(lo as int, hi as int);
        if lo < hi && is_unicode_space(cs[lo]) {
            assert(t.drop_first() =~= cs@.subrange(lo + 1, hi as int));
            lo = lo + 1;
        } else if lo < hi && is_unicode_space(cs[hi - 1]) {
            assert(t.drop_last() =~= cs@.subrange(lo as int, hi - 1));
            hi = hi - 1;
        } else {
            assert(trim_chars(t) == t);
            break;
        }
    }
    (lo, hi)
}

/// `s` with leading and trailing whitespace removed, like `str::trim`.
pub fn trimmed(s: &str) -> (r: String)
    ensures
        r@ == trim_chars(s@),
{
    let cs = chars_of(s);
    let (lo, hi) = trim_bounds(&cs, 0, cs.len());
    assert(cs@.subrange(0, cs@.len() as int) =~= cs@);
    s.substring_char(lo, hi).to_owned()
}

/// Appends `trim(s[from..to])` to `out` unless it is empty.
fn push_entry(s: &str, cs: &Vec<char>, from: usize, to: usize, out: &mut Vec<String>)
    requires
        cs@ == s@,
        from <= to <= s@.len(),
    ensures
        final(out).deep_view() == old(out).deep_view() + kept_entry(
            trim_chars(s@.subrange(from as int, to as int)),
        ),
{
    let (lo, hi) = trim_bounds(cs, from, to);
    if lo < hi {
        out.push(s.substring_char(lo, hi).to_owned());
    }
    assert(final(out).deep_view() =~= old(out).deep_view() + kept_entry(
        trim_chars(s@.subrange(from as int, to as int)),
    ));
}

/// Splits `s` at commas, trims each entry and drops the empty ones.
pub fn split_list(s: &str) -> (r: Vec<String>)
    ensures
        r.deep_view() == list_entries(s@),
{
    let cs = chars_of(s);
    let n = cs.len();
    let mut out: Vec<String> = Vec::new();
    let mut start: usize = 0;
    let mut i: usize = 0;
    assert(s@.skip(0) =~= s@);
    assert(out.deep_view() + list_entries(s@) =~= list_entries(s@));
    while i < n
        invariant
            cs@ == s@,
            n == s@.len(),
            start <= i <= n,
            forall|j: int| start <= j < i ==> cs@[j] != ',',
            out.deep_view() + list_entries(s@.skip(start as int)) == list_entries(s@),
        decreases n - i,
    {
        if cs[i] == ',' {
            let ghost t = s@.skip(start as int);
            let ghost prev = out.deep_view();
            proof {
                lemma_comma_at(t, i - start);
                assert(t.take(i - start) =~= s@.subrange(start as int, i as int));
                assert(t.skip(i - start + 1) =~= s@.skip(i + 1));
            }
            push_entry(s, &cs, start, i, &mut out);
            proof {
                assert(out.deep_view() + list_entries(s@.skip(i + 1)) =~= prev + list_entries(t));
            }
            start = i + 1;
        }
        i = i + 1;
    }
    let ghost t = s@.skip(start as int);
    let ghost prev = out.deep_view();
    proof {
        lemma_comma_at(t, n - start);
        assert(t.take(n - start) =~= s@.subrange(start as int, n as int));
    }
    push_entry(s, &cs, start, n, &mut out);
    proof {
        assert(out.deep_view() =~= prev + list_entries(t));
    }
    out
}

/// Trimming keeps a contiguous part of the input and leaves no whitespace at
/// either end of what it keeps.
pub proof fn lemma_trim_chars_shape(s: Seq<char>)
    ensures
        forall|j: int| 0 <= j < trim_chars(s).len() ==> s.contains(#[trigger] trim_chars(s)[j]),
        trim_chars(s).len() > 0 ==> !unicode_space(trim_chars(s)[0]) && !unicode_space(
            trim_chars(s).last(),
        ),
    decreases s.len(),
{
    if s.len() == 0 {
    } else if unicode_space(s[0]) {
        let t = s.drop_first();
        lemma_trim_chars_shape(t);
        assert forall|j: int| 0 <= j < trim_chars(s).len() implies s.contains(
            #[trigger] trim_chars(s)[j],
        ) by {
            let k = choose|k: int| 0 <= k < t.len() && t[k] == trim_chars(t)[j];
            assert(s[k + 1] == t[k]);
        }
    } else if unicode_space(s.last()) {
        let t = s.drop_last();
        lemma_trim_chars_shape(t);
        assert forall|j: int| 0 <= j < trim_chars(s).len() implies s.contains(
            #[trigger] trim_chars(s)[j],
        ) by {
            let k = choose|k: int| 0 <= k < t.len() && t[k] == trim_chars(t)[j];
            assert(s[k] == t[k]);
        }
    } else {
        assert forall|j: int| 0 <= j < trim_chars(s).len() implies s.contains(
            #[trigger] trim_chars(s)[j],
        ) by {
            assert(s[j] == trim_chars(s)[j]);
        }
    }
}

/// Trimming twice is trimming once.
pub proof fn lemma_trim_chars_idempotent(s: Seq<char>)
    ensures
        trim_chars(trim_chars(s)) == trim_chars(s),
{
    lemma_trim_chars_shape(s);
}

/// Every entry of a parsed list is non-empty, already trimmed, and free of
/// commas.
pub proof fn lemma_list_entries_clean(s: Seq<char>)
    ensures
        forall|k: int| 0 <= k < list_entries(s).len() ==> {
            let e = #[trigger] list_entries(s)[k];
            &&& e.len() > 0
            &&& trim_chars(e) == e
            &&& !e.contains(',')
        },
    decreases s.len(),
{
    let i = comma_at(s);
    lemma_comma_at_bounds(s);
    let piece = s.take(i as int);
    let head = trim_chars(piece);
    lemma_trim_chars_idempotent(piece);
    lemma_trim_chars_shape(piece);
    if head.contains(',') {
        let j = choose|j: int| 0 <= j < head.len() && head[j] == ',';
        assert(piece.contains(head[j]));
    }
    let kept = kept_entry(head);
    if i < s.len() {
        let rest = s.skip(i + 1int);
        lemma_list_entries_clean(rest);
        assert(list_entries(s) == kept + list_entries(rest));
        assert forall|k: int| 0 <= k < list_entries(s).len() implies {
            let e = #[trigger] list_entries(s)[k];
            &&& e.len() > 0
            &&& trim_chars(e) == e
            &&& !e.contains(',')
        } by {
            if k >= kept.len() {
                assert(list_entries(s)[k] == list_entries(rest)[k - kept.len()]);
            }
        }
    } else {
        assert(list_entries(s) == kept);
    }
}

/// `comma_at` stays within the string, and nothing before it is a comma.
pub proof fn lemma_comma_at_bounds(s: Seq<char>)
    ensures
        comma_at(s) <= s.len(),
        forall|j: int| 0 <= j < comma_at(s) ==> s[j] != ',',
        comma_at(s) < s.len() ==> s[comma_at(s) as int] == ',',
    decreases s.len(),
{
    if s.len() > 0 && s[0] != ',' {
        lemma_comma_at_bounds(s.drop_first());
        assert forall|j: int| 0 <= j < comma_at(s) implies s[j] != ',' by {
            if j > 0 {
                assert(s[j] == s.drop_first()[j - 1]);
            }
        }
    }
}

} // verus!
