//! Small operations on text that the rest of the library shares: searching
//! for a fragment, trimming white space, cutting at a separator and writing
//! numbers in decimal.
use vstd::prelude::*;

verus! {

/// `needle` occurs in `hay` starting at position `i`.
pub open spec fn occurs_at(hay: Seq<char>, needle: Seq<char>, i: int) -> bool {
    &&& 0 <= i
    &&& i + needle.len() <= hay.len()
    &&& hay.subrange(i, i + needle.len()) == needle
}

/// `needle` occurs somewhere in `hay`.
pub open spec fn contains_text(hay: Seq<char>, needle: Seq<char>) -> bool {
    exists|i: int| #[trigger] occurs_at(hay, needle, i)
}

/// Whether `needle` occurs in `hay`.
pub fn text_contains(hay: &str, needle: &str) -> (r: bool)
    ensures
        r == contains_text(hay@, needle@),
{
    let n = hay.unicode_len();
    let m = needle.unicode_len();
    if m > n {
        assert forall|i: int| !occurs_at(hay@, needle@, i) by {}
        return false;
    }
    let mut i: usize = 0;
    while i <= n - m
        invariant
            n == hay@.len(),
            m == needle@.len(),
            m <= n,
            i <= n - m + 1,
            forall|j: int| 0 <= j < i ==> !occurs_at(hay@, needle@, j),
        decreases n - m + 1 - i,
    {
        let mut k: usize = 0;
        let mut same = true;
        while k < m
            invariant
                n == hay@.len(),
                m == needle@.len(),
                i + m <= n,
                k <= m,
                same <==> forall|t: int| 0 <= t < k ==> hay@[i + t] == needle@[t],
            decreases m - k,
        {
            if hay.get_char(i + k) != needle.get_char(k) {
                same = false;
            }
            k = k + 1;
        }
        if same {
            assert(hay@.subrange(i as int, i + m) =~= needle@);
            assert(occurs_at(hay@, needle@, i as int));
            return true;
        }
        assert(!occurs_at(hay@, needle@, i as int)) by {
            let t = choose|t: int| 0 <= t < m && hay@[i + t] != needle@[t];
            if occurs_at(hay@, needle@, i as int) {
                assert(hay@.subrange(i as int, i + m)[t] == hay@[i + t]);
            }
        }
        i = i + 1;
    }
    assert forall|j: int| !occurs_at(hay@, needle@, j) by {
        if 0 <= j && j + m <= n {
            assert(j < i);
        }
    }
    false
}

/// The white-space characters of Unicode (the `White_Space` property), the
/// set that `char::is_whitespace` tests for.
pub open spec fn is_white(c: char) -> bool {
    let v = c as u32;
    ||| 0x9 <= v <= 0xd
    ||| v == 0x20
    ||| v == 0x85
    ||| v == 0xa0
    ||| v == 0x1680
    ||| 0x2000 <= v <= 0x200a
    ||| v == 0x2028
    ||| v == 0x2029
    ||| v == 0x202f
    ||| v == 0x205f
    ||| v == 0x3000
}

/// Whether `c` is white space.
pub fn char_is_white(c: char) -> (r: bool)
    ensures
        r == is_white(c),
{
    let v = c as u32;
    (0x9 <= v && v <= 0xd) || v == 0x20 || v == 0x85 || v == 0xa0 || v == 0x1680 || (0x2000 <= v
        && v <= 0x200a) || v == 0x2028 || v == 0x2029 || v == 0x202f || v == 0x205f || v == 0x3000
}

/// The first position at or after `from` that does not hold white space, or
/// the end of `s`.
pub open spec fn skip_white(s: Seq<char>, from: int) -> int
    decreases s.len() - from,
{
    if 0 <= from < s.len() && is_white(s[from]) {
        skip_white(s, from + 1)
    } else {
        from
    }
}

/// Going back from `to` towards `lo`, the first position after which only
/// white space remains.
pub open spec fn back_white(s: Seq<char>, lo: int, to: int) -> int
    decreases to - lo,
{
    if lo < to <= s.len() && is_white(s[to - 1]) {
        back_white(s, lo, to - 1)
    } else {
        to
    }
}

/// `s` without its leading and trailing white space.
pub open spec fn trimmed(s: Seq<char>) -> Seq<char> {
    let a = skip_white(s, 0);
    s.subrange(a, back_white(s, a, s.len() as int))
}

/// `s` without its leading and trailing white space (`str::trim`).
pub fn trim<'a>(s: &'a str) -> (r: &'a str)
    ensures
        r@ == trimmed(s@),
{
    let n = s.unicode_len();
    let mut a: usize = 0;
    while a < n && char_is_white(s.get_char(a))
        invariant
            n == s@.len(),
            a <= n,
            skip_white(s@, 0) == skip_white(s@, a as int),
        decreases n - a,
    {
        a = a + 1;
    }
    let mut b: usize = n;
    while b > a && char_is_white(s.get_char(b - 1))
        invariant
            n == s@.len(),
            a <= b <= n,
            skip_white(s@, 0) == a,
            back_white(s@, a as int, n as int) == back_white(s@, a as int, b as int),
        decreases b,
    {
        b = b - 1;
    }
    s.substring_char(a, b)
}

/// The end of the piece of `s` that starts at `from`: the position of the next
/// `sep`, or the end of `s`.
pub open spec fn piece_end(s: Seq<char>, sep: char, from: int) -> int
    decreases s.len() - from,
{
    if 0 <= from < s.len() && s[from] != sep {
        piece_end(s, sep, from + 1)
    } else {
        from
    }
}

/// The position of the next `sep` in `s` at or after `from`, or the end of `s`.
pub fn find_piece_end(s: &str, sep: char, from: usize) -> (r: usize)
    requires
        from <= s@.len(),
    ensures
        r == piece_end(s@, sep, from as int),
        from <= r <= s@.len(),
{
    let n = s.unicode_len();
    let mut i = from;
    while i < n && s.get_char(i) != sep
        invariant
            n == s@.len(),
            from <= i <= n,
            piece_end(s@, sep, from as int) == piece_end(s@, sep, i as int),
        decreases n - i,
    {
        i = i + 1;
    }
    i
}

/// The decimal digit for `d`, which is below ten.
pub open spec fn digit_char(d: nat) -> char {
    if d == 0 {
        '0'
    } else if d == 1 {
        '1'
    } else if d == 2 {
        '2'
    } else if d == 3 {
        '3'
    } else if d == 4 {
        '4'
    } else if d == 5 {
        '5'
    } else if d == 6 {
        '6'
    } else if d == 7 {
        '7'
    } else if d == 8 {
        '8'
    } else {
        '9'
    }
}

/// `n` in decimal, without leading zeros.
pub open spec fn decimal(n: nat) -> Seq<char>
    decreases n,
{
    if n < 10 {
        seq![digit_char(n)]
    } else {
        decimal(n / 10) + seq![digit_char(n % 10)]
    }
}

fn digit_text(d: u64) -> (r: String)
    requires
        d < 10,
    ensures
        r@ == seq![digit_char(d as nat)],
{
    let lit = if d == 0 {
        proof {
            reveal_strlit("0");
        }
        "0"
    } else if d == 1 {
        proof {
            reveal_strlit("1");
        }
        "1"
    } else if d == 2 {
        proof {
            reveal_strlit("2");
        }
        "2"
    } else if d == 3 {
        proof {
            reveal_strlit("3");
        }
        "3"
    } else if d == 4 {
        proof {
            reveal_strlit("4");
        }
        "4"
    } else if d == 5 {
        proof {
            reveal_strlit("5");
        }
        "5"
    } else if d == 6 {
        proof {
            reveal_strlit("6");
        }
        "6"
    } else if d == 7 {
        proof {
            reveal_strlit("7");
        }
        "7"
    } else if d == 8 {
        proof {
            reveal_strlit("8");
        }
        "8"
    } else {
        proof {
            reveal_strlit("9");
        }
        "9"
    };
    let r = String::from_str(lit);
    assert(r@ =~= seq![digit_char(d as nat)]);
    r
}

/// `n` written in decimal, as `u64`'s `Display` writes it.
pub fn decimal_text(n: u64) -> (r: String)
    ensures
        r@ == decimal(n as nat),
    decreases n,
{
    if n < 10 {
        digit_text(n)
    } else {
        let mut r = decimal_text(n / 10);
        let d = digit_text(n % 10);
        r.append(d.as_str());
        r
    }
}

/// The text of `lit` followed by that of `tail`.
pub fn join(lit: &str, tail: &str) -> (r: String)
    ensures
        r@ == lit@ + tail@,
{
    let mut r = String::from_str(lit);
    r.append(tail);
    r
}

/// Whether `a` and `b` hold the same text.
pub fn same_text(a: &str, b: &str) -> (r: bool)
    ensures
        r == (a@ == b@),
{
    let n = a.unicode_len();
    if n != b.unicode_len() {
        return false;
    }
    let mut i: usize = 0;
    while i < n
        invariant
            n == a@.len(),
            n == b@.len(),
            i <= n,
            forall|j: int| 0 <= j < i ==> a@[j] == b@[j],
        decreases n - i,
    {
        if a.get_char(i) != b.get_char(i) {
            return false;
        }
        i = i + 1;
    }
    assert(a@ =~= b@);
    true
}

/// The size in bytes of the text `s` in UTF-8, as `str::len` gives it.
pub open spec fn utf8_len(s: Seq<char>) -> usize {
    vstd::utf8::encode_utf8(s).len() as usize
}

/// The last character boundary of the UTF-8 text `bytes` at or before
/// position `i`.
pub open spec fn boundary_at_or_before(bytes: Seq<u8>, i: int) -> int
    decreases i,
{
    if i <= 0 {
        0
    } else if vstd::utf8::is_char_boundary(bytes, i) {
        i
    } else {
        boundary_at_or_before(bytes, i - 1)
    }
}

/// `s` cut to at most `n` bytes of UTF-8 on a character boundary: all of it
/// when it fits, else the whole characters that its first `n` bytes hold.
pub open spec fn first_bytes(s: Seq<char>, n: int) -> Seq<char> {
    let bytes = vstd::utf8::encode_utf8(s);
    if bytes.len() <= n {
        s
    } else {
        vstd::utf8::decode_utf8(bytes.subrange(0, boundary_at_or_before(bytes, n)))
    }
}

proof fn lemma_boundary_at_or_before(bytes: Seq<u8>, i: int)
    requires
        vstd::utf8::valid_utf8(bytes),
        i <= bytes.len(),
    ensures
        0 <= boundary_at_or_before(bytes, i),
        boundary_at_or_before(bytes, i) <= i || i < 0,
        vstd::utf8::is_char_boundary(bytes, boundary_at_or_before(bytes, i)),
        forall|j: int|
            boundary_at_or_before(bytes, i) < j <= i ==> !#[trigger] vstd::utf8::is_char_boundary(
                bytes,
                j,
            ),
    decreases i,
{
    vstd::utf8::is_char_boundary_start_end_of_seq(bytes);
    if i > 0 && !vstd::utf8::is_char_boundary(bytes, i) {
        lemma_boundary_at_or_before(bytes, i - 1);
    }
}

/// `s` cut to at most `n` bytes of UTF-8 on a character boundary.
pub fn take_bytes(s: &str, n: usize) -> (r: String)
    ensures
        r@ == first_bytes(s@, n as int),
{
    broadcast use vstd::utf8::encode_utf8_valid_utf8, vstd::utf8::encode_utf8_decode_utf8;

    let len = s.as_bytes().len();
    let ghost bytes = vstd::utf8::encode_utf8(s@);
    if len <= n {
        return String::from_str(s);
    }
    proof {
        vstd::utf8::is_char_boundary_start_end_of_seq(bytes);
    }
    let mut b: usize = n;
    while b > 0 && !s.is_char_boundary(b)
        invariant
            b <= n < len,
            len == bytes.len(),
            bytes == vstd::utf8::encode_utf8(s@),
            vstd::utf8::valid_utf8(bytes),
            boundary_at_or_before(bytes, b as int) == boundary_at_or_before(bytes, n as int),
        decreases b,
    {
        b = b - 1;
    }
    assert(boundary_at_or_before(bytes, b as int) == b);
    let (head, _) = s.split_at(b);
    proof {
        assert(vstd::utf8::encode_utf8(head@) == bytes.subrange(0, b as int));
        assert(vstd::utf8::decode_utf8(vstd::utf8::encode_utf8(head@)) == head@);
    }
    String::from_str(head)
}

/// A cut to `n` bytes is a prefix of the text and holds at most `n` bytes of
/// UTF-8.
pub proof fn lemma_first_bytes(s: Seq<char>, n: int)
    requires
        0 <= n,
    ensures
        first_bytes(s, n).len() <= s.len(),
        first_bytes(s, n) == s.take(first_bytes(s, n).len() as int),
        vstd::utf8::encode_utf8(first_bytes(s, n)).len() <= n || first_bytes(s, n) == s,
        vstd::utf8::encode_utf8(s).len() > n ==> vstd::utf8::encode_utf8(first_bytes(s, n)).len()
            <= n,
{
    broadcast use vstd::utf8::encode_utf8_valid_utf8, vstd::utf8::encode_utf8_decode_utf8;

    let bytes = vstd::utf8::encode_utf8(s);
    if bytes.len() > n {
        lemma_boundary_at_or_before(bytes, n);
        let b = boundary_at_or_before(bytes, n);
        vstd::utf8::valid_utf8_split(bytes, b);
        vstd::utf8::decode_utf8_split(bytes, b);
        let head = bytes.subrange(0, b);
        let tail = bytes.subrange(b, bytes.len() as int);
        vstd::utf8::decode_utf8_encode_utf8(head);
        let cut = vstd::utf8::decode_utf8(head);
        assert(s == cut + vstd::utf8::decode_utf8(tail));
        assert(cut =~= s.take(cut.len() as int));
    } else {
        assert(s =~= s.take(s.len() as int));
    }
}

/// What `skip_white` gives: a position at or after `from` before which only
/// white space was skipped, and which does not hold white space unless it is
/// the end.
pub proof fn lemma_skip_white(s: Seq<char>, from: int)
    requires
        0 <= from <= s.len(),
    ensures
        from <= skip_white(s, from) <= s.len(),
        forall|j: int| from <= j < skip_white(s, from) ==> is_white(#[trigger] s[j]),
        skip_white(s, from) < s.len() ==> !is_white(s[skip_white(s, from)]),
    decreases s.len() - from,
{
    if from < s.len() && is_white(s[from]) {
        lemma_skip_white(s, from + 1);
    }
}

/// What `back_white` gives: a position between `lo` and `to` after which
/// only white space was skipped, and before which the character is not white
/// space unless it is `lo`.
pub proof fn lemma_back_white(s: Seq<char>, lo: int, to: int)
    requires
        0 <= lo <= to <= s.len(),
    ensures
        lo <= back_white(s, lo, to) <= to,
        forall|j: int| back_white(s, lo, to) <= j < to ==> is_white(#[trigger] s[j]),
        back_white(s, lo, to) > lo ==> !is_white(s[back_white(s, lo, to) - 1]),
    decreases to - lo,
{
    if lo < to && is_white(s[to - 1]) {
        lemma_back_white(s, lo, to - 1);
    }
}

/// Trimmed text neither starts nor ends with white space, and is a piece of
/// the text it came from.
pub proof fn lemma_trimmed(s: Seq<char>)
    ensures
        trimmed(s).len() > 0 ==> !is_white(trimmed(s)[0]),
        trimmed(s).len() > 0 ==> !is_white(trimmed(s)[trimmed(s).len() - 1]),
        forall|i: int| 0 <= i < trimmed(s).len() ==> exists|j: int| 0 <= j < s.len() && s[j] == #[trigger] trimmed(s)[i],
{
    lemma_skip_white(s, 0);
    let a = skip_white(s, 0);
    lemma_back_white(s, a, s.len() as int);
    let b = back_white(s, a, s.len() as int);
    assert forall|i: int| 0 <= i < trimmed(s).len() implies exists|j: int| 0 <= j < s.len() && s[j] == #[trigger] trimmed(s)[i] by {
        assert(s[a + i] == trimmed(s)[i]);
    }
}

/// Every character of the piece of `s` from `from` to its end differs from
/// the separator, and the piece ends at a separator or at the end of `s`.
pub proof fn lemma_piece_end(s: Seq<char>, sep: char, from: int)
    requires
        0 <= from <= s.len(),
    ensures
        from <= piece_end(s, sep, from) <= s.len(),
        forall|j: int| from <= j < piece_end(s, sep, from) ==> #[trigger] s[j] != sep,
        piece_end(s, sep, from) < s.len() ==> s[piece_end(s, sep, from)] == sep,
    decreases s.len() - from,
{
    if from < s.len() && s[from] != sep {
        lemma_piece_end(s, sep, from + 1);
    }
}

} // verus!
