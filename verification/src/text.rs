//! Character-level text helpers shared by the editing, parsing and layout code.
//!
//! Strings are modelled by their view, a `Seq<char>`. Byte offsets (as used by
//! Rust's `String` API) are related to character positions through the UTF-8
//! encoding that vstd defines (`encode_utf8`).
use vstd::prelude::*;
use vstd::utf8::*;

verus! {

/// Number of bytes that the UTF-8 encoding of `c` occupies.
pub open spec fn char_width(c: char) -> nat {
    if (c as u32) <= 0x7F {
        1
    } else if (c as u32) <= 0x7FF {
        2
    } else if (c as u32) <= 0xFFFF {
        3
    } else {
        4
    }
}

/// Number of bytes of the UTF-8 encoding of `s` (what `str::len` returns).
pub open spec fn byte_len(s: Seq<char>) -> nat {
    encode_utf8(s).len()
}

/// Byte offset at which the character with index `k` starts.
pub open spec fn byte_offset(s: Seq<char>, k: int) -> nat {
    byte_len(s.take(k))
}

/// `b` is a byte offset that falls on a character boundary of `s`.
pub open spec fn is_boundary(s: Seq<char>, b: int) -> bool {
    exists|k: int| 0 <= k <= s.len() && #[trigger] byte_offset(s, k) == b
}

/// The character index whose start is the byte offset `b` (meaningful when `is_boundary(s, b)`).
pub open spec fn char_index(s: Seq<char>, b: int) -> int {
    choose|k: int| 0 <= k <= s.len() && #[trigger] byte_offset(s, k) == b
}

/// The sequence `s` with `c` inserted at character index `k`.
pub open spec fn insert_at(s: Seq<char>, k: int, c: char) -> Seq<char> {
    s.take(k).push(c) + s.skip(k)
}

/// The sequence `s` without the character at index `k`.
pub open spec fn remove_at(s: Seq<char>, k: int) -> Seq<char> {
    s.take(k) + s.skip(k + 1)
}

/// Every character of `s` is ASCII.
pub open spec fn all_ascii(s: Seq<char>) -> bool {
    forall|i: int| 0 <= i < s.len() ==> (#[trigger] s[i] as u32) <= 0x7F
}

proof fn lemma_scalar_width(c: char)
    ensures
        encode_scalar(c as u32).len() == char_width(c),
{
    broadcast use char_is_scalar;

}

/// The UTF-8 encoding of a concatenation is the concatenation of the encodings.
pub proof fn lemma_encode_concat(a: Seq<char>, b: Seq<char>)
    ensures
        encode_utf8(a + b) == encode_utf8(a) + encode_utf8(b),
    decreases a.len(),
{
    if a.len() == 0 {
        assert(a + b =~= b);
        assert(encode_utf8(a) =~= Seq::<u8>::empty());
        assert(encode_utf8(a) + encode_utf8(b) =~= encode_utf8(b));
    } else {
        assert((a + b).drop_first() =~= a.drop_first() + b);
        lemma_encode_concat(a.drop_first(), b);
        assert(encode_utf8(a + b) =~= encode_scalar(a[0] as u32) + encode_utf8(a.drop_first() + b));
        assert(encode_utf8(a + b) =~= encode_utf8(a) + encode_utf8(b));
    }
}

/// Byte length is additive over concatenation.
pub proof fn lemma_byte_len_concat(a: Seq<char>, b: Seq<char>)
    ensures
        byte_len(a + b) == byte_len(a) + byte_len(b),
{
    lemma_encode_concat(a, b);
}

/// Byte length of a single character.
pub proof fn lemma_byte_len_single(c: char)
    ensures
        byte_len(seq![c]) == char_width(c),
{
    lemma_scalar_width(c);
    assert(seq![c].drop_first() =~= Seq::<char>::empty());
    assert(encode_utf8(seq![c]) =~= encode_scalar(c as u32) + encode_utf8(Seq::<char>::empty()));
}

pub proof fn lemma_byte_len_empty()
    ensures
        byte_len(Seq::<char>::empty()) == 0,
{
}

/// Appending a character adds its width.
pub proof fn lemma_byte_len_push(s: Seq<char>, c: char)
    ensures
        byte_len(s.push(c)) == byte_len(s) + char_width(c),
{
    assert(s.push(c) =~= s + seq![c]);
    lemma_byte_len_concat(s, seq![c]);
    lemma_byte_len_single(c);
}

/// The byte offset of index `k + 1` is that of `k` plus the width of character `k`.
pub proof fn lemma_byte_offset_step(s: Seq<char>, k: int)
    requires
        0 <= k < s.len(),
    ensures
        byte_offset(s, k + 1) == byte_offset(s, k) + char_width(s[k]),
{
    assert(s.take(k + 1) =~= s.take(k).push(s[k]));
    lemma_byte_len_push(s.take(k), s[k]);
}

/// Byte offsets grow strictly with the character index.
pub proof fn lemma_byte_offset_strict(s: Seq<char>, j: int, k: int)
    requires
        0 <= j < k <= s.len(),
    ensures
        byte_offset(s, j) < byte_offset(s, k),
    decreases k - j,
{
    lemma_byte_offset_step(s, k - 1);
    if j < k - 1 {
        lemma_byte_offset_strict(s, j, k - 1);
    }
}

/// Byte offsets are at least the character index.
pub proof fn lemma_byte_offset_ge_index(s: Seq<char>, k: int)
    requires
        0 <= k <= s.len(),
    ensures
        byte_offset(s, k) >= k,
    decreases k,
{
    if k > 0 {
        lemma_byte_offset_step(s, k - 1);
        lemma_byte_offset_ge_index(s, k - 1);
    } else {
        assert(s.take(0) =~= Seq::<char>::empty());
    }
}

/// The byte offset of the whole sequence is its byte length.
pub proof fn lemma_byte_offset_full(s: Seq<char>)
    ensures
        byte_offset(s, s.len() as int) == byte_len(s),
{
    assert(s.take(s.len() as int) =~= s);
}

/// On a boundary, `char_index` names the unique index with that offset.
pub proof fn lemma_char_index(s: Seq<char>, k: int)
    requires
        0 <= k <= s.len(),
    ensures
        is_boundary(s, byte_offset(s, k) as int),
        char_index(s, byte_offset(s, k) as int) == k,
{
    let b = byte_offset(s, k) as int;
    assert(is_boundary(s, b));
    let j = char_index(s, b);
    if j < k {
        lemma_byte_offset_strict(s, j, k);
    } else if k < j {
        lemma_byte_offset_strict(s, k, j);
    }
}

/// On an ASCII sequence, byte offsets equal character indices.
pub proof fn lemma_ascii_offsets(s: Seq<char>, k: int)
    requires
        all_ascii(s),
        0 <= k <= s.len(),
    ensures
        byte_offset(s, k) == k,
    decreases k,
{
    if k == 0 {
        assert(s.take(0) =~= Seq::<char>::empty());
    } else {
        lemma_byte_offset_step(s, k - 1);
        lemma_ascii_offsets(s, k - 1);
    }
}

/// Byte length of an ASCII sequence is its character count.
pub proof fn lemma_ascii_byte_len(s: Seq<char>)
    requires
        all_ascii(s),
    ensures
        byte_len(s) == s.len(),
{
    lemma_ascii_offsets(s, s.len() as int);
    lemma_byte_offset_full(s);
}

/// Wrapper around `String::push`: appends one character.
#[verifier::external_body]
pub(crate) fn push_char(s: &mut String, c: char)
    ensures
        final(s)@ == old(s)@.push(c),
{
    s.push(c);
}

/// Number of UTF-8 bytes of `c` (`char::len_utf8`).
pub fn char_width_of(c: char) -> (w: usize)
    ensures
        w == char_width(c),
        1 <= w <= 4,
{
    let u = c as u32;
    if u <= 0x7F {
        1
    } else if u <= 0x7FF {
        2
    } else if u <= 0xFFFF {
        3
    } else {
        4
    }
}

/// The characters of `s`, in order.
pub fn to_chars(s: &str) -> (v: Vec<char>)
    ensures
        v@ == s@,
{
    let n = s.unicode_len();
    let mut v: Vec<char> = Vec::new();
    let mut i: usize = 0;
    while i < n
        invariant
            n == s@.len(),
            i <= n,
            v@ == s@.take(i as int),
        decreases n - i,
    {
        let c = s.get_char(i);
        v.push(c);
        i = i + 1;
        assert(v@ =~= s@.take(i as int));
    }
    assert(s@.take(n as int) =~= s@);
    v
}

/// A `String` holding the characters `v[from..to]`.
pub fn string_from_range(v: &Vec<char>, from: usize, to: usize) -> (s: String)
    requires
        from <= to <= v.len(),
    ensures
        s@ == v@.subrange(from as int, to as int),
{
    let mut s = String::new();
    let mut i = from;
    while i < to
        invariant
            from <= i <= to <= v.len(),
            s@ == v@.subrange(from as int, i as int),
        decreases to - i,
    {
        push_char(&mut s, v[i]);
        i = i + 1;
        assert(s@ =~= v@.subrange(from as int, i as int));
    }
    s
}

/// A `String` holding exactly the characters of `v`.
pub fn string_from_chars(v: &Vec<char>) -> (s: String)
    ensures
        s@ == v@,
{
    let s = string_from_range(v, 0, v.len());
    assert(v@.subrange(0, v@.len() as int) =~= v@);
    s
}

/// The character index that starts at byte offset `b`, if `b` is a boundary.
pub fn char_index_of_byte(v: &Vec<char>, b: usize) -> (r: Option<usize>)
    ensures
        r matches Some(k) ==> k <= v.len() && byte_offset(v@, k as int) == b && char_index(
            v@,
            b as int,
        ) == k,
        r is None <==> !is_boundary(v@, b as int),
{
    let mut k: usize = 0;
    let mut acc: usize = 0;
    proof {
        assert(v@.take(0) =~= Seq::<char>::empty());
    }
    while k < v.len() && acc < b
        invariant
            k <= v.len(),
            acc == byte_offset(v@, k as int),
            acc <= b,
        decreases v.len() - k,
    {
        let w = char_width_of(v[k]);
        proof {
            lemma_byte_offset_step(v@, k as int);
        }
        if w > b - acc {
            // The next boundary lies beyond `b`: `b` falls inside character `k`.
            proof {
                assert forall|j: int| 0 <= j <= v@.len() implies #[trigger] byte_offset(v@, j) != b by {
                    if j <= k {
                        if j < k {
                            lemma_byte_offset_strict(v@, j, k as int);
                        }
                    } else {
                        if j > k + 1 {
                            lemma_byte_offset_strict(v@, k + 1, j);
                        }
                    }
                }
            }
            return None;
        }
        acc = acc + w;
        k = k + 1;
    }
    if acc == b {
        proof {
            lemma_char_index(v@, k as int);
        }
        Some(k)
    } else {
        // All characters consumed and the total is still short of `b`.
        proof {
            assert(k == v.len());
            assert forall|j: int| 0 <= j <= v@.len() implies #[trigger] byte_offset(v@, j) != b by {
                if j < k {
                    lemma_byte_offset_strict(v@, j, k as int);
                }
            }
        }
        None
    }
}

/// Byte length of a string (`str::len`), given that it fits in `usize`.
pub fn str_byte_len(s: &str) -> (n: usize)
    requires
        byte_len(s@) <= usize::MAX,
    ensures
        n == byte_len(s@),
{
    s.len()
}

/// Two strings hold the same characters.
pub fn str_eq(a: &str, b: &str) -> (r: bool)
    ensures
        r == (a@ == b@),
{
    let va = to_chars(a);
    let vb = to_chars(b);
    if va.len() != vb.len() {
        return false;
    }
    let mut i: usize = 0;
    while i < va.len()
        invariant
            va@ == a@,
            vb@ == b@,
            va.len() == vb.len(),
            i <= va.len(),
            forall|j: int| 0 <= j < i ==> va@[j] == vb@[j],
        decreases va.len() - i,
    {
        if va[i] != vb[i] {
            return false;
        }
        i = i + 1;
    }
    assert(a@ =~= b@);
    true
}

/// Byte length of `v`, provided it fits in `usize`.
pub fn byte_length(v: &Vec<char>) -> (n: usize)
    requires
        byte_len(v@) <= usize::MAX,
    ensures
        n == byte_len(v@),
{
    let mut k: usize = 0;
    let mut acc: usize = 0;
    proof {
        assert(v@.take(0) =~= Seq::<char>::empty());
    }
    while k < v.len()
        invariant
            k <= v.len(),
            acc == byte_offset(v@, k as int),
            byte_len(v@) <= usize::MAX,
        decreases v.len() - k,
    {
        proof {
            lemma_byte_offset_step(v@, k as int);
            if k + 1 < v.len() {
                lemma_byte_offset_strict(v@, k + 1, v@.len() as int);
            }
            lemma_byte_offset_full(v@);
        }
        acc = acc + char_width_of(v[k]);
        k = k + 1;
    }
    proof {
        lemma_byte_offset_full(v@);
    }
    acc
}

/// `c` has the Unicode `White_Space` property (what `char::is_whitespace` tests).
pub open spec fn is_whitespace(c: char) -> bool {
    let u = c as u32;
    ||| 0x09 <= u <= 0x0D
    ||| u == 0x20
    ||| u == 0x85
    ||| u == 0xA0
    ||| u == 0x1680
    ||| 0x2000 <= u <= 0x200A
    ||| u == 0x2028
    ||| u == 0x2029
    ||| u == 0x202F
    ||| u == 0x205F
    ||| u == 0x3000
}

/// `char::is_whitespace`.
pub fn is_whitespace_char(c: char) -> (r: bool)
    ensures
        r == is_whitespace(c),
{
    let u = c as u32;
    (0x09 <= u && u <= 0x0D) || u == 0x20 || u == 0x85 || u == 0xA0 || u == 0x1680 || (0x2000
        <= u && u <= 0x200A) || u == 0x2028 || u == 0x2029 || u == 0x202F || u == 0x205F || u
        == 0x3000
}

/// Every character of `s` is whitespace (so `s.trim()` is empty).
pub open spec fn all_whitespace(s: Seq<char>) -> bool {
    forall|i: int| 0 <= i < s.len() ==> is_whitespace(#[trigger] s[i])
}

/// `s.trim().is_empty()`.
pub fn trim_is_empty(s: &str) -> (r: bool)
    ensures
        r == all_whitespace(s@),
{
    let v = to_chars(s);
    let mut i: usize = 0;
    while i < v.len()
        invariant
            v@ == s@,
            i <= v.len(),
            forall|j: int| 0 <= j < i ==> is_whitespace(#[trigger] v@[j]),
        decreases v.len() - i,
    {
        if !is_whitespace_char(v[i]) {
            return false;
        }
        i = i + 1;
    }
    true
}

/// `l` without one trailing carriage return.
pub open spec fn strip_cr(l: Seq<char>) -> Seq<char> {
    if l.len() > 0 && l.last() == '\r' {
        l.drop_last()
    } else {
        l
    }
}

/// The lines of `rest` when the current line already holds `pending`: a line
/// ends at each `\n` (and then loses one trailing `\r`), and a final line
/// without `\n` is kept as it is unless it is empty.
pub open spec fn lines_from(pending: Seq<char>, rest: Seq<char>) -> Seq<Seq<char>>
    decreases rest.len(),
{
    if rest.len() == 0 {
        if pending.len() == 0 {
            Seq::empty()
        } else {
            seq![pending]
        }
    } else if rest[0] == '\n' {
        seq![strip_cr(pending)] + lines_from(Seq::empty(), rest.drop_first())
    } else {
        lines_from(pending.push(rest[0]), rest.drop_first())
    }
}

/// The lines of `s`, as `str::lines` yields them.
pub open spec fn lines_of(s: Seq<char>) -> Seq<Seq<char>> {
    lines_from(Seq::empty(), s)
}

/// No element of `ls` contains a newline.
pub open spec fn no_newlines(ls: Seq<Seq<char>>) -> bool {
    forall|i: int, j: int| 0 <= i < ls.len() && 0 <= j < ls[i].len() ==> #[trigger] ls[i][j] != '\n'
}

pub open spec fn views(v: Seq<String>) -> Seq<Seq<char>> {
    v.map_values(|s: String| s@)
}

proof fn lemma_lines_from_no_newlines(pending: Seq<char>, rest: Seq<char>)
    requires
        forall|j: int| 0 <= j < pending.len() ==> pending[j] != '\n',
    ensures
        no_newlines(lines_from(pending, rest)),
    decreases rest.len(),
{
    if rest.len() == 0 {
    } else if rest[0] == '\n' {
        lemma_lines_from_no_newlines(Seq::empty(), rest.drop_first());
        let tail = lines_from(Seq::<char>::empty(), rest.drop_first());
        let all = seq![strip_cr(pending)] + tail;
        assert forall|i: int, j: int| 0 <= i < all.len() && 0 <= j < all[i].len() implies #[trigger] all[i][j] != '\n' by {
            if i > 0 {
                assert(all[i] == tail[i - 1]);
            }
        }
    } else {
        lemma_lines_from_no_newlines(pending.push(rest[0]), rest.drop_first());
    }
}

/// Lines never contain a newline.
pub proof fn lemma_lines_no_newlines(s: Seq<char>)
    ensures
        no_newlines(lines_of(s)),
{
    lemma_lines_from_no_newlines(Seq::empty(), s);
}

/// `s.lines()`, collected.
pub fn split_lines(s: &str) -> (r: Vec<String>)
    ensures
        views(r@) == lines_of(s@),
{
    let v = to_chars(s);
    let mut out: Vec<String> = Vec::new();
    let mut cur: Vec<char> = Vec::new();
    let mut i: usize = 0;
    proof {
        assert(v@.skip(0) =~= v@);
        assert(views(out@) + lines_from(cur@, v@.skip(0)) =~= lines_of(s@));
    }
    while i < v.len()
        invariant
            v@ == s@,
            i <= v.len(),
            views(out@) + lines_from(cur@, v@.skip(i as int)) == lines_of(s@),
        decreases v.len() - i,
    {
        let c = v[i];
        let ghost rest = v@.skip(i as int);
        proof {
            assert(rest[0] == c);
            assert(rest.drop_first() =~= v@.skip(i + 1));
        }
        if c == '\n' {
            let mut n = cur.len();
            if n > 0 && cur[n - 1] == '\r' {
                n = n - 1;
            }
            let line = string_from_range(&cur, 0, n);
            proof {
                assert(line@ =~= strip_cr(cur@));
            }
            let ghost before = out@;
            out.push(line);
            proof {
                assert(views(out@) =~= views(before).push(line@));
                assert(views(out@) + lines_from(Seq::empty(), rest.drop_first()) =~= views(before)
                    + (seq![strip_cr(cur@)] + lines_from(Seq::empty(), rest.drop_first())));
            }
            cur = Vec::new();
        } else {
            cur.push(c);
        }
        i = i + 1;
    }
    proof {
        assert(v@.skip(i as int) =~= Seq::<char>::empty());
    }
    if cur.len() > 0 {
        let line = string_from_chars(&cur);
        let ghost before = out@;
        out.push(line);
        proof {
            assert(views(out@) =~= views(before).push(line@));
            assert(views(out@) =~= views(before) + seq![cur@]);
        }
    } else {
        proof {
            assert(views(out@) =~= views(out@) + Seq::<Seq<char>>::empty());
        }
    }
    out
}

/// The whitespace-separated words of `rest` when the current word already holds `pending`.
pub open spec fn words_from(pending: Seq<char>, rest: Seq<char>) -> Seq<Seq<char>>
    decreases rest.len(),
{
    if rest.len() == 0 {
        if pending.len() == 0 {
            Seq::empty()
        } else {
            seq![pending]
        }
    } else if is_whitespace(rest[0]) {
        if pending.len() == 0 {
            words_from(Seq::empty(), rest.drop_first())
        } else {
            seq![pending] + words_from(Seq::empty(), rest.drop_first())
        }
    } else {
        words_from(pending.push(rest[0]), rest.drop_first())
    }
}

/// The maximal runs of non-whitespace characters of `s`, in order (`str::split_whitespace`).
pub open spec fn words_of(s: Seq<char>) -> Seq<Seq<char>> {
    words_from(Seq::empty(), s)
}

/// `s.split_whitespace()`, collected.
pub fn split_whitespace(s: &str) -> (r: Vec<String>)
    ensures
        views(r@) == words_of(s@),
{
    let v = to_chars(s);
    let mut out: Vec<String> = Vec::new();
    let mut cur: Vec<char> = Vec::new();
    let mut i: usize = 0;
    proof {
        assert(v@.skip(0) =~= v@);
        assert(views(out@) + words_from(cur@, v@.skip(0)) =~= words_of(s@));
    }
    while i < v.len()
        invariant
            v@ == s@,
            i <= v.len(),
            views(out@) + words_from(cur@, v@.skip(i as int)) == words_of(s@),
        decreases v.len() - i,
    {
        let c = v[i];
        let ghost rest = v@.skip(i as int);
        proof {
            assert(rest[0] == c);
            assert(rest.drop_first() =~= v@.skip(i + 1));
        }
        if is_whitespace_char(c) {
            if cur.len() > 0 {
                let word = string_from_chars(&cur);
                let ghost before = out@;
                out.push(word);
                proof {
                    assert(views(out@) =~= views(before).push(word@));
                    assert(views(out@) + words_from(Seq::empty(), rest.drop_first()) =~= views(
                        before,
                    ) + (seq![cur@] + words_from(Seq::empty(), rest.drop_first())));
                }
                cur = Vec::new();
            } else {
                proof {
                    assert(cur@ =~= Seq::<char>::empty());
                }
            }
        } else {
            cur.push(c);
        }
        i = i + 1;
    }
    proof {
        assert(v@.skip(i as int) =~= Seq::<char>::empty());
    }
    if cur.len() > 0 {
        let word = string_from_chars(&cur);
        let ghost before = out@;
        out.push(word);
        proof {
            assert(views(out@) =~= views(before).push(word@));
            assert(views(out@) =~= views(before) + seq![cur@]);
        }
    } else {
        proof {
            assert(views(out@) =~= views(out@) + Seq::<Seq<char>>::empty());
        }
    }
    out
}

/// A `String` with the characters of `a` followed by those of `b`.
pub fn concat(a: &str, b: &str) -> (r: String)
    ensures
        r@ == a@ + b@,
{
    let mut r = String::from_str(a);
    r.append(b);
    r
}

} // verus!
