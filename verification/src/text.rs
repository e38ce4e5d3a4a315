//! Character-level text helpers shared by the rest of the library.

use vstd::prelude::*;

verus! {

/// Appends one character to a `String` (`String::push`).
#[verifier::external_body]
pub(crate) fn push_char(s: &mut String, c: char)
    ensures
        final(s)@ == old(s)@.push(c),
{
    s.push(c);
}

/// Whether two string slices hold the same characters.
pub(crate) fn str_equal(a: &str, b: &str) -> (r: bool)
    ensures
        r == (a@ == b@),
{
    let x = to_chars(a);
    let y = to_chars(b);
    if x.len() != y.len() {
        return false;
    }
    let mut i: usize = 0;
    while i < x.len()
        invariant
            x@ == a@,
            y@ == b@,
            x@.len() == y@.len(),
            i <= x@.len(),
            forall|j: int| 0 <= j < i ==> x@[j] == y@[j],
        decreases x@.len() - i,
    {
        if x[i] != y[i] {
            return false;
        }
        i = i + 1;
    }
    assert(a@ =~= b@);
    true
}

/// The characters of `s`, in order.
pub fn to_chars(s: &str) -> (v: Vec<char>)
    ensures
        v@ == s@,
{
    let mut v: Vec<char> = Vec::new();
    for c in it: s.chars()
        invariant
            v@ == it.seq().take(it.index() as int),
            it.seq() == s@,
    {
        v.push(c);
    }
    v
}

} // verus!

verus! {

/// A `String` holding exactly the given characters.
pub fn from_chars(v: &[char]) -> (s: String)
    ensures
        s@ == v@,
{
    let mut s = String::new();
    let mut i: usize = 0;
    while i < v.len()
        invariant
            i <= v@.len(),
            s@ == v@.take(i as int),
        decreases v@.len() - i,
    {
        push_char(&mut s, v[i]);
        assert(v@.take(i + 1) == v@.take(i as int).push(v@[i as int]));
        i = i + 1;
    }
    assert(v@.take(v@.len() as int) == v@);
    s
}

/// Appends the characters of `t` to `s`.
pub fn push_str(s: &mut String, t: &str)
    ensures
        final(s)@ == old(s)@ + t@,
{
    let v = to_chars(t);
    let mut i: usize = 0;
    while i < v.len()
        invariant
            i <= v@.len(),
            v@ == t@,
            s@ == old(s)@ + v@.take(i as int),
        decreases v@.len() - i,
    {
        push_char(s, v[i]);
        assert(v@.take(i + 1) == v@.take(i as int).push(v@[i as int]));
        i = i + 1;
    }
    assert(v@.take(v@.len() as int) == v@);
}

/// An owned copy of a string slice.
pub fn owned(t: &str) -> (s: String)
    ensures
        s@ == t@,
{
    t.to_owned()
}

/// The concatenation of two strings.
pub fn concat(a: &str, b: &str) -> (s: String)
    ensures
        s@ == a@ + b@,
{
    let mut s = owned(a);
    push_str(&mut s, b);
    s
}

// ---------------------------------------------------------------------------
// Digits

/// The lower-case hexadecimal digit for a value below 16.
pub open spec fn hex_digit(d: nat) -> char {
    if d < 10 {
        (48 + d) as char
    } else {
        (87 + d) as char
    }
}

/// The last `width` hexadecimal digits of `n`, most significant first and
/// padded with zeros (what `{:0width$x}` prints for a value that fits).
pub open spec fn hex_digits(n: nat, width: nat) -> Seq<char>
    decreases width,
{
    if width == 0 {
        Seq::empty()
    } else {
        hex_digits(n / 16, (width - 1) as nat).push(hex_digit(n % 16))
    }
}

/// The sixteen-digit, zero-padded, lower-case hexadecimal form of a 64-bit
/// value: what `format!("{:016x}", h)` prints.
pub open spec fn hex16(h: u64) -> Seq<char> {
    hex_digits(h as nat, 16)
}

fn hex_char(d: u64) -> (c: char)
    requires
        d < 16,
    ensures
        c == hex_digit(d as nat),
{
    if d < 10 {
        ((48 + d) as u8) as char
    } else {
        ((87 + d) as u8) as char
    }
}

fn push_hex_digits(n: u64, width: usize, out: &mut String)
    ensures
        final(out)@ == old(out)@ + hex_digits(n as nat, width as nat),
    decreases width,
{
    if width > 0 {
        push_hex_digits(n / 16, width - 1, out);
        push_char(out, hex_char(n % 16));
    }
}

/// Formats a 64-bit value as sixteen zero-padded lower-case hex digits.
pub fn format_hex16(h: u64) -> (s: String)
    ensures
        s@ == hex16(h),
{
    let mut s = String::new();
    push_hex_digits(h, 16, &mut s);
    s
}

/// The character of a decimal digit.
pub open spec fn dec_digit(d: nat) -> char {
    (48 + d) as char
}

/// The decimal representation of `n`, without leading zeros.
pub open spec fn dec_digits(n: nat) -> Seq<char>
    decreases n,
{
    if n < 10 {
        seq![dec_digit(n)]
    } else {
        dec_digits(n / 10).push(dec_digit(n % 10))
    }
}

/// Appends the decimal representation of `n` (what `{}` prints).
pub fn push_decimal(n: u64, out: &mut String)
    ensures
        final(out)@ == old(out)@ + dec_digits(n as nat),
    decreases n,
{
    if n >= 10 {
        push_decimal(n / 10, out);
    }
    push_char(out, ((48 + n % 10) as u8) as char);
}

/// Whether `c` is an ASCII decimal digit.
pub open spec fn is_digit(c: char) -> bool {
    '0' <= c && c <= '9'
}

/// The value of a decimal digit character.
pub open spec fn digit_value(c: char) -> nat {
    (c as nat - 48) as nat
}

/// Whether every character of `s` is a decimal digit.
pub open spec fn all_digits(s: Seq<char>) -> bool {
    forall|i: int| 0 <= i < s.len() ==> is_digit(#[trigger] s[i])
}

/// The value of a string of decimal digits.
pub open spec fn digits_value(s: Seq<char>) -> nat
    decreases s.len(),
{
    if s.len() == 0 {
        0
    } else {
        digits_value(s.drop_last()) * 10 + digit_value(s.last())
    }
}

/// What `str::parse::<u64>` returns for `s`: an optional `+`, then at least
/// one decimal digit and nothing else, with a value that fits in 64 bits.
pub open spec fn parse_u64_spec(s: Seq<char>) -> Option<u64> {
    let body = if s.len() > 0 && s[0] == '+' {
        s.drop_first()
    } else {
        s
    };
    if body.len() > 0 && all_digits(body) && digits_value(body) <= u64::MAX {
        Some(digits_value(body) as u64)
    } else {
        None
    }
}

proof fn lemma_digits_value_prefix_monotone(s: Seq<char>, k: int)
    requires
        0 <= k <= s.len(),
        all_digits(s),
    ensures
        digits_value(s.take(k)) <= digits_value(s),
    decreases s.len() - k,
{
    if k < s.len() {
        lemma_digits_value_prefix_monotone(s, k + 1);
        let t = s.take(k + 1);
        assert(t.drop_last() == s.take(k));
        assert(is_digit(s[k]));
    } else {
        assert(s.take(k) == s);
    }
}

/// Parses a decimal unsigned 64-bit integer as `str::parse::<u64>` does.
pub fn parse_u64(s: &[char]) -> (r: Option<u64>)
    ensures
        r == parse_u64_spec(s@),
{
    let start: usize = if s.len() > 0 && s[0] == '+' {
        1
    } else {
        0
    };
    let ghost body = if s@.len() > 0 && s@[0] == '+' {
        s@.drop_first()
    } else {
        s@
    };
    assert(body == s@.subrange(start as int, s@.len() as int));
    if start >= s.len() {
        return None;
    }
    let mut acc: u64 = 0;
    let mut i: usize = start;
    while i < s.len()
        invariant
            start <= i <= s@.len(),
            body == (if s@.len() > 0 && s@[0] == '+' {
                s@.drop_first()
            } else {
                s@
            }),
            body == s@.subrange(start as int, s@.len() as int),
            all_digits(body.take(i - start)),
            acc as nat == digits_value(body.take(i - start)),
        decreases s@.len() - i,
    {
        let c = s[i];
        let ghost k = i - start;
        assert(body[k] == c);
        if !('0' <= c && c <= '9') {
            assert(!is_digit(body[k]));
            return None;
        }
        let d = ((c as u32) - 48) as u64;
        assert(body.take(k + 1).drop_last() == body.take(k));
        assert(body.take(k + 1).last() == c);
        assert(all_digits(body.take(k + 1)));
        match acc.checked_mul(10) {
            Some(m) => match m.checked_add(d) {
                Some(v) => {
                    acc = v;
                },
                None => {
                    assert(digits_value(body.take(k + 1)) == m + d);
                    proof {
                        if all_digits(body) {
                            lemma_digits_value_prefix_monotone(body, k + 1);
                        }
                    }
                    return None;
                },
            },
            None => {
                proof {
                    if all_digits(body) {
                        lemma_digits_value_prefix_monotone(body, k + 1);
                    }
                    assert(acc * 10 > u64::MAX);
                }
                return None;
            },
        }
        i = i + 1;
    }
    assert(body.take(s@.len() - start) == body);
    Some(acc)
}

} // verus!

verus! {

// ---------------------------------------------------------------------------
// Whitespace and case

/// Whether `c` has the Unicode `White_Space` property (PropList.txt), which
/// is what `char::is_whitespace` tests.
pub open spec fn is_white_space(c: char) -> bool {
    let u = c as u32;
    ||| 0x09 <= u <= 0x0d
    ||| u == 0x20
    ||| u == 0x85
    ||| u == 0xa0
    ||| u == 0x1680
    ||| 0x2000 <= u <= 0x200a
    ||| u == 0x2028
    ||| u == 0x2029
    ||| u == 0x202f
    ||| u == 0x205f
    ||| u == 0x3000
}

/// Whether `c` is white space in the sense of `char::is_whitespace`.
pub fn char_is_whitespace(c: char) -> (r: bool)
    ensures
        r == is_white_space(c),
{
    let u = c as u32;
    (0x09 <= u && u <= 0x0d) || u == 0x20 || u == 0x85 || u == 0xa0 || u == 0x1680 || (0x2000
        <= u && u <= 0x200a) || u == 0x2028 || u == 0x2029 || u == 0x202f || u == 0x205f || u
        == 0x3000
}

/// `s` without its leading whitespace.
pub open spec fn trim_start_spec(s: Seq<char>) -> Seq<char>
    decreases s.len(),
{
    if s.len() > 0 && is_white_space(s[0]) {
        trim_start_spec(s.drop_first())
    } else {
        s
    }
}

/// `s` without its trailing whitespace.
pub open spec fn trim_end_spec(s: Seq<char>) -> Seq<char>
    decreases s.len(),
{
    if s.len() > 0 && is_white_space(s.last()) {
        trim_end_spec(s.drop_last())
    } else {
        s
    }
}

/// `s` without leading and trailing whitespace, as `str::trim` returns it.
pub open spec fn trim_spec(s: Seq<char>) -> Seq<char> {
    trim_end_spec(trim_start_spec(s))
}

/// Removes leading and trailing whitespace (`str::trim`).
pub fn trim(s: &[char]) -> (r: Vec<char>)
    ensures
        r@ == trim_spec(s@),
{
    let n = s.len();
    let mut a: usize = 0;
    assert(s@.subrange(0, n as int) == s@);
    while a < n && char_is_whitespace(s[a])
        invariant
            n == s@.len(),
            a <= n,
            trim_start_spec(s@) == trim_start_spec(s@.subrange(a as int, n as int)),
        decreases n - a,
    {
        let ghost t = s@.subrange(a as int, n as int);
        assert(t.drop_first() == s@.subrange(a + 1, n as int));
        a = a + 1;
    }
    let ghost front = s@.subrange(a as int, n as int);
    assert(trim_start_spec(front) == front);
    let mut b: usize = n;
    while b > a && char_is_whitespace(s[b - 1])
        invariant
            n == s@.len(),
            a <= b <= n,
            trim_end_spec(front) == trim_end_spec(s@.subrange(a as int, b as int)),
        decreases b - a,
    {
        let ghost t = s@.subrange(a as int, b as int);
        assert(t.drop_last() == s@.subrange(a as int, b - 1));
        b = b - 1;
    }
    let mut r: Vec<char> = Vec::new();
    let mut i: usize = a;
    while i < b
        invariant
            n == s@.len(),
            a <= i <= b <= n,
            r@ == s@.subrange(a as int, i as int),
        decreases b - i,
    {
        r.push(s[i]);
        i = i + 1;
    }
    r
}

/// The ASCII upper-case form of `c` (other characters are unchanged).
pub open spec fn ascii_upper(c: char) -> char {
    if 'a' <= c && c <= 'z' {
        ((c as u32) - 32) as char
    } else {
        c
    }
}

/// `s` with the first letter of every word in ASCII upper case, where a
/// word starts at the beginning of the text or after a space.
pub open spec fn capitalize_words_spec(s: Seq<char>) -> Seq<char> {
    Seq::new(
        s.len(),
        |i: int|
            if i == 0 || s[i - 1] == ' ' {
                ascii_upper(s[i])
            } else {
                s[i]
            },
    )
}

/// Upper-cases the first letter of every space-separated word, as the
/// player name is shown in a presence ("spotify" becomes "Spotify").
pub fn capitalize_words(s: &str) -> (r: String)
    ensures
        r@ == capitalize_words_spec(s@),
{
    let v = to_chars(s);
    let mut out: Vec<char> = Vec::new();
    let mut i: usize = 0;
    while i < v.len()
        invariant
            v@ == s@,
            i <= v@.len(),
            out@ == capitalize_words_spec(v@).take(i as int),
        decreases v@.len() - i,
    {
        let c = v[i];
        let start = i == 0 || v[i - 1] == ' ';
        let d = if start && 'a' <= c && c <= 'z' {
            (((c as u32) - 32) as u8) as char
        } else {
            c
        };
        out.push(d);
        assert(out@ == capitalize_words_spec(v@).take(i + 1));
        i = i + 1;
    }
    assert(capitalize_words_spec(v@).take(v@.len() as int) == capitalize_words_spec(v@));
    from_chars(out.as_slice())
}

} // verus!

verus! {

// ---------------------------------------------------------------------------
// Pieces of text

/// The characters `s[a..b]` as a `String`.
pub fn substring(s: &[char], a: usize, b: usize) -> (r: String)
    requires
        a <= b <= s@.len(),
    ensures
        r@ == s@.subrange(a as int, b as int),
{
    let mut r = String::new();
    let mut i: usize = a;
    while i < b
        invariant
            a <= i <= b <= s@.len(),
            r@ == s@.subrange(a as int, i as int),
        decreases b - i,
    {
        push_char(&mut r, s[i]);
        assert(s@.subrange(a as int, i + 1) == s@.subrange(a as int, i as int).push(s@[i as int]));
        i = i + 1;
    }
    r
}

/// The characters `s[a..b]`.
pub fn subvec(s: &[char], a: usize, b: usize) -> (r: Vec<char>)
    requires
        a <= b <= s@.len(),
    ensures
        r@ == s@.subrange(a as int, b as int),
{
    let mut r: Vec<char> = Vec::new();
    let mut i: usize = a;
    while i < b
        invariant
            a <= i <= b <= s@.len(),
            r@ == s@.subrange(a as int, i as int),
        decreases b - i,
    {
        r.push(s[i]);
        i = i + 1;
    }
    r
}

/// The pieces of `s` between occurrences of `sep`, in order, as
/// `str::split` with a `char` pattern yields them: text without a separator
/// is one piece, and each separator closes a piece and opens the next.
pub open spec fn split_spec(s: Seq<char>, sep: char) -> Seq<Seq<char>>
    decreases s.len(),
{
    if s.len() == 0 {
        seq![Seq::empty()]
    } else {
        let rest = split_spec(s.drop_first(), sep);
        if s[0] == sep {
            seq![Seq::<char>::empty()] + rest
        } else {
            rest.update(0, seq![s[0]] + rest[0])
        }
    }
}

/// Splitting always yields at least one piece.
pub proof fn lemma_split_nonempty(s: Seq<char>, sep: char)
    ensures
        split_spec(s, sep).len() >= 1,
    decreases s.len(),
{
    if s.len() > 0 {
        lemma_split_nonempty(s.drop_first(), sep);
    }
}

/// The bounds of the pieces of `s[lo..hi]` split at `sep`.
pub fn split_ranges(s: &[char], lo: usize, hi: usize, sep: char) -> (r: Vec<(usize, usize)>)
    requires
        lo <= hi <= s@.len(),
    ensures
        r@.len() == split_spec(s@.subrange(lo as int, hi as int), sep).len(),
        forall|k: int|
            0 <= k < r@.len() ==> {
                &&& lo <= (#[trigger] r@[k]).0 <= r@[k].1 <= hi
                &&& s@.subrange(r@[k].0 as int, r@[k].1 as int) == split_spec(
                    s@.subrange(lo as int, hi as int),
                    sep,
                )[k]
            },
{
    let mut done: Vec<(usize, usize)> = Vec::new();
    let mut i: usize = hi;
    let mut j: usize = hi;
    assert(s@.subrange(lo as int, hi as int).skip(hi - lo) == Seq::<char>::empty());
    assert(s@.subrange(hi as int, hi as int) == Seq::<char>::empty());
    assert(done@.map_values(|p: (usize, usize)| s@.subrange(p.0 as int, p.1 as int))
        == Seq::<Seq<char>>::empty());
    while i > lo
        invariant
            lo <= i <= j <= hi <= s@.len(),
            forall|k: int|
                0 <= k < done@.len() ==> lo <= (#[trigger] done@[k]).0 <= done@[k].1 <= hi,
            split_spec(s@.subrange(lo as int, hi as int).skip(i - lo), sep) == seq![
                s@.subrange(i as int, j as int),
            ] + done@.map_values(|p: (usize, usize)| s@.subrange(p.0 as int, p.1 as int)),
        decreases i - lo,
    {
        let ghost whole = s@.subrange(lo as int, hi as int);
        let ghost rest_view = done@.map_values(
            |p: (usize, usize)| s@.subrange(p.0 as int, p.1 as int),
        );
        assert(whole.skip(i - 1 - lo).drop_first() == whole.skip(i - lo));
        assert(whole.skip(i - 1 - lo)[0] == s@[i - 1]);
        if s[i - 1] == sep {
            done.insert(0, (i, j));
            proof {
                let nv = done@.map_values(
                    |p: (usize, usize)| s@.subrange(p.0 as int, p.1 as int),
                );
                assert(nv == seq![s@.subrange(i as int, j as int)] + rest_view);
                assert(s@.subrange(i - 1, i - 1) == Seq::<char>::empty());
            }
            i = i - 1;
            j = i;
        } else {
            proof {
                assert(s@.subrange(i - 1, j as int) == seq![s@[i - 1]] + s@.subrange(
                    i as int,
                    j as int,
                ));
            }
            i = i - 1;
        }
    }
    let ghost whole = s@.subrange(lo as int, hi as int);
    let ghost before = done@.map_values(|p: (usize, usize)| s@.subrange(p.0 as int, p.1 as int));
    assert(whole.skip(0) == whole);
    done.insert(0, (lo, j));
    assert(done@.map_values(|p: (usize, usize)| s@.subrange(p.0 as int, p.1 as int)) == seq![
        s@.subrange(lo as int, j as int),
    ] + before);
    done
}

} // verus!

verus! {

/// `std::str::from_utf8`, copied into a `String`: the text the bytes encode,
/// or `None` when they are not UTF-8.
#[verifier::external_body]
pub(crate) fn utf8_to_string(b: &[u8]) -> (r: Option<String>)
    ensures
        r is Some <==> vstd::utf8::valid_utf8(b@),
        r matches Some(s) ==> s@ == vstd::utf8::decode_utf8(b@),
{
    match std::str::from_utf8(b) {
        Ok(s) => Some(s.to_owned()),
        Err(_) => None,
    }
}

} // verus!

verus! {

/// Pieces joined with a separator between each two.
pub open spec fn join_spec(pieces: Seq<Seq<char>>, sep: char) -> Seq<char>
    decreases pieces.len(),
{
    if pieces.len() <= 1 {
        if pieces.len() == 1 {
            pieces[0]
        } else {
            Seq::empty()
        }
    } else {
        pieces[0] + seq![sep] + join_spec(pieces.drop_first(), sep)
    }
}

/// Whether `s` does not contain `c`.
pub open spec fn free_of(s: Seq<char>, c: char) -> bool {
    forall|i: int| 0 <= i < s.len() ==> s[i] != c
}

proof fn lemma_split_free(s: Seq<char>, sep: char)
    requires
        free_of(s, sep),
    ensures
        split_spec(s, sep) == seq![s],
    decreases s.len(),
{
    if s.len() > 0 {
        assert forall|i: int| 0 <= i < s.drop_first().len() implies s.drop_first()[i] != sep by {
            assert(s.drop_first()[i] == s[i + 1]);
        }
        lemma_split_free(s.drop_first(), sep);
        assert(s[0] != sep);
        assert(seq![s[0]] + s.drop_first() == s);
        assert(seq![s.drop_first()].update(0, seq![s[0]] + seq![s.drop_first()][0]) == seq![s]);
    } else {
        assert(s == Seq::<char>::empty());
    }
}

proof fn lemma_split_prefix(a: Seq<char>, rest: Seq<char>, sep: char)
    requires
        free_of(a, sep),
    ensures
        split_spec(a + seq![sep] + rest, sep) == seq![a] + split_spec(rest, sep),
    decreases a.len(),
{
    let s = a + seq![sep] + rest;
    if a.len() == 0 {
        assert(a == Seq::<char>::empty());
        assert(s.drop_first() == rest);
        assert(s[0] == sep);
    } else {
        assert(a[0] != sep);
        let a2 = a.drop_first();
        assert forall|i: int| 0 <= i < a2.len() implies a2[i] != sep by {
            assert(a2[i] == a[i + 1]);
        }
        lemma_split_prefix(a2, rest, sep);
        assert(s.drop_first() == a2 + seq![sep] + rest);
        assert(s[0] == a[0]);
        lemma_split_nonempty(rest, sep);
        assert(seq![a[0]] + a2 == a);
        assert((seq![a2] + split_spec(rest, sep)).update(0, seq![a[0]] + a2) == seq![a] + split_spec(rest, sep));
    }
}

/// Splitting pieces that were joined with a separator none of them holds
/// gives the pieces back.
pub proof fn lemma_split_join(pieces: Seq<Seq<char>>, sep: char)
    requires
        pieces.len() >= 1,
        forall|i: int| 0 <= i < pieces.len() ==> free_of(#[trigger] pieces[i], sep),
    ensures
        split_spec(join_spec(pieces, sep), sep) == pieces,
    decreases pieces.len(),
{
    if pieces.len() == 1 {
        lemma_split_free(pieces[0], sep);
        assert(seq![pieces[0]] == pieces);
    } else {
        let rest = pieces.drop_first();
        assert forall|i: int| 0 <= i < rest.len() implies free_of(#[trigger] rest[i], sep) by {
            assert(rest[i] == pieces[i + 1]);
        }
        lemma_split_join(rest, sep);
        assert(free_of(pieces[0], sep));
        lemma_split_prefix(pieces[0], join_spec(rest, sep), sep);
        assert(seq![pieces[0]] + rest == pieces);
    }
}

/// Decimal digits read back as the number they print.
pub proof fn lemma_parse_decimal(n: u64)
    ensures
        parse_u64_spec(dec_digits(n as nat)) == Some(n),
{
    lemma_digits_of_decimal(n as nat);
    let s = dec_digits(n as nat);
    assert(s[0] != '+');
}

proof fn lemma_digits_of_decimal(n: nat)
    ensures
        dec_digits(n).len() >= 1,
        all_digits(dec_digits(n)),
        digits_value(dec_digits(n)) == n,
        dec_digits(n)[0] != '+',
    decreases n,
{
    let s = dec_digits(n);
    if n < 10 {
        assert(s.drop_last() == Seq::<char>::empty());
        assert(digits_value(Seq::<char>::empty()) == 0);
        assert(s.last() == dec_digit(n));
        assert(digit_value(dec_digit(n)) == n);
        assert(digits_value(s) == digits_value(s.drop_last()) * 10 + digit_value(s.last()));
    } else {
        lemma_digits_of_decimal(n / 10);
        assert(s.drop_last() == dec_digits(n / 10));
        assert(s.last() == dec_digit(n % 10));
        assert((n / 10) * 10 + n % 10 == n);
        assert(digit_value(dec_digit(n % 10)) == n % 10);
        assert(s[0] == dec_digits(n / 10)[0]);
    }
}

} // verus!
