//! Text as sequences of characters.
use vstd::prelude::*;
use vstd::string::*;

verus! {

/// `String::push` appends one character.
pub assume_specification[ String::push ](s: &mut String, c: char)
    ensures
        final(s)@ == old(s)@.push(c),
;

/// Unicode `White_Space`.
pub open spec fn is_space(c: char) -> bool {
    let n = c as u32;
    ||| 0x09 <= n <= 0x0d
    ||| n == 0x20
    ||| n == 0x85
    ||| n == 0xa0
    ||| n == 0x1680
    ||| 0x2000 <= n <= 0x200a
    ||| n == 0x2028
    ||| n == 0x2029
    ||| n == 0x202f
    ||| n == 0x205f
    ||| n == 0x3000
}

/// `s` without leading white space.
pub open spec fn trim_start(s: Seq<char>) -> Seq<char>
    decreases s.len(),
{
    if s.len() > 0 && is_space(s.first()) {
        trim_start(s.drop_first())
    } else {
        s
    }
}

/// `s` without trailing white space.
pub open spec fn trim_end(s: Seq<char>) -> Seq<char>
    decreases s.len(),
{
    if s.len() > 0 && is_space(s.last()) {
        trim_end(s.drop_last())
    } else {
        s
    }
}

/// `s` without surrounding white space.
pub open spec fn trimmed(s: Seq<char>) -> Seq<char> {
    trim_end(trim_start(s))
}

/// `s` without leading occurrences of `c`.
pub open spec fn strip_start(s: Seq<char>, c: char) -> Seq<char>
    decreases s.len(),
{
    if s.len() > 0 && s.first() == c {
        strip_start(s.drop_first(), c)
    } else {
        s
    }
}

/// `s` without trailing occurrences of `c`.
pub open spec fn strip_end(s: Seq<char>, c: char) -> Seq<char>
    decreases s.len(),
{
    if s.len() > 0 && s.last() == c {
        strip_end(s.drop_last(), c)
    } else {
        s
    }
}

pub open spec fn is_quote(c: char) -> bool {
    c == '\'' || c == '"'
}

/// `s` without leading quotation marks.
pub open spec fn strip_quotes_start(s: Seq<char>) -> Seq<char>
    decreases s.len(),
{
    if s.len() > 0 && is_quote(s.first()) {
        strip_quotes_start(s.drop_first())
    } else {
        s
    }
}

/// `s` without trailing quotation marks.
pub open spec fn strip_quotes_end(s: Seq<char>) -> Seq<char>
    decreases s.len(),
{
    if s.len() > 0 && is_quote(s.last()) {
        strip_quotes_end(s.drop_last())
    } else {
        s
    }
}

/// The part before the first `c` and the part behind it.
pub open spec fn split_at(s: Seq<char>, c: char) -> Option<(Seq<char>, Seq<char>)> {
    let i = index_of(s, c);
    if i < s.len() {
        Some((s.take(i), s.skip(i + 1)))
    } else {
        None
    }
}

pub open spec fn ascii_lower(c: char) -> char {
    if 'A' <= c <= 'Z' {
        ((c as u8) + 32) as u8 as char
    } else {
        c
    }
}

/// `s` with its ASCII capitals made small.
pub open spec fn ascii_lowered(s: Seq<char>) -> Seq<char> {
    s.map_values(|c: char| ascii_lower(c))
}

/// `p` occurs in `s`.
pub open spec fn contains(s: Seq<char>, p: Seq<char>) -> bool {
    exists|i: int| occurs_at(s, p, i)
}

pub open spec fn occurs_at(s: Seq<char>, p: Seq<char>, i: int) -> bool {
    0 <= i && i + p.len() <= s.len() && s.subrange(i, i + p.len()) == p
}

/// The parts joined with `separator` between neighbours.
pub open spec fn joined(parts: Seq<Seq<char>>, separator: Seq<char>) -> Seq<char>
    decreases parts.len(),
{
    if parts.len() == 0 {
        Seq::empty()
    } else if parts.len() == 1 {
        parts[0]
    } else {
        joined(parts.drop_last(), separator) + separator + parts.last()
    }
}

/// The texts that a vector of strings holds.
pub open spec fn texts(v: Seq<String>) -> Seq<Seq<char>> {
    v.map_values(|s: String| s@)
}

pub open spec fn digit(n: nat) -> char {
    ((n % 10) + 48) as u8 as char
}

/// Decimal digits of `n`, without leading zeros.
pub open spec fn decimal(n: nat) -> Seq<char>
    decreases n,
{
    if n < 10 {
        seq![digit(n)]
    } else {
        decimal(n / 10).push(digit(n))
    }
}

pub open spec fn signed_decimal(n: int) -> Seq<char> {
    if n < 0 {
        seq!['-'] + decimal((-n) as nat)
    } else {
        decimal(n as nat)
    }
}

/// `c` repeated `n` times.
pub open spec fn repeated(c: char, n: nat) -> Seq<char> {
    Seq::new(n, |i: int| c)
}

/// Every character is an ASCII digit.
pub open spec fn all_digits(s: Seq<char>) -> bool {
    forall|i: int| 0 <= i < s.len() ==> '0' <= #[trigger] s[i] <= '9'
}

/// The number that a row of digits spells.
pub open spec fn digits_value(s: Seq<char>) -> nat
    decreases s.len(),
{
    if s.len() == 0 {
        0
    } else {
        digits_value(s.drop_last()) * 10 + (s.last() as nat - 48) as nat
    }
}

/// A text that may start with a sign: whether it is negative, and the rest.
pub open spec fn sign_and_rest(s: Seq<char>) -> (bool, Seq<char>) {
    if s.len() > 0 && (s.first() == '-' || s.first() == '+') {
        (s.first() == '-', s.drop_first())
    } else {
        (false, s)
    }
}

/// The 64-bit integer that a text spells: an optional sign, then digits.
pub open spec fn integer_of_text(s: Seq<char>) -> Option<i64> {
    let (negative, digits) = sign_and_rest(s);
    let n = if negative { -(digits_value(digits) as int) } else { digits_value(digits) as int };
    if digits.len() > 0 && all_digits(digits) && i64::MIN <= n <= i64::MAX {
        Some(n as i64)
    } else {
        None
    }
}

/// The longest stretches of `s` whose characters are all kept, in their order.
pub open spec fn runs(s: Seq<char>, keep: spec_fn(char) -> bool) -> Seq<Seq<char>>
    decreases s.len(),
{
    if s.len() == 0 {
        Seq::empty()
    } else {
        let before = runs(s.drop_last(), keep);
        if !keep(s.last()) {
            before
        } else if s.len() > 1 && keep(s[s.len() - 2]) {
            before.drop_last().push(before.last().push(s.last()))
        } else {
            before.push(seq![s.last()])
        }
    }
}

/// Which characters make up a word.
#[derive(Clone, Copy, PartialEq, Eq, Structural, Debug)]
pub enum WordKind {
    /// ASCII letters and digits.
    Alphanumeric,
    /// Everything but underscores, hyphens and spaces.
    Unseparated,
}

pub open spec fn in_word(kind: WordKind, c: char) -> bool {
    match kind {
        WordKind::Alphanumeric => '0' <= c <= '9' || 'a' <= c <= 'z' || 'A' <= c <= 'Z',
        WordKind::Unseparated => c != '_' && c != '-' && c != ' ',
    }
}

/// The words of a text.
pub open spec fn words_of(s: Seq<char>, kind: WordKind) -> Seq<Seq<char>> {
    runs(s, |c: char| in_word(kind, c))
}

/// The place of the first `c` in `s`, or the length of `s`.
pub open spec fn index_of(s: Seq<char>, c: char) -> int
    decreases s.len(),
{
    if s.len() == 0 || s.first() == c {
        0
    } else {
        1 + index_of(s.drop_first(), c)
    }
}

/// A line that ended in a line feed, without the carriage return before it.
pub open spec fn without_return(line: Seq<char>) -> Seq<char> {
    if line.len() > 0 && line.last() == '\r' {
        line.drop_last()
    } else {
        line
    }
}

/// The lines of `s`; the last one need not end in a line feed.
pub open spec fn lines_of(s: Seq<char>) -> Seq<Seq<char>>
    decreases s.len(),
{
    let i = index_of(s, '\n');
    if s.len() == 0 {
        Seq::empty()
    } else if i < 0 || i >= s.len() {
        seq![s]
    } else {
        seq![without_return(s.take(i))] + lines_of(s.skip(i + 1))
    }
}

/// Lexicographic order by code points.
pub open spec fn precedes(a: Seq<char>, b: Seq<char>) -> bool
    decreases a.len(),
{
    if b.len() == 0 {
        false
    } else if a.len() == 0 {
        true
    } else {
        a.first() < b.first() || (a.first() == b.first() && precedes(a.drop_first(), b.drop_first()))
    }
}

pub proof fn lemma_index_of(s: Seq<char>, c: char, k: int)
    requires
        0 <= k <= s.len(),
        forall|j: int| 0 <= j < k ==> s[j] != c,
        k < s.len() ==> s[k] == c,
    ensures
        index_of(s, c) == k,
    decreases s.len(),
{
    if k > 0 {
        let t = s.drop_first();
        assert(forall|j: int| 0 <= j < k - 1 ==> t[j] == s[j + 1]);
        lemma_index_of(t, c, k - 1);
    }
}

/// The order is total and strict.
pub proof fn lemma_precedes_total(a: Seq<char>, b: Seq<char>)
    ensures
        precedes(a, b) || precedes(b, a) || a == b,
        !(precedes(a, b) && precedes(b, a)),
        a == b ==> !precedes(a, b),
    decreases a.len(),
{
    if a.len() > 0 && b.len() > 0 {
        lemma_precedes_total(a.drop_first(), b.drop_first());
        if a.first() == b.first() && a.drop_first() == b.drop_first() {
            assert(a == seq![a.first()] + a.drop_first());
            assert(b == seq![b.first()] + b.drop_first());
        }
    } else {
        assert(a.len() == b.len() ==> a == b);
    }
}

pub proof fn lemma_precedes_transitive(a: Seq<char>, b: Seq<char>, c: Seq<char>)
    requires
        precedes(a, b),
        precedes(b, c),
    ensures
        precedes(a, c),
    decreases a.len(),
{
    if a.len() > 0 && a.first() == b.first() && b.first() == c.first() {
        lemma_precedes_transitive(a.drop_first(), b.drop_first(), c.drop_first());
    }
}

/// The characters of `s`.
pub fn chars_of(s: &str) -> (out: Vec<char>)
    ensures
        out@ == s@,
{
    let mut out: Vec<char> = Vec::new();
    for c in it: s.chars()
        invariant
            it.seq() == s@,
            out@ == s@.take(it.index() as int),
    {
        proof {
            assert(s@.take(it.index() + 1) == s@.take(it.index() as int).push(s@[it.index() as int]));
        }
        out.push(c);
    }
    proof {
        assert(s@.take(s@.len() as int) == s@);
    }
    out
}

/// The characters from `from` up to `to` as a string.
pub fn slice_to_string(v: &Vec<char>, from: usize, to: usize) -> (s: String)
    requires
        from <= to <= v@.len(),
    ensures
        s@ == v@.subrange(from as int, to as int),
{
    let mut s = String::new();
    let mut i: usize = from;
    assert(v@.subrange(from as int, from as int) == Seq::<char>::empty());
    while i < to
        invariant
            from <= i <= to <= v@.len(),
            s@ == v@.subrange(from as int, i as int),
        decreases to - i,
    {
        s.push(v[i]);
        proof {
            assert(v@.subrange(from as int, i + 1) == v@.subrange(from as int, i as int).push(v@[i as int]));
        }
        i = i + 1;
    }
    s
}

/// The two texts are the same.
pub fn same(a: &str, b: &str) -> (r: bool)
    ensures
        r == (a@ == b@),
{
    let x = chars_of(a);
    let y = chars_of(b);
    same_chars(&x, &y)
}

pub fn same_chars(x: &Vec<char>, y: &Vec<char>) -> (r: bool)
    ensures
        r == (x@ == y@),
{
    if x.len() != y.len() {
        return false;
    }
    let mut i: usize = 0;
    while i < x.len()
        invariant
            i <= x@.len() == y@.len(),
            x@.take(i as int) == y@.take(i as int),
        decreases x@.len() - i,
    {
        if x[i] != y[i] {
            return false;
        }
        proof {
            assert(x@.take(i + 1) == x@.take(i as int).push(x@[i as int]));
            assert(y@.take(i + 1) == y@.take(i as int).push(y@[i as int]));
        }
        i = i + 1;
    }
    proof {
        assert(x@.take(i as int) == x@);
        assert(y@.take(i as int) == y@);
    }
    true
}

pub fn space(c: char) -> (r: bool)
    ensures
        r == is_space(c),
{
    let n: u32 = c as u32;
    (0x09 <= n && n <= 0x0d) || n == 0x20 || n == 0x85 || n == 0xa0 || n == 0x1680 || (0x2000 <= n && n <= 0x200a) || n
        == 0x2028 || n == 0x2029 || n == 0x202f || n == 0x205f || n == 0x3000
}

/// The characters from `from` up to `to` are digits.
pub fn only_digits(v: &Vec<char>, from: usize, to: usize) -> (r: bool)
    requires
        from <= to <= v@.len(),
    ensures
        r == all_digits(v@.subrange(from as int, to as int)),
        from == 0 && to == v@.len() ==> r == all_digits(v@),
{
    let ghost part = v@.subrange(from as int, to as int);
    let mut i: usize = from;
    proof {
        if from == 0 && to == v@.len() {
            assert(part =~= v@);
        }
    }
    while i < to
        invariant
            from <= i <= to <= v@.len(),
            part == v@.subrange(from as int, to as int),
            forall|k: int| 0 <= k < i - from ==> '0' <= #[trigger] part[k] <= '9',
        decreases to - i,
    {
        assert(part[i - from] == v@[i as int]);
        if !('0' <= v[i] && v[i] <= '9') {
            return false;
        }
        i = i + 1;
    }
    true
}

/// The place of the first `c`, or the number of characters.
pub fn position_of(v: &Vec<char>, c: char) -> (r: usize)
    ensures
        r == index_of(v@, c),
        r <= v@.len(),
        forall|j: int| 0 <= j < r ==> v@[j] != c,
        r < v@.len() ==> v@[r as int] == c,
{
    let mut i: usize = 0;
    while i < v.len() && v[i] != c
        invariant
            i <= v@.len(),
            forall|j: int| 0 <= j < i ==> v@[j] != c,
        decreases v@.len() - i,
    {
        i = i + 1;
    }
    proof {
        lemma_index_of(v@, c, i as int);
    }
    i
}

/// The characters from `from` up to `to`.
pub fn slice_of(v: &Vec<char>, from: usize, to: usize) -> (r: Vec<char>)
    requires
        from <= to <= v@.len(),
    ensures
        r@ == v@.subrange(from as int, to as int),
{
    let mut r: Vec<char> = Vec::new();
    let mut i: usize = from;
    assert(v@.subrange(from as int, from as int) =~= Seq::<char>::empty());
    while i < to
        invariant
            from <= i <= to <= v@.len(),
            r@ == v@.subrange(from as int, i as int),
        decreases to - i,
    {
        r.push(v[i]);
        proof {
            assert(v@.subrange(from as int, i + 1) =~= v@.subrange(from as int, i as int).push(v@[i as int]));
        }
        i = i + 1;
    }
    r
}

/// The 64-bit integer that a text spells.
pub fn parse_integer(s: &str) -> (r: Option<i64>)
    ensures
        r == integer_of_text(s@),
{
    let v = chars_of(s);
    let negative: bool = v.len() > 0 && v[0] == '-';
    let from: usize = if v.len() > 0 && (v[0] == '-' || v[0] == '+') { 1 } else { 0 };
    let ghost all = v@.skip(from as int);
    proof {
        if from == 1 {
            assert(v@.drop_first() =~= v@.skip(1));
        } else {
            assert(v@ =~= v@.skip(0));
        }
        assert(all =~= v@.subrange(from as int, v@.len() as int));
        assert(all == sign_and_rest(s@).1);
    }
    if v.len() == from || !only_digits(&v, from, v.len()) {
        return None;
    }
    let mut n: u128 = 0;
    let mut i: usize = from;
    proof {
        assert(all.take(0) =~= Seq::<char>::empty());
    }
    while i < v.len()
        invariant
            from <= i <= v@.len(),
            all == v@.skip(from as int),
            all == sign_and_rest(s@).1,
            all_digits(all),
            all.len() > 0,
            n <= 0x1_0000_0000_0000_0000,
            n == digits_value(all.take(i - from)),
        decreases v@.len() - i,
    {
        proof {
            assert(all.take(i - from + 1).drop_last() =~= all.take(i - from));
            assert(all[i - from] == v@[i as int]);
            assert('0' <= all[i - from] <= '9');
        }
        n = n * 10 + (v[i] as u128 - 48);
        i = i + 1;
        if n > 0x1_0000_0000_0000_0000 {
            proof {
                lemma_digits_grow(all, i - from);
            }
            return None;
        }
    }
    proof {
        assert(all.take(i - from) =~= all);
    }
    if negative {
        if n <= 0x8000_0000_0000_0000 {
            Some((-(n as i128)) as i64)
        } else {
            None
        }
    } else if n <= 0x7fff_ffff_ffff_ffff {
        Some(n as i64)
    } else {
        None
    }
}

pub proof fn lemma_digits_grow(s: Seq<char>, n: int)
    requires
        0 <= n <= s.len(),
        all_digits(s),
    ensures
        digits_value(s.take(n)) <= digits_value(s),
    decreases s.len(),
{
    if n == s.len() {
        assert(s.take(n) =~= s);
    } else {
        let t = s.drop_last();
        assert forall|i: int| 0 <= i < t.len() implies '0' <= #[trigger] t[i] <= '9' by {
            assert(t[i] == s[i]);
        }
        lemma_digits_grow(t, n);
        assert(t.take(n) =~= s.take(n));
    }
}

fn word_char(kind: WordKind, c: char) -> (r: bool)
    ensures
        r == in_word(kind, c),
{
    match kind {
        WordKind::Alphanumeric => ('0' <= c && c <= '9') || ('a' <= c && c <= 'z') || ('A' <= c && c <= 'Z'),
        WordKind::Unseparated => c != '_' && c != '-' && c != ' ',
    }
}

/// The words of a text.
pub fn words(s: &str, kind: WordKind) -> (r: Vec<String>)
    ensures
        texts(r@) == words_of(s@, kind),
{
    let v = chars_of(s);
    let ghost keep = |c: char| in_word(kind, c);
    let mut r: Vec<String> = Vec::new();
    let mut current = String::new();
    let mut open: bool = false;
    let mut i: usize = 0;
    proof {
        assert(v@.take(0) =~= Seq::<char>::empty());
        assert(texts(r@) =~= runs(v@.take(0), keep));
    }
    while i < v.len()
        invariant
            i <= v@.len(),
            keep == (|c: char| in_word(kind, c)),
            open == (i > 0 && keep(v@[i - 1])),
            open ==> runs(v@.take(i as int), keep) == texts(r@).push(current@),
            !open ==> runs(v@.take(i as int), keep) == texts(r@),
        decreases v@.len() - i,
    {
        let ghost prefix = v@.take(i as int);
        let ghost next = v@.take(i + 1);
        let ghost done = texts(r@);
        proof {
            assert(next.drop_last() =~= prefix);
            assert(next.last() == v@[i as int]);
            if i > 0 {
                assert(next[next.len() - 2] == v@[i - 1]);
            }
        }
        let c: char = v[i];
        if word_char(kind, c) {
            if open {
                proof {
                    assert(done.push(current@).drop_last() =~= done);
                }
                current.push(c);
            } else {
                current = String::new();
                current.push(c);
                proof {
                    assert(current@ =~= seq![c]);
                }
            }
            open = true;
        } else {
            if open {
                r.push(current);
                current = String::new();
                proof {
                    assert(texts(r@) =~= done.push(texts(r@).last()));
                }
            }
            open = false;
        }
        i = i + 1;
    }
    proof {
        assert(v@.take(i as int) =~= s@);
    }
    if open {
        let ghost done = texts(r@);
        r.push(current);
        proof {
            assert(texts(r@) =~= done.push(current@));
        }
    }
    r
}

/// What `char::to_uppercase` yields.
pub uninterp spec fn uppercase_text(c: char) -> Seq<char>;

/// What `char::to_lowercase` yields.
pub uninterp spec fn lowercase_text(c: char) -> Seq<char>;

/// What `str::to_lowercase` yields.
pub uninterp spec fn lowercased(s: Seq<char>) -> Seq<char>;

pub open spec fn is_ascii(s: Seq<char>) -> bool {
    forall|i: int| 0 <= i < s.len() ==> (#[trigger] s[i] as u32) < 128
}

pub open spec fn ascii_upper(c: char) -> char {
    if 'a' <= c <= 'z' {
        ((c as u8) - 32) as u8 as char
    } else {
        c
    }
}

/// The characters that `char::to_uppercase` yields, collected. They depend on the
/// character alone; an ASCII character yields its ASCII capital.
#[verifier::external_body]
pub(crate) fn uppercase_char(c: char) -> (r: String)
    ensures
        r@ == uppercase_text(c),
        (c as u32) < 128 ==> r@ == seq![ascii_upper(c)],
{
    c.to_uppercase().collect()
}

/// The characters that `char::to_lowercase` yields, collected. They depend on the
/// character alone; an ASCII character yields its small ASCII letter.
#[verifier::external_body]
pub(crate) fn lowercase_char(c: char) -> (r: String)
    ensures
        r@ == lowercase_text(c),
        (c as u32) < 128 ==> r@ == seq![ascii_lower(c)],
{
    c.to_lowercase().collect()
}

/// `str::to_lowercase`. The result depends on the text alone; an ASCII text has
/// its ASCII capitals made small.
#[verifier::external_body]
pub(crate) fn to_lowercase(s: &str) -> (r: String)
    ensures
        r@ == lowercased(s@),
        is_ascii(s@) ==> r@ == ascii_lowered(s@),
{
    s.to_lowercase()
}

/// What `String::from_utf8_lossy` makes of bytes.
pub uninterp spec fn lossy_text(bytes: Seq<u8>) -> Seq<char>;

/// `String::from_utf8_lossy`, as an owned string. The result depends on the bytes
/// alone; bytes that are UTF-8 give the text that they encode.
#[verifier::external_body]
pub(crate) fn from_utf8_lossy(bytes: &[u8]) -> (r: String)
    ensures
        r@ == lossy_text(bytes@),
        vstd::utf8::valid_utf8(bytes@) ==> r@ == vstd::utf8::decode_utf8(bytes@),
{
    String::from_utf8_lossy(bytes).into_owned()
}

/// The last of some texts that is not blank, without surrounding white space.
pub open spec fn last_full(all: Seq<Seq<char>>) -> Option<Seq<char>>
    decreases all.len(),
{
    if all.len() == 0 {
        None
    } else if trimmed(all.last()).len() > 0 {
        Some(trimmed(all.last()))
    } else {
        last_full(all.drop_last())
    }
}

/// The last line of a text that is not blank.
pub fn last_full_line(s: &str) -> (r: Option<String>)
    ensures
        match r {
            Some(line) => last_full(lines_of(s@)) == Some(line@),
            None => last_full(lines_of(s@)) is None,
        },
{
    let all = lines(s);
    let ghost model = lines_of(s@);
    let mut i: usize = all.len();
    proof {
        assert(model.take(i as int) =~= model);
    }
    while i > 0
        invariant
            i <= all@.len(),
            texts(all@) == model,
            last_full(model) == last_full(model.take(i as int)),
            model == lines_of(s@),
        decreases i,
    {
        proof {
            assert(model.take(i as int).last() == all@[i - 1]@);
            assert(model.take(i as int).drop_last() =~= model.take(i - 1));
        }
        let line = trim(all[i - 1].as_str());
        if !is_blank(line.as_str()) {
            return Some(line);
        }
        i = i - 1;
    }
    None
}

/// The lower case of every character of `s`, in a row.
pub open spec fn lowercase_each(s: Seq<char>) -> Seq<char>
    decreases s.len(),
{
    if s.len() == 0 {
        Seq::empty()
    } else {
        lowercase_each(s.drop_last()) + lowercase_text(s.last())
    }
}

/// `s` with its first character in upper case.
pub open spec fn capitalized(s: Seq<char>) -> Seq<char> {
    if s.len() == 0 {
        Seq::empty()
    } else {
        uppercase_text(s.first()) + s.drop_first()
    }
}

/// `s` with its first character in upper case and the others in lower case.
pub open spec fn title_word(s: Seq<char>) -> Seq<char> {
    if s.len() == 0 {
        Seq::empty()
    } else {
        uppercase_text(s.first()) + lowercase_each(s.drop_first())
    }
}

pub fn capitalize(s: &str) -> (r: String)
    ensures
        r@ == capitalized(s@),
{
    let v = chars_of(s);
    if v.len() == 0 {
        return String::new();
    }
    let first = uppercase_char(v[0]);
    let rest = slice_to_string(&v, 1, v.len());
    proof {
        assert(rest@ =~= s@.drop_first());
    }
    concat2(first.as_str(), rest.as_str())
}

pub fn titleize_word(s: &str) -> (r: String)
    ensures
        r@ == title_word(s@),
{
    let v = chars_of(s);
    if v.len() == 0 {
        return String::new();
    }
    let ghost rest = s@.drop_first();
    let first = uppercase_char(v[0]);
    let mut r = String::new();
    let mut i: usize = 1;
    proof {
        assert(rest.take(0) =~= Seq::<char>::empty());
    }
    while i < v.len()
        invariant
            1 <= i <= v@.len(),
            v@ == s@,
            rest == s@.drop_first(),
            r@ == lowercase_each(rest.take(i - 1)),
        decreases v@.len() - i,
    {
        proof {
            assert(rest.take(i as int).drop_last() =~= rest.take(i - 1));
            assert(rest.take(i as int).last() == v@[i as int]);
        }
        let low = lowercase_char(v[i]);
        r.append(low.as_str());
        i = i + 1;
    }
    proof {
        assert(rest.take(i - 1) =~= rest);
    }
    concat2(first.as_str(), r.as_str())
}

/// `s` without surrounding white space.
pub fn trim(s: &str) -> (r: String)
    ensures
        r@ == trimmed(s@),
{
    let v = chars_of(s);
    let mut i: usize = 0;
    proof {
        assert(v@.skip(0) == v@);
    }
    while i < v.len() && space(v[i])
        invariant
            i <= v@.len(),
            v@ == s@,
            trim_start(s@) == trim_start(v@.skip(i as int)),
        decreases v@.len() - i,
    {
        proof {
            assert(v@.skip(i as int).drop_first() == v@.skip(i + 1));
        }
        i = i + 1;
    }
    let mut j: usize = v.len();
    proof {
        assert(v@.skip(i as int) == v@.subrange(i as int, j as int));
    }
    while j > i && space(v[j - 1])
        invariant
            i <= j <= v@.len(),
            trimmed(s@) == trim_end(v@.subrange(i as int, j as int)),
        decreases j,
    {
        proof {
            assert(v@.subrange(i as int, j as int).drop_last() == v@.subrange(i as int, j - 1));
        }
        j = j - 1;
    }
    slice_to_string(&v, i, j)
}

/// `s` without leading and trailing occurrences of `c`.
pub fn trim_char(s: &str, c: char) -> (r: String)
    ensures
        r@ == strip_end(strip_start(s@, c), c),
{
    let v = chars_of(s);
    let mut i: usize = 0;
    proof {
        assert(v@.skip(0) =~= v@);
    }
    while i < v.len() && v[i] == c
        invariant
            i <= v@.len(),
            v@ == s@,
            strip_start(s@, c) == strip_start(v@.skip(i as int), c),
        decreases v@.len() - i,
    {
        proof {
            assert(v@.skip(i as int).drop_first() =~= v@.skip(i + 1));
        }
        i = i + 1;
    }
    let mut j: usize = v.len();
    proof {
        assert(v@.skip(i as int) =~= v@.subrange(i as int, j as int));
    }
    while j > i && v[j - 1] == c
        invariant
            i <= j <= v@.len(),
            strip_end(strip_start(s@, c), c) == strip_end(v@.subrange(i as int, j as int), c),
        decreases j,
    {
        proof {
            assert(v@.subrange(i as int, j as int).drop_last() =~= v@.subrange(i as int, j - 1));
        }
        j = j - 1;
    }
    slice_to_string(&v, i, j)
}

/// `s` without quotation marks around it.
pub fn trim_quotes(s: &str) -> (r: String)
    ensures
        r@ == strip_quotes_end(strip_quotes_start(s@)),
{
    let v = chars_of(s);
    let mut i: usize = 0;
    proof {
        assert(v@.skip(0) =~= v@);
    }
    while i < v.len() && (v[i] == '\'' || v[i] == '"')
        invariant
            i <= v@.len(),
            v@ == s@,
            strip_quotes_start(s@) == strip_quotes_start(v@.skip(i as int)),
        decreases v@.len() - i,
    {
        proof {
            assert(v@.skip(i as int).drop_first() =~= v@.skip(i + 1));
        }
        i = i + 1;
    }
    let mut j: usize = v.len();
    proof {
        assert(v@.skip(i as int) =~= v@.subrange(i as int, j as int));
    }
    while j > i && (v[j - 1] == '\'' || v[j - 1] == '"')
        invariant
            i <= j <= v@.len(),
            strip_quotes_end(strip_quotes_start(s@)) == strip_quotes_end(v@.subrange(i as int, j as int)),
        decreases j,
    {
        proof {
            assert(v@.subrange(i as int, j as int).drop_last() =~= v@.subrange(i as int, j - 1));
        }
        j = j - 1;
    }
    slice_to_string(&v, i, j)
}

/// `s` without trailing occurrences of `c`.
pub fn trim_end_char(s: &str, c: char) -> (r: String)
    ensures
        r@ == strip_end(s@, c),
{
    let v = chars_of(s);
    let mut j: usize = v.len();
    proof {
        assert(v@ =~= v@.subrange(0, j as int));
    }
    while j > 0 && v[j - 1] == c
        invariant
            j <= v@.len(),
            strip_end(s@, c) == strip_end(v@.subrange(0, j as int), c),
        decreases j,
    {
        proof {
            assert(v@.subrange(0, j as int).drop_last() =~= v@.subrange(0, j - 1));
        }
        j = j - 1;
    }
    slice_to_string(&v, 0, j)
}

pub open spec fn pair_view(p: Option<(String, String)>) -> Option<(Seq<char>, Seq<char>)> {
    match p {
        Some((a, b)) => Some((a@, b@)),
        None => None,
    }
}

/// The part before the first `c` and the part behind it.
pub fn split_once(s: &str, c: char) -> (r: Option<(String, String)>)
    ensures
        pair_view(r) == split_at(s@, c),
{
    let v = chars_of(s);
    let i: usize = position_of(&v, c);
    if i < v.len() {
        let a = slice_to_string(&v, 0, i);
        let b = slice_to_string(&v, i + 1, v.len());
        proof {
            assert(a@ =~= s@.take(i as int));
            assert(b@ =~= s@.skip(i + 1));
        }
        Some((a, b))
    } else {
        None
    }
}

/// `s` up to the first `c`, or all of it.
pub fn before_char(s: &str, c: char) -> (r: String)
    ensures
        r@ == s@.take(index_of(s@, c)),
{
    let v = chars_of(s);
    let i: usize = position_of(&v, c);
    proof {
        assert(v@.subrange(0, i as int) =~= v@.take(i as int));
    }
    slice_to_string(&v, 0, i)
}

pub fn is_blank(s: &str) -> (r: bool)
    ensures
        r == (s@.len() == 0),
{
    chars_of(s).len() == 0
}

pub fn lower(c: char) -> (r: char)
    ensures
        r == ascii_lower(c),
{
    if 'A' <= c && c <= 'Z' {
        ((c as u8) + 32) as char
    } else {
        c
    }
}

/// `s` with its ASCII capitals made small.
pub fn to_ascii_lowercase(s: &str) -> (r: String)
    ensures
        r@ == ascii_lowered(s@),
{
    let v = chars_of(s);
    let mut r = String::new();
    let mut i: usize = 0;
    while i < v.len()
        invariant
            i <= v@.len(),
            r@ == ascii_lowered(v@.take(i as int)),
        decreases v@.len() - i,
    {
        r.push(lower(v[i]));
        proof {
            assert(ascii_lowered(v@.take(i + 1)) =~= ascii_lowered(v@.take(i as int)).push(ascii_lower(v@[i as int])));
        }
        i = i + 1;
    }
    proof {
        assert(v@.take(i as int) == s@);
    }
    r
}

pub fn eq_ignore_ascii_case(a: &str, b: &str) -> (r: bool)
    ensures
        r == (ascii_lowered(a@) == ascii_lowered(b@)),
{
    let x = to_ascii_lowercase(a);
    let y = to_ascii_lowercase(b);
    same(x.as_str(), y.as_str())
}

pub fn matches_at(v: &Vec<char>, p: &Vec<char>, i: usize) -> (r: bool)
    requires
        i + p@.len() <= v@.len(),
    ensures
        r == (v@.subrange(i as int, i + p@.len()) == p@),
{
    let n: usize = v.len();
    let mut j: usize = 0;
    while j < p.len()
        invariant
            j <= p@.len(),
            i + p@.len() <= v@.len() == n,
            v@.subrange(i as int, i + j) == p@.take(j as int),
        decreases p@.len() - j,
    {
        if v[i + j] != p[j] {
            proof {
                assert(v@.subrange(i as int, i + p@.len())[j as int] != p@[j as int]);
            }
            return false;
        }
        proof {
            assert(v@.subrange(i as int, i + j + 1) == v@.subrange(i as int, i + j).push(v@[i + j]));
            assert(p@.take(j + 1) == p@.take(j as int).push(p@[j as int]));
        }
        j = j + 1;
    }
    proof {
        assert(p@.take(j as int) == p@);
    }
    true
}

pub fn contains_text(s: &str, p: &str) -> (r: bool)
    ensures
        r == contains(s@, p@),
{
    let v = chars_of(s);
    let w = chars_of(p);
    if w.len() > v.len() {
        return false;
    }
    let mut i: usize = 0;
    while i <= v.len() - w.len()
        invariant
            w@.len() <= v@.len(),
            i <= v@.len() - w@.len() + 1,
            v@ == s@,
            w@ == p@,
            forall|k: int| 0 <= k < i ==> !occurs_at(s@, p@, k),
        decreases v@.len() - i + 1,
    {
        if matches_at(&v, &w, i) {
            assert(occurs_at(s@, p@, i as int));
            return true;
        }
        if i == v.len() - w.len() {
            return false;
        }
        i = i + 1;
    }
    false
}

pub fn starts_with(s: &str, p: &str) -> (r: bool)
    ensures
        r == p@.is_prefix_of(s@),
{
    let v = chars_of(s);
    let w = chars_of(p);
    w.len() <= v.len() && matches_at(&v, &w, 0)
}

/// `s` without the prefix `p`, where it has it.
pub fn strip_prefix(s: &str, p: &str) -> (r: Option<String>)
    ensures
        r.is_some() == p@.is_prefix_of(s@),
        r.is_some() ==> r.unwrap()@ == s@.skip(p@.len() as int),
{
    let v = chars_of(s);
    let w = chars_of(p);
    if w.len() <= v.len() && matches_at(&v, &w, 0) {
        proof {
            assert(v@.subrange(w@.len() as int, v@.len() as int) == v@.skip(w@.len() as int));
        }
        Some(slice_to_string(&v, w.len(), v.len()))
    } else {
        None
    }
}

/// `s` without the suffix `p`, where it has it.
pub fn strip_suffix(s: &str, p: &str) -> (r: Option<String>)
    ensures
        r.is_some() == p@.is_suffix_of(s@),
        r.is_some() ==> r.unwrap()@ == s@.take(s@.len() - p@.len()),
{
    let v = chars_of(s);
    let w = chars_of(p);
    if w.len() <= v.len() && matches_at(&v, &w, v.len() - w.len()) {
        proof {
            assert(v@.subrange(0, v@.len() - w@.len()) == v@.take(v@.len() - w@.len()));
        }
        Some(slice_to_string(&v, 0, v.len() - w.len()))
    } else {
        None
    }
}

pub fn concat2(a: &str, b: &str) -> (r: String)
    ensures
        r@ == a@ + b@,
{
    let mut r = a.to_string();
    r.append(b);
    r
}

pub fn concat3(a: &str, b: &str, c: &str) -> (r: String)
    ensures
        r@ == a@ + b@ + c@,
{
    let mut r = a.to_string();
    r.append(b);
    r.append(c);
    r
}

pub fn concat4(a: &str, b: &str, c: &str, d: &str) -> (r: String)
    ensures
        r@ == a@ + b@ + c@ + d@,
{
    let mut r = a.to_string();
    r.append(b);
    r.append(c);
    r.append(d);
    r
}

pub fn join(parts: &Vec<String>, separator: &str) -> (r: String)
    ensures
        r@ == joined(texts(parts@), separator@),
{
    let mut r = String::new();
    let mut i: usize = 0;
    let ghost all = texts(parts@);
    proof {
        assert(all.take(0) == Seq::<Seq<char>>::empty());
        assert(r@ == Seq::<char>::empty());
    }
    while i < parts.len()
        invariant
            i <= parts@.len(),
            all == texts(parts@),
            r@ == joined(all.take(i as int), separator@),
        decreases parts@.len() - i,
    {
        proof {
            assert(all.take(i + 1).drop_last() == all.take(i as int));
            assert(all.take(i + 1).last() == parts@[i as int]@);
            assert(Seq::<char>::empty() + parts@[i as int]@ == parts@[i as int]@);
        }
        if i > 0 {
            r.append(separator);
        }
        r.append(parts[i].as_str());
        i = i + 1;
    }
    proof {
        assert(all.take(i as int) == all);
    }
    r
}

/// The decimal digits of `n`.
pub fn decimal_of(n: u128) -> (r: String)
    ensures
        r@ == decimal(n as nat),
    decreases n,
{
    let d: char = ((n % 10) as u8 + 48) as char;
    if n < 10 {
        let mut r = String::new();
        r.push(d);
        proof {
            assert(r@ == seq![digit(n as nat)]);
        }
        r
    } else {
        let mut r = decimal_of(n / 10);
        r.push(d);
        r
    }
}

pub fn signed_decimal_of(n: i128) -> (r: String)
    requires
        n > i128::MIN,
    ensures
        r@ == signed_decimal(n as int),
{
    if n < 0 {
        let mut r = String::new();
        r.push('-');
        let d = decimal_of((-n) as u128);
        r.append(d.as_str());
        proof {
            assert(r@ == seq!['-'] + decimal((-n) as nat));
        }
        r
    } else {
        decimal_of(n as u128)
    }
}

pub fn repeat_char(c: char, n: usize) -> (r: String)
    ensures
        r@ == repeated(c, n as nat),
{
    let mut r = String::new();
    let mut i: usize = 0;
    proof {
        assert(r@ == repeated(c, 0));
    }
    while i < n
        invariant
            i <= n,
            r@ == repeated(c, i as nat),
        decreases n - i,
    {
        r.push(c);
        i = i + 1;
        proof {
            assert(r@ == repeated(c, i as nat));
        }
    }
    r
}

/// `a` comes before `b` in lexicographic order.
pub fn comes_before(a: &str, b: &str) -> (r: bool)
    ensures
        r == precedes(a@, b@),
{
    let x = chars_of(a);
    let y = chars_of(b);
    let mut i: usize = 0;
    proof {
        assert(x@.skip(0) == x@);
        assert(y@.skip(0) == y@);
    }
    while i < x.len() && i < y.len()
        invariant
            i <= x@.len(),
            i <= y@.len(),
            precedes(a@, b@) == precedes(x@.skip(i as int), y@.skip(i as int)),
        decreases x@.len() - i,
    {
        proof {
            assert(x@.skip(i as int).drop_first() == x@.skip(i + 1));
            assert(y@.skip(i as int).drop_first() == y@.skip(i + 1));
        }
        if x[i] < y[i] {
            return true;
        }
        if x[i] != y[i] {
            return false;
        }
        i = i + 1;
    }
    i < y.len()
}

/// The lines of `s`.
pub fn lines(s: &str) -> (r: Vec<String>)
    ensures
        texts(r@) == lines_of(s@),
{
    let v = chars_of(s);
    let mut r: Vec<String> = Vec::new();
    let mut start: usize = 0;
    let mut i: usize = 0;
    proof {
        assert(v@.skip(0) == v@);
        assert(texts(r@) + lines_of(s@) == lines_of(s@));
    }
    while i < v.len()
        invariant
            start <= i <= v@.len(),
            forall|j: int| start <= j < i ==> v@[j] != '\n',
            texts(r@) + lines_of(v@.skip(start as int)) == lines_of(s@),
        decreases v@.len() - i,
    {
        if v[i] == '\n' {
            let ghost rest = v@.skip(start as int);
            let ghost line = rest.take(i - start);
            let end: usize = if i > start && v[i - 1] == '\r' { i - 1 } else { i };
            let ghost before = texts(r@);
            proof {
                lemma_index_of(rest, '\n', i - start);
                assert(without_return(line) == v@.subrange(start as int, end as int));
                assert(rest.skip(i - start + 1) == v@.skip(i + 1));
            }
            r.push(slice_to_string(&v, start, end));
            start = i + 1;
            proof {
                assert(texts(r@) == before.push(without_return(line)));
                assert(before.push(without_return(line)) + lines_of(v@.skip(start as int)) == before + (
                seq![without_return(line)] + lines_of(v@.skip(start as int))));
            }
        }
        i = i + 1;
    }
    if start < v.len() {
        let ghost rest = v@.skip(start as int);
        let ghost before = texts(r@);
        proof {
            lemma_index_of(rest, '\n', rest.len() as int);
            assert(rest == v@.subrange(start as int, v@.len() as int));
        }
        r.push(slice_to_string(&v, start, v.len()));
        proof {
            assert(texts(r@) == before + seq![rest]);
        }
    } else {
        proof {
            assert(v@.skip(start as int) == Seq::<char>::empty());
            assert(texts(r@) + Seq::<Seq<char>>::empty() == texts(r@));
        }
    }
    r
}

/// Number of bytes of `s` in UTF-8.
pub fn byte_len(s: &str) -> (n: usize)
    ensures
        n == vstd::utf8::encode_utf8(s@).len(),
{
    s.as_bytes().len()
}

/// Every character is kept.
pub open spec fn all_kept(s: Seq<char>, keep: spec_fn(char) -> bool) -> bool {
    forall|i: int| 0 <= i < s.len() ==> keep(#[trigger] s[i])
}

/// Each part is a word: not empty, and of kept characters only.
pub open spec fn all_words(parts: Seq<Seq<char>>, keep: spec_fn(char) -> bool) -> bool {
    forall|i: int| 0 <= i < parts.len() ==> (#[trigger] parts[i]).len() > 0 && all_kept(parts[i], keep)
}

pub proof fn lemma_runs_are_words(s: Seq<char>, keep: spec_fn(char) -> bool)
    ensures
        all_words(runs(s, keep), keep),
        s.len() > 0 && keep(s.last()) ==> runs(s, keep).len() > 0,
    decreases s.len(),
{
    if s.len() > 0 {
        lemma_runs_are_words(s.drop_last(), keep);
        let before = runs(s.drop_last(), keep);
        if keep(s.last()) && s.len() > 1 && keep(s[s.len() - 2]) {
            assert(s.drop_last().last() == s[s.len() - 2]);
            assert(before.last() == before[before.len() - 1]);
        }
    }
}

/// A word behind what ends in no word is a run of its own.
proof fn lemma_runs_append(p: Seq<char>, w: Seq<char>, keep: spec_fn(char) -> bool)
    requires
        p.len() > 0 ==> !keep(p.last()),
        w.len() > 0,
        all_kept(w, keep),
    ensures
        runs(p + w, keep) == runs(p, keep).push(w),
    decreases w.len(),
{
    let s = p + w;
    assert(s.last() == w[w.len() - 1]);
    if w.len() == 1 {
        assert(s.drop_last() =~= p);
        assert(w =~= seq![s.last()]);
        if s.len() > 1 {
            assert(s[s.len() - 2] == p.last());
        }
    } else {
        let v = w.drop_last();
        assert(all_kept(v, keep)) by {
            assert forall|i: int| 0 <= i < v.len() implies keep(#[trigger] v[i]) by {
                assert(v[i] == w[i]);
            }
        }
        assert(s.drop_last() =~= p + v);
        assert(s[s.len() - 2] == w[w.len() - 2]);
        lemma_runs_append(p, v, keep);
        let before = runs(p + v, keep);
        assert(before.drop_last() =~= runs(p, keep));
        assert(v.push(s.last()) =~= w);
    }
}

/// Words with a separator between them are the words that are found again.
pub proof fn lemma_runs_of_joined(parts: Seq<Seq<char>>, separator: char, keep: spec_fn(char) -> bool)
    requires
        all_words(parts, keep),
        !keep(separator),
    ensures
        runs(joined(parts, seq![separator]), keep) == parts,
    decreases parts.len(),
{
    if parts.len() == 1 {
        lemma_runs_append(Seq::empty(), parts[0], keep);
        assert(Seq::<char>::empty() + parts[0] =~= parts[0]);
        assert(runs(Seq::<char>::empty(), keep).push(parts[0]) =~= parts);
    } else if parts.len() > 1 {
        let before = parts.drop_last();
        assert(all_words(before, keep)) by {
            assert forall|i: int| 0 <= i < before.len() implies (#[trigger] before[i]).len() > 0 && all_kept(
                before[i],
                keep,
            ) by {
                assert(before[i] == parts[i]);
            }
        }
        lemma_runs_of_joined(before, separator, keep);
        let row = joined(before, seq![separator]);
        let p = row + seq![separator];
        assert(p.drop_last() =~= row);
        assert(p.last() == separator);
        assert(parts.last() == parts[parts.len() - 1]);
        lemma_runs_append(p, parts.last(), keep);
        assert(before.push(parts.last()) =~= parts);
    } else {
        assert(runs(Seq::<char>::empty(), keep) =~= parts);
    }
}

/// Making capitals small leaves a row of parts a row of parts.
pub proof fn lemma_joined_lowered(parts: Seq<Seq<char>>, separator: Seq<char>)
    requires
        ascii_lowered(separator) == separator,
    ensures
        ascii_lowered(joined(parts, separator)) == joined(
            parts.map_values(|part: Seq<char>| ascii_lowered(part)),
            separator,
        ),
    decreases parts.len(),
{
    let low = parts.map_values(|part: Seq<char>| ascii_lowered(part));
    if parts.len() > 1 {
        lemma_joined_lowered(parts.drop_last(), separator);
        assert(low.drop_last() =~= parts.drop_last().map_values(|part: Seq<char>| ascii_lowered(part)));
        let row = joined(parts.drop_last(), separator);
        assert(ascii_lowered(row + separator + parts.last()) =~= ascii_lowered(row) + ascii_lowered(separator)
            + ascii_lowered(parts.last()));
    } else if parts.len() == 0 {
        assert(ascii_lowered(Seq::empty()) =~= Seq::empty());
    }
}

/// A row of parts begins with its first part.
proof fn lemma_joined_front(parts: Seq<Seq<char>>, separator: Seq<char>)
    requires
        parts.len() > 1,
    ensures
        joined(parts, separator) == parts[0] + separator + joined(parts.drop_first(), separator),
    decreases parts.len(),
{
    let rest = parts.drop_first();
    if parts.len() == 2 {
        assert(joined(parts.drop_last(), separator) == parts[0]);
        assert(joined(rest, separator) == parts[1]);
    } else {
        lemma_joined_front(parts.drop_last(), separator);
        assert(parts.drop_last().drop_first() =~= rest.drop_last());
        assert(rest.last() == parts.last());
        let middle = joined(rest.drop_last(), separator);
        assert(parts[0] + separator + middle + separator + parts.last() =~= parts[0] + separator + (middle + separator
            + parts.last()));
    }
}

/// A line that can be written and read again: not empty, without a line feed, and without a
/// carriage return at its end.
pub open spec fn is_line(s: Seq<char>) -> bool {
    s.len() > 0 && s.last() != '\r' && forall|i: int| 0 <= i < s.len() ==> #[trigger] s[i] != '\n'
}

/// Lines with a line feed between them are the lines that are read again.
pub proof fn lemma_lines_of_joined(parts: Seq<Seq<char>>)
    requires
        forall|i: int| 0 <= i < parts.len() ==> is_line(#[trigger] parts[i]),
    ensures
        lines_of(joined(parts, seq!['\n'])) == parts,
    decreases parts.len(),
{
    let row = joined(parts, seq!['\n']);
    if parts.len() == 0 {
        assert(lines_of(row) =~= parts);
    } else {
        let first = parts[0];
        assert(is_line(first));
        if parts.len() == 1 {
            lemma_index_of(row, '\n', row.len() as int);
            assert(seq![row] =~= parts);
        } else {
            let rest = parts.drop_first();
            lemma_joined_front(parts, seq!['\n']);
            let tail = joined(rest, seq!['\n']);
            assert forall|j: int| 0 <= j < first.len() implies row[j] != '\n' by {
                assert(row[j] == first[j]);
            }
            assert(row[first.len() as int] == '\n');
            lemma_index_of(row, '\n', first.len() as int);
            assert(row.take(first.len() as int) =~= first);
            assert(row.skip(first.len() as int + 1) =~= tail);
            assert forall|i: int| 0 <= i < rest.len() implies is_line(#[trigger] rest[i]) by {
                assert(rest[i] == parts[i + 1]);
            }
            lemma_lines_of_joined(rest);
            assert(seq![first] + rest =~= parts);
        }
    }
}

/// A number is written in digits that spell it, without a zero before them.
pub proof fn law_decimals_spell_their_number(n: nat)
    ensures
        digits_value(decimal(n)) == n,
        all_digits(decimal(n)),
        decimal(n).len() > 0,
        n > 0 ==> decimal(n)[0] != '0',
    decreases n,
{
    let last = digit(n);
    assert('0' <= last <= '9');
    assert(last as nat == n % 10 + 48);
    if n < 10 {
        assert(seq![last].drop_last() =~= Seq::<char>::empty());
        assert(digits_value(Seq::empty()) == 0);
    } else {
        law_decimals_spell_their_number(n / 10);
        assert(decimal(n).drop_last() =~= decimal(n / 10));
        assert(decimal(n)[0] == decimal(n / 10)[0]);
        assert forall|i: int| 0 <= i < decimal(n).len() implies '0' <= #[trigger] decimal(n)[i] <= '9' by {
            if i < decimal(n / 10).len() {
                assert(decimal(n)[i] == decimal(n / 10)[i]);
            }
        }
    }
}

/// A whole number that is written is read again as itself, and so is its negative.
pub proof fn law_integers_are_read_as_written(n: nat)
    requires
        n <= i64::MAX,
    ensures
        integer_of_text(decimal(n)) == Some(n as i64),
        integer_of_text(signed_decimal(-(n as int))) == Some((-(n as int)) as i64),
{
    law_decimals_spell_their_number(n);
    assert('0' <= decimal(n)[0] <= '9');
    assert(decimal(n).first() == decimal(n)[0]);
    let s = seq!['-'] + decimal(n);
    assert(s.first() == '-');
    assert(s.drop_first() =~= decimal(n));
}

/// White space around a text does not count, and what stands between it is kept.
pub proof fn law_only_outer_white_space_is_trimmed(before: Seq<char>, core: Seq<char>, after: Seq<char>)
    requires
        forall|i: int| 0 <= i < before.len() ==> is_space(#[trigger] before[i]),
        forall|i: int| 0 <= i < after.len() ==> is_space(#[trigger] after[i]),
        core.len() > 0 ==> !is_space(core.first()) && !is_space(core.last()),
    ensures
        trimmed(before + core + after) == core,
{
    lemma_trim_start(before, core + after);
    assert(before + core + after =~= before + (core + after));
    if core.len() > 0 {
        assert((core + after).first() == core.first());
        assert(trim_start(core + after) == core + after);
        lemma_trim_end(core, after);
        assert(trim_end(core) == core);
    } else {
        assert(core + after =~= after);
        assert(after + Seq::<char>::empty() =~= after);
        lemma_trim_start(after, Seq::empty());
        assert(trim_start(Seq::<char>::empty()) =~= Seq::<char>::empty());
        assert(trim_end(Seq::<char>::empty()) =~= core);
    }
}

proof fn lemma_trim_start(spaces: Seq<char>, rest: Seq<char>)
    requires
        forall|i: int| 0 <= i < spaces.len() ==> is_space(#[trigger] spaces[i]),
    ensures
        trim_start(spaces + rest) == trim_start(rest),
    decreases spaces.len(),
{
    let s = spaces + rest;
    if spaces.len() > 0 {
        assert(s.first() == spaces[0]);
        assert(s.drop_first() =~= spaces.drop_first() + rest);
        assert forall|i: int| 0 <= i < spaces.drop_first().len() implies is_space(
            #[trigger] spaces.drop_first()[i],
        ) by {
            assert(spaces.drop_first()[i] == spaces[i + 1]);
        }
        lemma_trim_start(spaces.drop_first(), rest);
    } else {
        assert(s =~= rest);
    }
}

proof fn lemma_trim_end(rest: Seq<char>, spaces: Seq<char>)
    requires
        forall|i: int| 0 <= i < spaces.len() ==> is_space(#[trigger] spaces[i]),
    ensures
        trim_end(rest + spaces) == trim_end(rest),
    decreases spaces.len(),
{
    let s = rest + spaces;
    if spaces.len() > 0 {
        assert(s.last() == spaces[spaces.len() - 1]);
        assert(s.drop_last() =~= rest + spaces.drop_last());
        assert forall|i: int| 0 <= i < spaces.drop_last().len() implies is_space(#[trigger] spaces.drop_last()[i]) by {
            assert(spaces.drop_last()[i] == spaces[i]);
        }
        lemma_trim_end(rest, spaces.drop_last());
    } else {
        assert(s =~= rest);
    }
}

/// A text is split at its first separator.
pub proof fn law_texts_are_split_at_the_first_separator(before: Seq<char>, c: char, after: Seq<char>)
    requires
        forall|i: int| 0 <= i < before.len() ==> before[i] != c,
    ensures
        split_at(before.push(c) + after, c) == Some((before, after)),
        split_at(before, c) is None,
        index_of(before.push(c) + after, c) == before.len(),
{
    let s = before.push(c) + after;
    lemma_index_of(s, c, before.len() as int);
    lemma_index_of(before, c, before.len() as int);
    assert(s.take(before.len() as int) =~= before);
    assert(s.skip(before.len() as int + 1) =~= after);
}

/// Lines end at line feeds, and a carriage return before one does not count.
pub proof fn law_lines_end_at_line_feeds(line: Seq<char>, rest: Seq<char>)
    requires
        forall|i: int| 0 <= i < line.len() ==> line[i] != '\n',
    ensures
        lines_of(line.push('\n') + rest) == seq![without_return(line)] + lines_of(rest),
        line.len() > 0 ==> lines_of(line) == seq![line],
        lines_of(Seq::empty()).len() == 0,
        without_return(line.push('\r')) == line,
        line.len() > 0 && line.last() != '\r' ==> without_return(line) == line,
{
    law_texts_are_split_at_the_first_separator(line, '\n', rest);
    let s = line.push('\n') + rest;
    assert(s.take(line.len() as int) =~= line);
    assert(s.skip(line.len() as int + 1) =~= rest);
    lemma_index_of(line, '\n', line.len() as int);
    assert(line.push('\r').drop_last() =~= line);
}

/// Parts are joined in their order with the separator between neighbours.
pub proof fn law_parts_are_joined_in_order(parts: Seq<Seq<char>>, part: Seq<char>, separator: Seq<char>)
    ensures
        joined(Seq::empty(), separator).len() == 0,
        joined(seq![part], separator) == part,
        parts.len() > 0 ==> joined(parts.push(part), separator) == joined(parts, separator) + separator + part,
{
    assert(parts.push(part).drop_last() =~= parts);
}

/// Capitals of ASCII are made small, and nothing else changes.
pub proof fn law_only_ascii_capitals_are_lowered(c: char)
    ensures
        'A' <= c <= 'Z' ==> ascii_lower(c) as u32 == c as u32 + 32,
        !('A' <= c <= 'Z') ==> ascii_lower(c) == c,
        ascii_lower(ascii_lower(c)) == ascii_lower(c),
{
}

/// The last line that is not blank is found behind all that are.
pub proof fn law_the_last_full_line_is_found(all: Seq<Seq<char>>, i: int)
    requires
        0 <= i < all.len(),
        trimmed(all[i]).len() > 0,
        forall|j: int| i < j < all.len() ==> trimmed(#[trigger] all[j]).len() == 0,
    ensures
        last_full(all) == Some(trimmed(all[i])),
    decreases all.len(),
{
    if i < all.len() - 1 {
        assert(trimmed(all[all.len() - 1]).len() == 0);
        let before = all.drop_last();
        assert(before[i] == all[i]);
        assert forall|j: int| i < j < before.len() implies trimmed(#[trigger] before[j]).len() == 0 by {
            assert(before[j] == all[j]);
        }
        law_the_last_full_line_is_found(before, i);
    }
}

} // verus!
