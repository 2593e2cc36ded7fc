//! Character-level helpers shared by the parsers and formatters of the crate.
use vstd::prelude::*;
use vstd::utf8::is_ascii_chars;

verus! {

/// The ASCII lowercase of one character: `A`..`Z` become `a`..`z`, all others stay.
pub open spec fn ascii_lower_char(c: char) -> char {
    if 'A' <= c && c <= 'Z' {
        ((c as int) + 32) as char
    } else {
        c
    }
}

/// The ASCII lowercase of a character sequence.
pub open spec fn ascii_lower(s: Seq<char>) -> Seq<char> {
    Seq::new(s.len(), |i: int| ascii_lower_char(s[i]))
}

/// What `str::to_lowercase` returns for a given text (Unicode lowercase mapping).
pub uninterp spec fn unicode_lowercase(s: Seq<char>) -> Seq<char>;

/// The lowercase of a text as `str::to_lowercase` gives it: the ASCII mapping on ASCII text.
pub open spec fn lowercase_of(s: Seq<char>) -> Seq<char> {
    if is_ascii_chars(s) {
        ascii_lower(s)
    } else {
        unicode_lowercase(s)
    }
}

/// A text of ASCII characters none of which is an uppercase letter is its own lowercase.
pub proof fn lemma_lowercase_fixed(s: Seq<char>)
    requires
        is_ascii_chars(s),
        forall|i: int| 0 <= i < s.len() ==> !('A' <= #[trigger] s[i] && s[i] <= 'Z'),
    ensures
        lowercase_of(s) == s,
{
    assert(ascii_lower(s) =~= s);
}

/// Lowercasing an ASCII text gives an ASCII text, which lowercasing again leaves as it is.
pub proof fn lemma_lowercase_idempotent_ascii(s: Seq<char>)
    requires
        is_ascii_chars(s),
    ensures
        is_ascii_chars(lowercase_of(s)),
        lowercase_of(lowercase_of(s)) == lowercase_of(s),
{
    let l = ascii_lower(s);
    assert forall|i: int| 0 <= i < l.len() implies '\0' <= #[trigger] l[i] <= '\u{7f}' by {
        assert(l[i] == ascii_lower_char(s[i]));
    }
    assert forall|i: int| 0 <= i < l.len() implies !('A' <= #[trigger] l[i] && l[i] <= 'Z') by {
        assert(l[i] == ascii_lower_char(s[i]));
    }
    lemma_lowercase_fixed(l);
}

/// Calls `str::to_lowercase`. Its result is the Unicode lowercase of the input, which is a
/// function of the input alone; on ASCII input it maps `A`..`Z` to `a`..`z` and keeps every
/// other character, as the Unicode lowercase mapping of ASCII does.
#[verifier::external_body]
pub(crate) fn to_lowercase(s: &str) -> (r: String)
    ensures
        r@ == unicode_lowercase(s@),
        is_ascii_chars(s@) ==> r@ == ascii_lower(s@),
{
    s.to_lowercase()
}

/// Calls `str::chars` and collects the characters.
#[verifier::external_body]
pub(crate) fn chars_of(s: &str) -> (r: Vec<char>)
    ensures
        r@ == s@,
{
    s.chars().collect()
}

/// Calls `String::push`.
#[verifier::external_body]
pub(crate) fn push_char(s: &mut String, c: char)
    ensures
        final(s)@ == old(s)@.push(c),
{
    s.push(c)
}

/// Equality of two texts, character by character.
pub fn str_eq(a: &str, b: &str) -> (r: bool)
    ensures
        r == (a@ == b@),
{
    let x = chars_of(a);
    let y = chars_of(b);
    if x.len() != y.len() {
        return false;
    }
    let mut i: usize = 0;
    while i < x.len()
        invariant
            x@ == a@,
            y@ == b@,
            x.len() == y.len(),
            i <= x.len(),
            forall|j: int| 0 <= j < i ==> x@[j] == y@[j],
        decreases x.len() - i,
    {
        if x[i] != y[i] {
            return false;
        }
        i = i + 1;
    }
    assert(a@ =~= b@);
    true
}

/// A `String` holding the characters of `s`.
pub fn to_string_of(s: &str) -> (r: String)
    ensures
        r@ == s@,
{
    s.to_owned()
}

/// The parts of `parts` joined with `sep` between consecutive parts.
pub open spec fn join_seq(parts: Seq<Seq<char>>, sep: char) -> Seq<char>
    decreases parts.len(),
{
    if parts.len() == 0 {
        Seq::empty()
    } else if parts.len() == 1 {
        parts[0]
    } else {
        join_seq(parts.drop_last(), sep) + seq![sep] + parts.last()
    }
}

/// No part contains `sep`.
pub open spec fn parts_free_of(parts: Seq<Seq<char>>, sep: char) -> bool {
    forall|i: int| 0 <= i < parts.len() ==> !(#[trigger] parts[i]).contains(sep)
}

/// `s.split(sep)`: the unique non-empty sequence of `sep`-free parts whose join is `s`.
pub open spec fn is_split_of(parts: Seq<Seq<char>>, s: Seq<char>, sep: char) -> bool {
    &&& parts.len() >= 1
    &&& parts_free_of(parts, sep)
    &&& join_seq(parts, sep) == s
}

/// A join of `sep`-free parts contains `sep` exactly when there are two parts or more.
pub proof fn lemma_join_contains(parts: Seq<Seq<char>>, sep: char)
    requires
        parts.len() >= 1,
        parts_free_of(parts, sep),
    ensures
        join_seq(parts, sep).contains(sep) <==> parts.len() > 1,
        parts.len() > 1 ==> join_seq(parts, sep)[join_seq(parts.drop_last(), sep).len() as int] == sep,
{
    if parts.len() > 1 {
        let j = join_seq(parts.drop_last(), sep);
        assert((j + seq![sep] + parts.last())[j.len() as int] == sep);
    } else {
        assert(!parts[0].contains(sep));
    }
}

/// The last `sep` of a join of `sep`-free parts is the one before the last part.
proof fn lemma_join_last_sep(parts: Seq<Seq<char>>, sep: char, k: int)
    requires
        parts.len() > 1,
        parts_free_of(parts, sep),
        0 <= k < join_seq(parts, sep).len(),
        join_seq(parts, sep)[k] == sep,
    ensures
        k <= join_seq(parts.drop_last(), sep).len(),
{
    let j = join_seq(parts.drop_last(), sep);
    let full = j + seq![sep] + parts.last();
    if k > j.len() {
        assert(parts.last()[k - j.len() - 1] == sep);
        assert(parts.last().contains(sep));
        assert(parts_free_of(parts, sep));
        assert(parts[parts.len() - 1] == parts.last());
    }
}

/// A text has one split only.
pub proof fn lemma_split_unique(p: Seq<Seq<char>>, q: Seq<Seq<char>>, sep: char)
    requires
        p.len() >= 1,
        q.len() >= 1,
        parts_free_of(p, sep),
        parts_free_of(q, sep),
        join_seq(p, sep) == join_seq(q, sep),
    ensures
        p == q,
    decreases p.len(),
{
    lemma_join_contains(p, sep);
    lemma_join_contains(q, sep);
    if p.len() == 1 {
        assert(q.len() == 1);
        assert(p =~= q);
    } else {
        assert(q.len() > 1);
        let s = join_seq(p, sep);
        let jp = join_seq(p.drop_last(), sep);
        let jq = join_seq(q.drop_last(), sep);
        lemma_join_last_sep(q, sep, jp.len() as int);
        lemma_join_last_sep(p, sep, jq.len() as int);
        assert(jp.len() == jq.len());
        assert(jp =~= s.subrange(0, jp.len() as int));
        assert(jq =~= s.subrange(0, jq.len() as int));
        assert(p.last() =~= s.subrange(jp.len() as int + 1, s.len() as int));
        assert(q.last() =~= s.subrange(jq.len() as int + 1, s.len() as int));
        assert(parts_free_of(p.drop_last(), sep)) by {
            assert forall|i: int| 0 <= i < p.drop_last().len() implies !(#[trigger] p.drop_last()[i]).contains(sep) by {
                assert(p.drop_last()[i] == p[i]);
            }
        }
        assert(parts_free_of(q.drop_last(), sep)) by {
            assert forall|i: int| 0 <= i < q.drop_last().len() implies !(#[trigger] q.drop_last()[i]).contains(sep) by {
                assert(q.drop_last()[i] == q[i]);
            }
        }
        lemma_split_unique(p.drop_last(), q.drop_last(), sep);
        assert(p =~= q.drop_last().push(q.last()));
        assert(q =~= q.drop_last().push(q.last()));
    }
}

/// Joining after appending a character to the last part appends the character to the join.
proof fn lemma_join_extend_last(parts: Seq<Seq<char>>, sep: char, c: char)
    requires
        parts.len() >= 1,
    ensures
        join_seq(parts.update(parts.len() - 1, parts.last().push(c)), sep) == join_seq(parts, sep).push(c),
{
    let q = parts.update(parts.len() - 1, parts.last().push(c));
    if parts.len() > 1 {
        assert(q.drop_last() =~= parts.drop_last());
    }
}

/// Joining after adding an empty part appends `sep` to the join.
proof fn lemma_join_push_empty(parts: Seq<Seq<char>>, sep: char)
    requires
        parts.len() >= 1,
    ensures
        join_seq(parts.push(Seq::empty()), sep) == join_seq(parts, sep).push(sep),
{
    let q = parts.push(Seq::<char>::empty());
    assert(q.drop_last() =~= parts);
    assert(join_seq(parts, sep) + seq![sep] + Seq::<char>::empty() =~= join_seq(parts, sep).push(sep));
}

/// The views of a vector of strings.
pub open spec fn strings_view(v: Seq<String>) -> Seq<Seq<char>> {
    Seq::new(v.len(), |i: int| v[i]@)
}

/// `s.split(sep)`, collected into owned strings.
pub fn split_char(s: &str, sep: char) -> (r: Vec<String>)
    ensures
        is_split_of(strings_view(r@), s@, sep),
{
    let cs = chars_of(s);
    let mut parts: Vec<String> = Vec::new();
    let mut cur = String::new();
    let mut i: usize = 0;
    proof {
        assert(strings_view(parts@).push(cur@) =~= seq![Seq::<char>::empty()]);
        assert(cs@.subrange(0, 0) =~= Seq::<char>::empty());
    }
    while i < cs.len()
        invariant
            cs@ == s@,
            i <= cs.len(),
            parts_free_of(strings_view(parts@).push(cur@), sep),
            join_seq(strings_view(parts@).push(cur@), sep) == cs@.subrange(0, i as int),
        decreases cs.len() - i,
    {
        let c = cs[i];
        let ghost before = strings_view(parts@).push(cur@);
        if c == sep {
            parts.push(cur);
            cur = String::new();
            proof {
                assert(strings_view(parts@).push(cur@) =~= before.push(Seq::empty()));
                lemma_join_push_empty(before, sep);
                assert(cs@.subrange(0, i + 1) =~= cs@.subrange(0, i as int).push(sep));
                assert forall|k: int| 0 <= k < before.push(Seq::<char>::empty()).len() implies
                    !(#[trigger] before.push(Seq::<char>::empty())[k]).contains(sep) by {
                    if k < before.len() {
                        assert(before.push(Seq::<char>::empty())[k] == before[k]);
                    }
                }
            }
        } else {
            push_char(&mut cur, c);
            proof {
                assert(strings_view(parts@).push(cur@) =~= before.update(before.len() - 1, before.last().push(c)));
                lemma_join_extend_last(before, sep, c);
                assert(cs@.subrange(0, i + 1) =~= cs@.subrange(0, i as int).push(c));
                let after = before.update(before.len() - 1, before.last().push(c));
                assert forall|k: int| 0 <= k < after.len() implies !(#[trigger] after[k]).contains(sep) by {
                    if k < before.len() - 1 {
                        assert(after[k] == before[k]);
                    } else {
                        assert(!before[k].contains(sep));
                        if after[k].contains(sep) {
                            let m = choose|m: int| 0 <= m < after[k].len() && after[k][m] == sep;
                            assert(before[k][m] == sep);
                        }
                    }
                }
            }
        }
        i = i + 1;
    }
    let ghost fin = strings_view(parts@).push(cur@);
    parts.push(cur);
    proof {
        assert(cs@.subrange(0, cs.len() as int) =~= cs@);
        assert(strings_view(parts@) =~= fin);
    }
    parts
}

/// `p` is a prefix of `s`.
pub open spec fn has_prefix(s: Seq<char>, p: Seq<char>) -> bool {
    p.len() <= s.len() && s.subrange(0, p.len() as int) == p
}

/// `p` is a suffix of `s`.
pub open spec fn has_suffix(s: Seq<char>, p: Seq<char>) -> bool {
    p.len() <= s.len() && s.subrange(s.len() - p.len(), s.len() as int) == p
}

/// `s.starts_with(p)`.
pub fn starts_with(s: &str, p: &str) -> (r: bool)
    ensures
        r == has_prefix(s@, p@),
{
    let a = chars_of(s);
    let b = chars_of(p);
    if b.len() > a.len() {
        return false;
    }
    let mut i: usize = 0;
    while i < b.len()
        invariant
            a@ == s@,
            b@ == p@,
            b.len() <= a.len(),
            i <= b.len(),
            forall|j: int| 0 <= j < i ==> a@[j] == b@[j],
        decreases b.len() - i,
    {
        if a[i] != b[i] {
            assert(s@.subrange(0, p@.len() as int)[i as int] != p@[i as int]);
            return false;
        }
        i = i + 1;
    }
    assert(s@.subrange(0, p@.len() as int) =~= p@);
    true
}

/// `s.ends_with(p)`.
pub fn ends_with(s: &str, p: &str) -> (r: bool)
    ensures
        r == has_suffix(s@, p@),
{
    let a = chars_of(s);
    let b = chars_of(p);
    if b.len() > a.len() {
        return false;
    }
    let off = a.len() - b.len();
    let mut i: usize = 0;
    while i < b.len()
        invariant
            a@ == s@,
            b@ == p@,
            b.len() <= a.len(),
            off == a.len() - b.len(),
            i <= b.len(),
            forall|j: int| 0 <= j < i ==> a@[off + j] == b@[j],
        decreases b.len() - i,
    {
        if a[off + i] != b[i] {
            assert(s@.subrange(off as int, s@.len() as int)[i as int] != p@[i as int]);
            return false;
        }
        i = i + 1;
    }
    assert(s@.subrange(off as int, s@.len() as int) =~= p@);
    true
}

/// `s` with every `from` replaced by `to`.
pub open spec fn replace_all(s: Seq<char>, from: char, to: char) -> Seq<char> {
    Seq::new(s.len(), |i: int| if s[i] == from { to } else { s[i] })
}

/// `s.replace(from, to)` for one-character patterns.
pub fn replace_char(s: &str, from: char, to: char) -> (r: String)
    ensures
        r@ == replace_all(s@, from, to),
{
    let cs = chars_of(s);
    let mut out = String::new();
    let mut i: usize = 0;
    while i < cs.len()
        invariant
            cs@ == s@,
            i <= cs.len(),
            out@ == replace_all(s@, from, to).subrange(0, i as int),
        decreases cs.len() - i,
    {
        let c = cs[i];
        if c == from {
            push_char(&mut out, to);
        } else {
            push_char(&mut out, c);
        }
        assert(out@ =~= replace_all(s@, from, to).subrange(0, i + 1));
        i = i + 1;
    }
    assert(out@ =~= replace_all(s@, from, to));
    out
}

/// `s` without its leading `c` characters.
pub open spec fn strip_front(s: Seq<char>, c: char) -> Seq<char>
    decreases s.len(),
{
    if s.len() > 0 && s[0] == c {
        strip_front(s.drop_first(), c)
    } else {
        s
    }
}

/// `s` without its trailing `c` characters.
pub open spec fn strip_back(s: Seq<char>, c: char) -> Seq<char>
    decreases s.len(),
{
    if s.len() > 0 && s.last() == c {
        strip_back(s.drop_last(), c)
    } else {
        s
    }
}

/// `s.trim_matches(c)`.
pub open spec fn trim_seq(s: Seq<char>, c: char) -> Seq<char> {
    strip_back(strip_front(s, c), c)
}

proof fn lemma_strip_front(s: Seq<char>, c: char, a: int)
    requires
        0 <= a <= s.len(),
        forall|j: int| 0 <= j < a ==> s[j] == c,
        a == s.len() || s[a] != c,
    ensures
        strip_front(s, c) == s.subrange(a, s.len() as int),
    decreases a,
{
    if a > 0 {
        lemma_strip_front(s.drop_first(), c, a - 1);
        assert(s.drop_first().subrange(a - 1, s.len() - 1) =~= s.subrange(a, s.len() as int));
    } else {
        assert(s.subrange(0, s.len() as int) =~= s);
    }
}

proof fn lemma_strip_back(s: Seq<char>, c: char, b: int)
    requires
        0 <= b <= s.len(),
        forall|j: int| b <= j < s.len() ==> s[j] == c,
        b == 0 || s[b - 1] != c,
    ensures
        strip_back(s, c) == s.subrange(0, b),
    decreases s.len() - b,
{
    if b < s.len() {
        lemma_strip_back(s.drop_last(), c, b);
        assert(s.drop_last().subrange(0, b) =~= s.subrange(0, b));
    } else {
        assert(s.subrange(0, s.len() as int) =~= s);
    }
}

/// `s.trim_matches(c)`, as an owned string.
pub fn trim_char(s: &str, c: char) -> (r: String)
    ensures
        r@ == trim_seq(s@, c),
{
    let cs = chars_of(s);
    let mut a: usize = 0;
    while a < cs.len() && cs[a] == c
        invariant
            cs@ == s@,
            a <= cs.len(),
            forall|j: int| 0 <= j < a ==> cs@[j] == c,
        decreases cs.len() - a,
    {
        a = a + 1;
    }
    proof {
        lemma_strip_front(s@, c, a as int);
    }
    let ghost front = s@.subrange(a as int, s@.len() as int);
    let mut b: usize = cs.len();
    while b > a && cs[b - 1] == c
        invariant
            cs@ == s@,
            a <= b <= cs.len(),
            forall|j: int| b <= j < cs.len() ==> cs@[j] == c,
        decreases b,
    {
        b = b - 1;
    }
    proof {
        assert forall|j: int| b - a <= j < front.len() implies front[j] == c by {
            assert(front[j] == cs@[a + j]);
        }
        lemma_strip_back(front, c, b - a);
        assert(front.subrange(0, b - a) =~= s@.subrange(a as int, b as int));
    }
    let mut out = String::new();
    let mut i: usize = a;
    while i < b
        invariant
            cs@ == s@,
            a <= i <= b <= cs.len(),
            out@ == s@.subrange(a as int, i as int),
        decreases b - i,
    {
        push_char(&mut out, cs[i]);
        assert(out@ =~= s@.subrange(a as int, i + 1));
        i = i + 1;
    }
    out
}

/// The decimal digit for `d` (`0 <= d < 10`).
pub open spec fn digit_char(d: int) -> char {
    (('0' as int) + d) as char
}

/// The decimal representation of a natural number, as `u64::to_string` writes it.
pub open spec fn decimal(n: nat) -> Seq<char>
    decreases n,
{
    if n < 10 {
        seq![digit_char(n as int)]
    } else {
        decimal(n / 10).push(digit_char((n % 10) as int))
    }
}

fn digit_of(d: u64) -> (c: char)
    requires
        d < 10,
    ensures
        c == digit_char(d as int),
{
    if d == 0 { '0' }
    else if d == 1 { '1' }
    else if d == 2 { '2' }
    else if d == 3 { '3' }
    else if d == 4 { '4' }
    else if d == 5 { '5' }
    else if d == 6 { '6' }
    else if d == 7 { '7' }
    else if d == 8 { '8' }
    else { '9' }
}

/// `n.to_string()`.
pub fn u64_to_decimal(n: u64) -> (r: String)
    ensures
        r@ == decimal(n as nat),
{
    let mut rev: Vec<char> = Vec::new();
    let mut m: u64 = n;
    while m >= 10
        invariant
            decimal(n as nat) == decimal(m as nat) + rev@.reverse(),
        decreases m,
    {
        let d = digit_of(m % 10);
        proof {
            assert(rev@.push(d).reverse() =~= seq![d] + rev@.reverse());
            assert(decimal(m as nat) == decimal((m / 10) as nat).push(d));
            assert(decimal((m / 10) as nat).push(d) + rev@.reverse() =~= decimal((m / 10) as nat) + (seq![d] + rev@.reverse()));
        }
        rev.push(d);
        m = m / 10;
    }
    let d = digit_of(m);
    proof {
        assert(rev@.push(d).reverse() =~= seq![d] + rev@.reverse());
    }
    rev.push(d);
    let mut out = String::new();
    let mut i: usize = rev.len();
    while i > 0
        invariant
            i <= rev.len(),
            decimal(n as nat) == rev@.reverse(),
            out@ == rev@.reverse().subrange(0, rev.len() - i),
        decreases i,
    {
        i = i - 1;
        push_char(&mut out, rev[i]);
        assert(out@ =~= rev@.reverse().subrange(0, rev.len() - i));
    }
    assert(out@ =~= rev@.reverse());
    out
}

/// The lowercase hexadecimal digit for `d` (`0 <= d < 16`).
pub open spec fn hex_char(d: int) -> char {
    if d < 10 {
        (('0' as int) + d) as char
    } else {
        (('a' as int) + d - 10) as char
    }
}

/// `format!("{:04x}", n)` for a 16-bit number: four lowercase hexadecimal digits.
pub open spec fn hex4(n: u16) -> Seq<char> {
    seq![
        hex_char((n / 4096) as int),
        hex_char(((n / 256) % 16) as int),
        hex_char(((n / 16) % 16) as int),
        hex_char((n % 16) as int),
    ]
}

fn hex_digit_of(d: u16) -> (c: char)
    requires
        d < 16,
    ensures
        c == hex_char(d as int),
{
    if d < 10 {
        digit_of(d as u64)
    } else if d == 10 { 'a' }
    else if d == 11 { 'b' }
    else if d == 12 { 'c' }
    else if d == 13 { 'd' }
    else if d == 14 { 'e' }
    else { 'f' }
}

/// `format!("{:04x}", n)`.
pub fn hex4_string(n: u16) -> (r: String)
    ensures
        r@ == hex4(n),
{
    let mut out = String::new();
    push_char(&mut out, hex_digit_of(n / 4096));
    push_char(&mut out, hex_digit_of((n / 256) % 16));
    push_char(&mut out, hex_digit_of((n / 16) % 16));
    push_char(&mut out, hex_digit_of(n % 16));
    assert(out@ =~= hex4(n));
    out
}

/// `a + b`, as a new string.
pub fn concat2(a: &str, b: &str) -> (r: String)
    ensures
        r@ == a@ + b@,
{
    let mut s = to_string_of(a);
    s.append(b);
    s
}

/// `a + b + c`, as a new string.
pub fn concat3(a: &str, b: &str, c: &str) -> (r: String)
    ensures
        r@ == a@ + b@ + c@,
{
    let mut s = to_string_of(a);
    s.append(b);
    s.append(c);
    s
}

/// The characters `a..b` of `cs`, as a string.
pub fn slice_chars(cs: &Vec<char>, a: usize, b: usize) -> (r: String)
    requires
        a <= b <= cs@.len(),
    ensures
        r@ == cs@.subrange(a as int, b as int),
{
    let mut out = String::new();
    let mut i: usize = a;
    while i < b
        invariant
            a <= i <= b <= cs@.len(),
            out@ == cs@.subrange(a as int, i as int),
        decreases b - i,
    {
        push_char(&mut out, cs[i]);
        assert(out@ =~= cs@.subrange(a as int, i + 1));
        i = i + 1;
    }
    out
}

/// What `format!("{:?}", s)` gives for a text: the text quoted, with escapes.
pub uninterp spec fn debug_text(s: Seq<char>) -> Seq<char>;

/// Writes a text with the `Debug` format of `str` (quoted, with escapes). The result is a
/// function of the text alone.
#[verifier::external_body]
pub(crate) fn debug_of(s: &str) -> (r: String)
    ensures
        r@ == debug_text(s@),
{
    format!("{:?}", s)
}

/// The position of the last `c` in `s`, or -1.
pub open spec fn last_index_of(s: Seq<char>, c: char) -> int
    decreases s.len(),
{
    if s.len() == 0 {
        -1
    } else if s.last() == c {
        s.len() - 1
    } else {
        last_index_of(s.drop_last(), c)
    }
}

proof fn lemma_last_index_of(s: Seq<char>, c: char, i: int)
    requires
        -1 <= i < s.len(),
        forall|j: int| i < j < s.len() ==> s[j] != c,
        i == -1 || s[i] == c,
    ensures
        last_index_of(s, c) == i,
    decreases s.len(),
{
    if s.len() > 0 && s.last() != c {
        lemma_last_index_of(s.drop_last(), c, i);
    }
}

/// The stem and extension of a file name, as `Path::file_stem` and `Path::extension` give
/// them: split at the last `.`, unless the name is `..`, has no `.`, or has its only leading
/// `.` at the start.
pub open spec fn file_parts(name: Seq<char>) -> (Seq<char>, Option<Seq<char>>) {
    let i = last_index_of(name, '.');
    if name == ".."@ || i <= 0 {
        (name, None)
    } else {
        (name.subrange(0, i), Some(name.subrange(i + 1, name.len() as int)))
    }
}

/// The stem and extension of a file name.
pub fn split_file_name(name: &str) -> (r: (String, Option<String>))
    ensures
        (r.0@, match r.1 {
            Some(e) => Some(e@),
            None => None,
        }) == file_parts(name@),
{
    let cs = chars_of(name);
    let mut i: usize = cs.len();
    while i > 0 && cs[i - 1] != '.'
        invariant
            cs@ == name@,
            i <= cs@.len(),
            forall|j: int| i <= j < cs@.len() ==> cs@[j] != '.',
        decreases i,
    {
        i = i - 1;
    }
    proof {
        lemma_last_index_of(name@, '.', i - 1);
    }
    if str_eq(name, "..") || i <= 1 {
        (to_string_of(name), None)
    } else {
        let stem = slice_chars(&cs, 0, i - 1);
        let ext = slice_chars(&cs, i, cs.len());
        (stem, Some(ext))
    }
}

} // verus!
