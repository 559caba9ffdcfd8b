//! Character-level text utilities: whitespace, line and word splitting,
//! decimal rendering and parsing, all stated over `Seq<char>`.

use vstd::prelude::*;

verus! {

/// `char::is_whitespace`: the Unicode `White_Space` property.
pub open spec fn is_ws(c: char) -> bool {
    let n = c as u32;
    ||| 0x09 <= n <= 0x0d
    ||| n == 0x20
    ||| n == 0x85
    ||| n == 0xa0
    ||| n == 0x1680
    ||| 0x2000 <= n <= 0x200a
    ||| n == 0x2028
    ||| n == 0x2029
    ||| n == 0x202f
    ||| n == 0x205f
    ||| n == 0x3000
}

pub fn char_is_ws(c: char) -> (res: bool)
    ensures
        res == is_ws(c),
{
    let n: u32 = c as u32;
    (0x09 <= n && n <= 0x0d) || n == 0x20 || n == 0x85 || n == 0xa0 || n == 0x1680 || (0x2000
        <= n && n <= 0x200a) || n == 0x2028 || n == 0x2029 || n == 0x202f || n == 0x205f || n
        == 0x3000
}

/// The characters of a string slice, in order.
pub fn chars_of(s: &str) -> (res: Vec<char>)
    ensures
        res@ == s@,
{
    let mut out: Vec<char> = Vec::new();
    for c in it: s.chars()
        invariant
            out@ == it.seq().take(it.index() as int),
    {
        out.push(c);
    }
    out
}


/// The views of a sequence of character vectors.
pub open spec fn views(v: Seq<Vec<char>>) -> Seq<Seq<char>> {
    v.map_values(|w: Vec<char>| w@)
}

/// The word collected so far, as a list of at most one word.
pub open spec fn flush(cur: Seq<char>) -> Seq<Seq<char>> {
    if cur.len() > 0 {
        seq![cur]
    } else {
        seq![]
    }
}

/// Words of `s` (maximal runs of non-whitespace), given that `cur` has
/// already been read as the start of the current word.
pub open spec fn words_from(s: Seq<char>, cur: Seq<char>) -> Seq<Seq<char>>
    decreases s.len(),
{
    if s.len() == 0 {
        flush(cur)
    } else if is_ws(s[0]) {
        flush(cur) + words_from(s.drop_first(), seq![])
    } else {
        words_from(s.drop_first(), cur.push(s[0]))
    }
}

/// `str::split_whitespace`.
pub open spec fn words(s: Seq<char>) -> Seq<Seq<char>> {
    words_from(s, seq![])
}

/// A line as `str::lines` yields it: one trailing carriage return is
/// dropped when the line was ended by a line feed.
pub open spec fn strip_cr(line: Seq<char>) -> Seq<char> {
    if line.len() > 0 && line.last() == '\r' {
        line.drop_last()
    } else {
        line
    }
}

/// Lines of `s`, given that `cur` has already been read as the start of
/// the current line.
pub open spec fn lines_from(s: Seq<char>, cur: Seq<char>) -> Seq<Seq<char>>
    decreases s.len(),
{
    if s.len() == 0 {
        flush(cur)
    } else if s[0] == '\n' {
        seq![strip_cr(cur)] + lines_from(s.drop_first(), seq![])
    } else {
        lines_from(s.drop_first(), cur.push(s[0]))
    }
}

/// `str::lines`.
pub open spec fn lines(s: Seq<char>) -> Seq<Seq<char>> {
    lines_from(s, seq![])
}

/// Whitespace removed from the front.
pub open spec fn trim_start(s: Seq<char>) -> Seq<char>
    decreases s.len(),
{
    if s.len() > 0 && is_ws(s[0]) {
        trim_start(s.drop_first())
    } else {
        s
    }
}

/// Whitespace removed from the back.
pub open spec fn trim_end(s: Seq<char>) -> Seq<char>
    decreases s.len(),
{
    if s.len() > 0 && is_ws(s.last()) {
        trim_end(s.drop_last())
    } else {
        s
    }
}

/// `str::trim`.
pub open spec fn trim(s: Seq<char>) -> Seq<char> {
    trim_end(trim_start(s))
}

/// `Iterator::collect` into a `String` (std's `FromIterator<&char>`): the
/// string whose characters are those of `v`, in order.
#[verifier::external_body]
pub(crate) fn string_from_chars(v: &Vec<char>) -> (res: String)
    ensures
        res@ == v@,
{
    v.iter().collect()
}

/// `str::split_whitespace`, collected.
pub fn split_words(s: &Vec<char>) -> (res: Vec<Vec<char>>)
    ensures
        views(res@) == words(s@),
{
    let mut out: Vec<Vec<char>> = Vec::new();
    let mut cur: Vec<char> = Vec::new();
    let mut i: usize = 0;
    assert(s@.skip(0) == s@);
    while i < s.len()
        invariant
            i <= s.len(),
            views(out@) + words_from(s@.skip(i as int), cur@) == words(s@),
        decreases s.len() - i,
    {
        let c = s[i];
        let ghost rest = s@.skip(i as int);
        assert(rest[0] == c);
        assert(rest.drop_first() == s@.skip(i + 1));
        let ghost o = views(out@);
        let ghost cv = cur@;
        if char_is_ws(c) {
            if cur.len() > 0 {
                out.push(cur);
                assert(views(out@) == o + seq![cv]);
            } else {
                assert(views(out@) == o);
            }
            assert(views(out@) == o + flush(cv));
            assert(words_from(rest, cv) == flush(cv) + words_from(s@.skip(i + 1), seq![]));
            assert(o + (flush(cv) + words_from(s@.skip(i + 1), seq![])) == (o + flush(cv))
                + words_from(s@.skip(i + 1), seq![]));
            cur = Vec::new();
        } else {
            cur.push(c);
        }
        i = i + 1;
    }
    let ghost o = views(out@);
    let ghost cv = cur@;
    assert(s@.skip(i as int).len() == 0);
    if cur.len() > 0 {
        out.push(cur);
        assert(views(out@) == o + seq![cv]);
    } else {
        assert(views(out@) == o);
    }
    out
}


/// `str::lines`, collected.
pub fn split_lines(s: &Vec<char>) -> (res: Vec<Vec<char>>)
    ensures
        views(res@) == lines(s@),
{
    let mut out: Vec<Vec<char>> = Vec::new();
    let mut cur: Vec<char> = Vec::new();
    let mut i: usize = 0;
    assert(s@.skip(0) == s@);
    while i < s.len()
        invariant
            i <= s.len(),
            views(out@) + lines_from(s@.skip(i as int), cur@) == lines(s@),
        decreases s.len() - i,
    {
        let c = s[i];
        let ghost rest = s@.skip(i as int);
        assert(rest[0] == c);
        assert(rest.drop_first() == s@.skip(i + 1));
        let ghost o = views(out@);
        let ghost cv = cur@;
        if c == '\n' {
            let line = without_final_cr(&cur);
            out.push(line);
            assert(views(out@) == o + seq![strip_cr(cv)]);
            assert(o + (seq![strip_cr(cv)] + lines_from(s@.skip(i + 1), seq![])) == (o
                + seq![strip_cr(cv)]) + lines_from(s@.skip(i + 1), seq![]));
            cur = Vec::new();
        } else {
            cur.push(c);
        }
        i = i + 1;
    }
    let ghost o = views(out@);
    let ghost cv = cur@;
    assert(s@.skip(i as int).len() == 0);
    if cur.len() > 0 {
        out.push(cur);
        assert(views(out@) == o + seq![cv]);
    } else {
        assert(views(out@) == o);
    }
    out
}

fn without_final_cr(v: &Vec<char>) -> (res: Vec<char>)
    ensures
        res@ == strip_cr(v@),
{
    let n = v.len();
    let end = if n > 0 && v[n - 1] == '\r' {
        n - 1
    } else {
        n
    };
    let res = take_chars(v, end);
    assert(res@ == v@.take(end as int));
    res
}

/// The first `n` characters.
pub fn take_chars(v: &Vec<char>, n: usize) -> (res: Vec<char>)
    requires
        n <= v.len(),
    ensures
        res@ == v@.take(n as int),
{
    slice_chars(v, 0, n)
}

/// The characters in `[from, to)`.
pub fn slice_chars(v: &Vec<char>, from: usize, to: usize) -> (res: Vec<char>)
    requires
        from <= to <= v.len(),
    ensures
        res@ == v@.subrange(from as int, to as int),
{
    let mut out: Vec<char> = Vec::new();
    let mut i = from;
    while i < to
        invariant
            from <= i <= to <= v.len(),
            out@ == v@.subrange(from as int, i as int),
        decreases to - i,
    {
        out.push(v[i]);
        i = i + 1;
    }
    out
}

/// `str::trim`, on characters.
pub fn trim_chars(v: &Vec<char>) -> (res: Vec<char>)
    ensures
        res@ == trim(v@),
{
    let n = v.len();
    let mut i: usize = 0;
    assert(v@.skip(0) =~= v@);
    while i < n && char_is_ws(v[i])
        invariant
            i <= n == v.len(),
            trim_start(v@.skip(i as int)) == trim_start(v@),
        decreases n - i,
    {
        assert(v@.skip(i as int).drop_first() == v@.skip(i + 1));
        i = i + 1;
    }
    assert(trim_start(v@) == v@.skip(i as int));
    let ghost front = v@.skip(i as int);
    let mut j: usize = n;
    while j > i && char_is_ws(v[j - 1])
        invariant
            i <= j <= n == v.len(),
            front == v@.skip(i as int),
            trim_end(v@.subrange(i as int, j as int)) == trim_end(front),
        decreases j,
    {
        assert(v@.subrange(i as int, j as int).drop_last() == v@.subrange(i as int, j - 1));
        j = j - 1;
    }
    slice_chars(v, i, j)
}


/// Whether two character vectors are equal.
pub fn chars_eq(a: &Vec<char>, b: &Vec<char>) -> (res: bool)
    ensures
        res == (a@ == b@),
{
    if a.len() != b.len() {
        return false;
    }
    let mut i: usize = 0;
    while i < a.len()
        invariant
            i <= a.len() == b.len(),
            forall|k: int| 0 <= k < i ==> a@[k] == b@[k],
        decreases a.len() - i,
    {
        if a[i] != b[i] {
            return false;
        }
        i = i + 1;
    }
    assert(a@ =~= b@);
    true
}

/// Whether a character vector spells a string slice.
pub fn chars_eq_str(a: &Vec<char>, b: &str) -> (res: bool)
    ensures
        res == (a@ == b@),
{
    let bv = chars_of(b);
    chars_eq(a, &bv)
}

pub fn find_char(v: &Vec<char>, c: char) -> (res: Option<usize>)
    ensures
        match res {
            Some(k) => k < v.len() && v@[k as int] == c && forall|j: int| 0 <= j < k ==> v@[j] != c,
            None => forall|j: int| 0 <= j < v.len() ==> v@[j] != c,
        },
{
    let mut i: usize = 0;
    while i < v.len()
        invariant
            i <= v.len(),
            forall|j: int| 0 <= j < i ==> v@[j] != c,
        decreases v.len() - i,
    {
        if v[i] == c {
            return Some(i);
        }
        i = i + 1;
    }
    None
}

/// `str::split_once` on a character: the text before and after the first
/// occurrence of `c`.
pub open spec fn split_once(s: Seq<char>, c: char) -> Option<(Seq<char>, Seq<char>)> {
    if exists|k: int| 0 <= k < s.len() && s[k] == c {
        let k = choose|k: int|
            0 <= k < s.len() && s[k] == c && forall|j: int| 0 <= j < k ==> s[j] != c;
        Some((s.take(k), s.skip(k + 1)))
    } else {
        None
    }
}

pub fn split_once_char(v: &Vec<char>, c: char) -> (res: Option<(Vec<char>, Vec<char>)>)
    ensures
        match (res, split_once(v@, c)) {
            (Some((a, b)), Some((sa, sb))) => a@ == sa && b@ == sb,
            (None, None) => true,
            _ => false,
        },
{
    match find_char(v, c) {
        Some(k) => {
            let ghost kk = choose|k: int|
                0 <= k < v@.len() && v@[k] == c && forall|j: int| 0 <= j < k ==> v@[j] != c;
            assert(kk == k as int) by {
                if kk < k {
                } else if kk > k {
                }
            }
            let a = take_chars(v, k);
            let b = slice_chars(v, k + 1, v.len());
            assert(b@ =~= v@.skip(k + 1));
            Some((a, b))
        },
        None => None,
    }
}

/// Whether `s` begins with `p`.
pub fn starts_with_str(s: &Vec<char>, p: &str) -> (res: bool)
    ensures
        res == (p@.len() <= s@.len() && s@.take(p@.len() as int) == p@),
{
    let pv = chars_of(p);
    if pv.len() > s.len() {
        return false;
    }
    let head = take_chars(s, pv.len());
    chars_eq(&head, &pv)
}

/// The character of a decimal digit.
pub open spec fn digit_char(d: nat) -> char {
    if d == 0 {
        '0'
    } else if d == 1 {
        '1'
    } else if d == 2 {
        '2'
    } else if d == 3 {
        '3'
    } else if d == 4 {
        '4'
    } else if d == 5 {
        '5'
    } else if d == 6 {
        '6'
    } else if d == 7 {
        '7'
    } else if d == 8 {
        '8'
    } else {
        '9'
    }
}

/// The decimal rendering of `n`, as `{}` formats an unsigned integer.
pub open spec fn dec(n: nat) -> Seq<char>
    decreases n,
{
    if n < 10 {
        seq![digit_char(n)]
    } else {
        dec(n / 10).push(digit_char(n % 10))
    }
}

fn digit_to_char(d: u64) -> (c: char)
    requires
        d < 10,
    ensures
        c == digit_char(d as nat),
{
    if d == 0 {
        '0'
    } else if d == 1 {
        '1'
    } else if d == 2 {
        '2'
    } else if d == 3 {
        '3'
    } else if d == 4 {
        '4'
    } else if d == 5 {
        '5'
    } else if d == 6 {
        '6'
    } else if d == 7 {
        '7'
    } else if d == 8 {
        '8'
    } else {
        '9'
    }
}

/// Appends the decimal rendering of `n`.
pub fn push_dec(out: &mut Vec<char>, n: u64)
    ensures
        final(out)@ == old(out)@ + dec(n as nat),
    decreases n,
{
    if n >= 10 {
        push_dec(out, n / 10);
    }
    out.push(digit_to_char(n % 10));
}

/// Appends the characters of a string slice.
pub fn push_str(out: &mut Vec<char>, s: &str)
    ensures
        final(out)@ == old(out)@ + s@,
{
    let v = chars_of(s);
    push_chars(out, &v);
}

/// Appends characters.
pub fn push_chars(out: &mut Vec<char>, v: &Vec<char>)
    ensures
        final(out)@ == old(out)@ + v@,
{
    let ghost start = out@;
    let mut i: usize = 0;
    while i < v.len()
        invariant
            i <= v.len(),
            out@ == start + v@.take(i as int),
        decreases v.len() - i,
    {
        out.push(v[i]);
        assert(v@.take(i + 1) == v@.take(i as int).push(v@[i as int]));
        i = i + 1;
    }
    assert(v@.take(v.len() as int) == v@);
}

/// The value of a digit character in the given radix (at most 36).
pub open spec fn digit_value(c: char, radix: nat) -> Option<nat> {
    let n = c as u32;
    let d: int = if 0x30 <= n <= 0x39 {
        n - 0x30
    } else if 0x61 <= n <= 0x7a {
        n - 0x61 + 10
    } else if 0x41 <= n <= 0x5a {
        n - 0x41 + 10
    } else {
        radix as int
    };
    if d < radix {
        Some(d as nat)
    } else {
        None
    }
}

/// The value of a run of digits, or `None` when one is not a digit.
pub open spec fn digits_value(s: Seq<char>, radix: nat) -> Option<nat>
    decreases s.len(),
{
    if s.len() == 0 {
        Some(0)
    } else {
        match (digits_value(s.drop_last(), radix), digit_value(s.last(), radix)) {
            (Some(a), Some(d)) => Some(a * radix + d),
            _ => None,
        }
    }
}

/// What `from_str_radix` of an unsigned integer type reads, before the
/// range check: an optional `+` and at least one digit.
pub open spec fn unsigned_value(s: Seq<char>, radix: nat) -> Option<nat> {
    if s.len() == 0 || s == seq!['+'] {
        None
    } else if s[0] == '+' {
        digits_value(s.drop_first(), radix)
    } else {
        digits_value(s, radix)
    }
}

/// `from_str_radix` for an unsigned type whose largest value is `max`.
pub open spec fn parse_unsigned(s: Seq<char>, radix: nat, max: nat) -> Option<nat> {
    match unsigned_value(s, radix) {
        Some(v) => if v <= max {
            Some(v)
        } else {
            None
        },
        None => None,
    }
}

fn digit_of(c: char, radix: u32) -> (res: Option<u64>)
    requires
        2 <= radix <= 36,
    ensures
        match (res, digit_value(c, radix as nat)) {
            (Some(d), Some(e)) => d == e,
            (None, None) => true,
            _ => false,
        },
{
    let n: u32 = c as u32;
    let d: u32 = if 0x30 <= n && n <= 0x39 {
        n - 0x30
    } else if 0x61 <= n && n <= 0x7a {
        n - 0x61 + 10
    } else if 0x41 <= n && n <= 0x5a {
        n - 0x41 + 10
    } else {
        radix
    };
    if d < radix {
        Some(d as u64)
    } else {
        None
    }
}

/// Parses an unsigned integer no larger than `max`, as `str::parse` and
/// `from_str_radix` do for the unsigned integer types.
pub fn parse_uint(s: &Vec<char>, radix: u32, max: u64) -> (res: Option<u64>)
    requires
        2 <= radix <= 36,
    ensures
        match (res, parse_unsigned(s@, radix as nat, max as nat)) {
            (Some(v), Some(w)) => v == w,
            (None, None) => true,
            _ => false,
        },
{
    if s.len() == 0 {
        return None;
    }
    let start: usize = if s[0] == '+' {
        1
    } else {
        0
    };
    if start == 1 && s.len() == 1 {
        assert(s@ =~= seq!['+']);
        return None;
    }
    let ghost body = s@.skip(start as int);
    assert(s[0] == '+' ==> body == s@.drop_first());
    assert(s[0] != '+' ==> body == s@) by {
        assert(s@.skip(0) =~= s@);
    }
    let mut acc: u64 = 0;
    let mut over = false;
    let mut bad = false;
    let mut i = start;
    while i < s.len()
        invariant
            start <= i <= s.len(),
            start <= 1,
            body == s@.skip(start as int),
            2 <= radix <= 36,
            bad ==> digits_value(body.take(i - start), radix as nat) is None,
            !bad && over ==> (digits_value(body.take(i - start), radix as nat) matches Some(v)
                && v > max),
            !bad && !over ==> digits_value(body.take(i - start), radix as nat) == Some(
                acc as nat,
            ),
            !over ==> acc <= max,
        decreases s.len() - i,
    {
        let ghost pre = body.take(i - start);
        let ghost cur = body.take(i + 1 - start);
        assert(cur.drop_last() == pre);
        assert(cur.last() == s@[i as int]);
        match digit_of(s[i], radix) {
            None => {
                bad = true;
            },
            Some(d) => {
                if !bad {
                    if over {
                        let ghost v = digits_value(pre, radix as nat)->0;
                        assert(v * radix + d >= v) by (nonlinear_arith)
                            requires
                                v >= 0,
                                radix >= 2,
                                d >= 0,
                        ;
                    } else {
                        if d > max {
                            over = true;
                            assert(acc * radix + d > max) by (nonlinear_arith)
                                requires
                                    d > max,
                                    acc >= 0,
                                    radix >= 2,
                            ;
                        } else {
                            let r: u64 = radix as u64;
                            let q: u64 = (max - d) / r;
                            if acc > q {
                                over = true;
                                assert(acc * r + d > max) by (nonlinear_arith)
                                    requires
                                        acc > q,
                                        q == (max - d) as int / (r as int),
                                        r >= 2,
                                        d <= max,
                                ;
                            } else {
                                assert(acc * r + d <= max) by (nonlinear_arith)
                                    requires
                                        acc <= q,
                                        q == (max - d) as int / (r as int),
                                        r >= 2,
                                        d <= max,
                                ;
                                acc = acc * r + d;
                            }
                        }
                    }
                }
            },
        }
        i = i + 1;
    }
    assert(body.take(i - start) == body);
    if bad || over {
        None
    } else {
        Some(acc)
    }
}

/// The parts joined with `sep` between each two, as `[String]::join` does.
pub open spec fn join(parts: Seq<Seq<char>>, sep: Seq<char>) -> Seq<char>
    decreases parts.len(),
{
    if parts.len() == 0 {
        Seq::empty()
    } else if parts.len() == 1 {
        parts[0]
    } else {
        join(parts.drop_last(), sep) + sep + parts.last()
    }
}

pub fn join_chars(parts: &Vec<Vec<char>>, sep: &Vec<char>) -> (res: Vec<char>)
    ensures
        res@ == join(views(parts@), sep@),
{
    let mut out: Vec<char> = Vec::new();
    let mut i: usize = 0;
    while i < parts.len()
        invariant
            i <= parts.len(),
            out@ == join(views(parts@).take(i as int), sep@),
        decreases parts.len() - i,
    {
        let ghost pre = views(parts@).take(i as int);
        let ghost next = views(parts@).take(i + 1);
        assert(next.drop_last() == pre);
        assert(next.last() == parts@[i as int]@);
        if i > 0 {
            push_chars(&mut out, sep);
        } else {
            assert(pre.len() == 0);
        }
        push_chars(&mut out, &parts[i]);
        i = i + 1;
    }
    assert(views(parts@).take(parts.len() as int) == views(parts@));
    out
}

proof fn lemma_words_from_nonempty(s: Seq<char>, cur: Seq<char>)
    requires
        cur.len() > 0,
    ensures
        words_from(s, cur).len() > 0,
    decreases s.len(),
{
    if s.len() > 0 && !is_ws(s[0]) {
        lemma_words_from_nonempty(s.drop_first(), cur.push(s[0]));
    }
}

/// A text that starts with a non-whitespace character has a word.
pub proof fn lemma_words_nonempty(s: Seq<char>)
    requires
        s.len() > 0,
        !is_ws(s[0]),
    ensures
        words(s).len() > 0,
{
    assert(Seq::<char>::empty().push(s[0]) == seq![s[0]]);
    lemma_words_from_nonempty(s.drop_first(), seq![s[0]]);
}

/// `str::replace` with a non-empty pattern: every occurrence, taken from
/// the left without overlap, replaced by `to`.
pub open spec fn replace_all(s: Seq<char>, pat: Seq<char>, to: Seq<char>) -> Seq<char>
    decreases s.len(),
{
    if s.len() == 0 {
        s
    } else if pat.len() > 0 && pat.len() <= s.len() && s.take(pat.len() as int) == pat {
        to + replace_all(s.skip(pat.len() as int), pat, to)
    } else {
        seq![s[0]] + replace_all(s.drop_first(), pat, to)
    }
}

/// Whether `pat` occurs in `s` at position `i`.
fn occurs_at(s: &Vec<char>, i: usize, pat: &Vec<char>) -> (res: bool)
    requires
        i <= s.len(),
    ensures
        res == (pat@.len() <= s@.skip(i as int).len() && s@.skip(i as int).take(
            pat@.len() as int,
        ) == pat@),
{
    if pat.len() > s.len() - i {
        return false;
    }
    let mut k: usize = 0;
    while k < pat.len()
        invariant
            i + pat.len() <= s.len(),
            k <= pat.len(),
            forall|j: int| 0 <= j < k ==> s@[i + j] == pat@[j],
        decreases pat.len() - k,
    {
        if s[i + k] != pat[k] {
            assert(s@.skip(i as int).take(pat@.len() as int)[k as int] != pat@[k as int]);
            return false;
        }
        k = k + 1;
    }
    assert(s@.skip(i as int).take(pat@.len() as int) =~= pat@);
    true
}

pub fn replace_chars(s: &Vec<char>, pat: &str, to: &str) -> (res: Vec<char>)
    requires
        pat@.len() > 0,
    ensures
        res@ == replace_all(s@, pat@, to@),
{
    let p = chars_of(pat);
    let t = chars_of(to);
    let mut out: Vec<char> = Vec::new();
    let mut i: usize = 0;
    assert(s@.skip(0) =~= s@);
    while i < s.len()
        invariant
            i <= s.len(),
            p@ == pat@,
            t@ == to@,
            p@.len() > 0,
            out@ + replace_all(s@.skip(i as int), p@, t@) == replace_all(s@, p@, t@),
        decreases s.len() - i,
    {
        let ghost rest = s@.skip(i as int);
        let ghost o = out@;
        if occurs_at(s, i, &p) {
            assert(rest.skip(p@.len() as int) =~= s@.skip(i + p@.len()));
            assert(o + (t@ + replace_all(rest.skip(p@.len() as int), p@, t@)) == (o + t@)
                + replace_all(s@.skip(i + p@.len()), p@, t@));
            push_chars(&mut out, &t);
            i = i + p.len();
        } else {
            assert(rest[0] == s@[i as int]);
            assert(rest.drop_first() =~= s@.skip(i + 1));
            assert(o + (seq![s@[i as int]] + replace_all(rest.drop_first(), p@, t@)) == o.push(
                s@[i as int],
            ) + replace_all(s@.skip(i + 1), p@, t@));
            out.push(s[i]);
            i = i + 1;
        }
    }
    assert(s@.skip(i as int).len() == 0);
    out
}

/// The position of the first word equal to `w`.
pub open spec fn word_position(ws: Seq<Seq<char>>, w: Seq<char>) -> Option<int>
    decreases ws.len(),
{
    if ws.len() == 0 {
        None
    } else if ws[0] == w {
        Some(0)
    } else {
        match word_position(ws.drop_first(), w) {
            Some(k) => Some(k + 1),
            None => None,
        }
    }
}

pub open spec fn shifted(o: Option<int>, by: int) -> Option<int> {
    match o {
        Some(k) => Some(k + by),
        None => None,
    }
}

pub fn find_word(ws: &Vec<Vec<char>>, w: &str) -> (res: Option<usize>)
    ensures
        match (res, word_position(views(ws@), w@)) {
            (Some(k), Some(j)) => k == j && k < ws.len(),
            (None, None) => true,
            _ => false,
        },
{
    let wv = chars_of(w);
    let mut i: usize = 0;
    assert(views(ws@).skip(0) =~= views(ws@));
    while i < ws.len()
        invariant
            i <= ws.len(),
            wv@ == w@,
            word_position(views(ws@), w@) == shifted(
                word_position(views(ws@).skip(i as int), w@),
                i as int,
            ),
        decreases ws.len() - i,
    {
        let ghost rest = views(ws@).skip(i as int);
        assert(rest[0] == ws@[i as int]@);
        assert(rest.drop_first() =~= views(ws@).skip(i + 1));
        if chars_eq(&ws[i], &wv) {
            return Some(i);
        }
        i = i + 1;
    }
    None
}

/// Lexicographic order of texts by code point, which is the order of
/// their UTF-8 bytes and so that of `str`'s `Ord`.
pub open spec fn text_lt(a: Seq<char>, b: Seq<char>) -> bool
    decreases a.len(),
{
    if a.len() == 0 {
        b.len() > 0
    } else if b.len() == 0 {
        false
    } else if a[0] != b[0] {
        (a[0] as u32) < (b[0] as u32)
    } else {
        text_lt(a.drop_first(), b.drop_first())
    }
}

pub proof fn lemma_text_lt_irreflexive(a: Seq<char>)
    ensures
        !text_lt(a, a),
    decreases a.len(),
{
    if a.len() > 0 {
        lemma_text_lt_irreflexive(a.drop_first());
    }
}

pub proof fn lemma_text_lt_transitive(a: Seq<char>, b: Seq<char>, c: Seq<char>)
    requires
        text_lt(a, b),
        text_lt(b, c),
    ensures
        text_lt(a, c),
    decreases a.len(),
{
    if a.len() > 0 && b.len() > 0 && c.len() > 0 {
        if a[0] == b[0] && b[0] == c[0] {
            lemma_text_lt_transitive(a.drop_first(), b.drop_first(), c.drop_first());
        }
    }
}

pub proof fn lemma_text_lt_asymmetric(a: Seq<char>, b: Seq<char>)
    requires
        text_lt(a, b),
    ensures
        !text_lt(b, a),
{
    if text_lt(b, a) {
        lemma_text_lt_transitive(a, b, a);
        lemma_text_lt_irreflexive(a);
    }
}

/// Whether `a` sorts before `b`.
pub fn text_less(a: &Vec<char>, b: &Vec<char>) -> (res: bool)
    ensures
        res == text_lt(a@, b@),
{
    let mut i: usize = 0;
    assert(a@.skip(0) =~= a@);
    assert(b@.skip(0) =~= b@);
    while i < a.len() && i < b.len() && a[i] == b[i]
        invariant
            i <= a.len(),
            i <= b.len(),
            text_lt(a@, b@) == text_lt(a@.skip(i as int), b@.skip(i as int)),
        decreases a.len() - i,
    {
        assert(a@.skip(i as int).drop_first() =~= a@.skip(i + 1));
        assert(b@.skip(i as int).drop_first() =~= b@.skip(i + 1));
        i = i + 1;
    }
    if i == a.len() {
        i < b.len()
    } else if i == b.len() {
        false
    } else {
        assert(a@.skip(i as int)[0] == a@[i as int]);
        assert(b@.skip(i as int)[0] == b@[i as int]);
        (a[i] as u32) < (b[i] as u32)
    }
}

/// Whether every character of a text is a decimal digit.
pub open spec fn is_digit_text(s: Seq<char>) -> bool {
    forall|i: int| 0 <= i < s.len() ==> 0x30 <= (#[trigger] s[i] as u32) <= 0x39
}

proof fn lemma_digit_char(d: nat)
    requires
        d < 10,
    ensures
        digit_value(digit_char(d), 10) == Some(d),
        0x30 <= (digit_char(d) as u32) <= 0x39,
{
}

/// The decimal rendering of a number is a non-empty run of digits that
/// reads back as the number.
pub proof fn lemma_dec_digits(n: nat)
    ensures
        dec(n).len() > 0,
        is_digit_text(dec(n)),
        digits_value(dec(n), 10) == Some(n),
    decreases n,
{
    if n < 10 {
        lemma_digit_char(n);
        assert(dec(n).drop_last() =~= Seq::<char>::empty());
        assert(digits_value(Seq::<char>::empty(), 10) == Some(0nat));
        assert(dec(n).last() == digit_char(n));
    } else {
        lemma_dec_digits(n / 10);
        lemma_digit_char(n % 10);
        let s = dec(n);
        assert(s.drop_last() == dec(n / 10));
        assert(s.last() == digit_char(n % 10));
        assert(forall|i: int| 0 <= i < dec(n / 10).len() ==> s[i] == dec(n / 10)[i]);
        assert((n / 10) * 10 + n % 10 == n) by (nonlinear_arith);
    }
}

/// A number printed in decimal reads back as itself wherever it is no
/// larger than the type's largest value.
pub proof fn lemma_decimal_reads_back(n: nat, max: nat)
    requires
        n <= max,
    ensures
        parse_unsigned(dec(n), 10, max) == Some(n),
{
    lemma_dec_digits(n);
    let s = dec(n);
    assert(s[0] != '+') by {
        assert(0x30 <= (s[0] as u32) <= 0x39);
    }
    assert(s != seq!['+']) by {
        if s == seq!['+'] {
            assert(s[0] == '+');
        }
    }
}

/// Whitespace taken off the front leaves a suffix of the text that starts
/// with no whitespace; all that was taken off is whitespace.
proof fn lemma_trim_start_shape(s: Seq<char>)
    ensures
        trim_start(s).len() <= s.len(),
        trim_start(s) == s.skip(s.len() - trim_start(s).len()),
        trim_start(s).len() > 0 ==> !is_ws(trim_start(s)[0]),
        forall|k: int| 0 <= k < s.len() - trim_start(s).len() ==> is_ws(#[trigger] s[k]),
    decreases s.len(),
{
    if s.len() > 0 && is_ws(s[0]) {
        let r = s.drop_first();
        lemma_trim_start_shape(r);
        assert(r.skip(r.len() - trim_start(r).len()) =~= s.skip(s.len() - trim_start(r).len()));
        assert forall|k: int| 0 <= k < s.len() - trim_start(s).len() implies is_ws(
            #[trigger] s[k],
        ) by {
            if k > 0 {
                assert(s[k] == r[k - 1]);
            }
        }
    } else {
        assert(s.skip(0) =~= s);
    }
}

/// Whitespace taken off the back leaves a prefix of the text that ends
/// with no whitespace; all that was taken off is whitespace.
proof fn lemma_trim_end_shape(s: Seq<char>)
    ensures
        trim_end(s).len() <= s.len(),
        trim_end(s) == s.take(trim_end(s).len() as int),
        trim_end(s).len() > 0 ==> !is_ws(trim_end(s).last()),
        forall|k: int| trim_end(s).len() <= k < s.len() ==> is_ws(#[trigger] s[k]),
    decreases s.len(),
{
    if s.len() > 0 && is_ws(s.last()) {
        let r = s.drop_last();
        lemma_trim_end_shape(r);
        assert(r.take(trim_end(r).len() as int) =~= s.take(trim_end(r).len() as int));
        assert forall|k: int| trim_end(s).len() <= k < s.len() implies is_ws(#[trigger] s[k]) by {
            if k < s.len() - 1 {
                assert(s[k] == r[k]);
            }
        }
    } else {
        assert(s.take(s.len() as int) =~= s);
    }
}

/// `trim` takes whitespace, and only whitespace, off both ends: what is
/// left is a stretch of the text that neither starts nor ends with
/// whitespace, and everything before and after it is whitespace.
pub proof fn lemma_trim_shape(s: Seq<char>) -> (i: int)
    ensures
        0 <= i,
        i + trim(s).len() <= s.len(),
        trim(s) == s.subrange(i, i + trim(s).len()),
        forall|k: int| 0 <= k < i ==> is_ws(#[trigger] s[k]),
        forall|k: int| i + trim(s).len() <= k < s.len() ==> is_ws(#[trigger] s[k]),
        trim(s).len() > 0 ==> !is_ws(trim(s)[0]) && !is_ws(trim(s).last()),
{
    let a = trim_start(s);
    lemma_trim_start_shape(s);
    lemma_trim_end_shape(a);
    let t = trim_end(a);
    let i = s.len() - a.len();
    assert(t == s.subrange(i, i + t.len())) by {
        assert(t =~= s.subrange(i, i + t.len()));
    }
    assert forall|k: int| i + t.len() <= k < s.len() implies is_ws(#[trigger] s[k]) by {
        assert(s[k] == a[k - i]);
    }
    if t.len() > 0 {
        assert(t[0] == a[0]);
    }
    i
}

/// Each of the texts is non-empty and holds no whitespace.
pub open spec fn all_solid(ws: Seq<Seq<char>>) -> bool {
    forall|i: int|
        0 <= i < ws.len() ==> (#[trigger] ws[i]).len() > 0 && forall|k: int|
            0 <= k < ws[i].len() ==> !is_ws(#[trigger] ws[i][k])
}

proof fn lemma_words_from_shape(s: Seq<char>, cur: Seq<char>)
    requires
        forall|k: int| 0 <= k < cur.len() ==> !is_ws(#[trigger] cur[k]),
    ensures
        all_solid(words_from(s, cur)),
    decreases s.len(),
{
    assert(all_solid(flush(cur)));
    if s.len() > 0 {
        if is_ws(s[0]) {
            let rest = words_from(s.drop_first(), seq![]);
            lemma_words_from_shape(s.drop_first(), seq![]);
            let all = flush(cur) + rest;
            assert forall|i: int| 0 <= i < all.len() implies (#[trigger] all[i]).len() > 0
                && forall|k: int| 0 <= k < all[i].len() ==> !is_ws(#[trigger] all[i][k]) by {
                if i < flush(cur).len() {
                    assert(all[i] == flush(cur)[i]);
                } else {
                    assert(all[i] == rest[i - flush(cur).len()]);
                }
            }
        } else {
            let c2 = cur.push(s[0]);
            assert forall|k: int| 0 <= k < c2.len() implies !is_ws(#[trigger] c2[k]) by {
                if k < cur.len() {
                    assert(c2[k] == cur[k]);
                }
            }
            lemma_words_from_shape(s.drop_first(), c2);
        }
    }
}

/// Every word of a text is non-empty and holds no whitespace.
pub proof fn lemma_words_shape(s: Seq<char>)
    ensures
        all_solid(words(s)),
{
    lemma_words_from_shape(s, seq![]);
}

} // verus!
