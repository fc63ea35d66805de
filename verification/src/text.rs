//! Text helpers shared by the command handlers: decimal numbers, exact
//! comparison, whitespace-separated words and joining.
use vstd::prelude::*;

verus! {

// ---------------------------------------------------------------------------
// Decimal numbers
// ---------------------------------------------------------------------------

/// The character of a decimal digit `d` (0 to 9).
pub open spec fn digit_char(d: int) -> char {
    if d == 0 { '0' }
    else if d == 1 { '1' }
    else if d == 2 { '2' }
    else if d == 3 { '3' }
    else if d == 4 { '4' }
    else if d == 5 { '5' }
    else if d == 6 { '6' }
    else if d == 7 { '7' }
    else if d == 8 { '8' }
    else { '9' }
}

/// The value of a decimal digit character, or `None` for any other character.
pub open spec fn digit_value(c: char) -> Option<nat> {
    if c == '0' { Some(0) }
    else if c == '1' { Some(1) }
    else if c == '2' { Some(2) }
    else if c == '3' { Some(3) }
    else if c == '4' { Some(4) }
    else if c == '5' { Some(5) }
    else if c == '6' { Some(6) }
    else if c == '7' { Some(7) }
    else if c == '8' { Some(8) }
    else if c == '9' { Some(9) }
    else { None }
}

/// The decimal writing of `n`, without sign or leading zeros.
pub open spec fn decimal_text(n: nat) -> Seq<char>
    decreases n,
{
    if n < 10 {
        seq![digit_char(n as int)]
    } else {
        decimal_text(n / 10).push(digit_char((n % 10) as int))
    }
}

/// The decimal writing of a signed integer, with a leading `-` when negative.
pub open spec fn signed_decimal_text(n: int) -> Seq<char> {
    if n < 0 {
        seq!['-'] + decimal_text((-n) as nat)
    } else {
        decimal_text(n as nat)
    }
}

/// `decimal_text(n)` left-padded with `0` to at least `width` characters.
pub open spec fn zero_padded(n: nat, width: nat) -> Seq<char> {
    let t = decimal_text(n);
    if t.len() >= width {
        t
    } else {
        Seq::new((width - t.len()) as nat, |i: int| '0') + t
    }
}

fn digit_str(d: u64) -> (s: &'static str)
    requires
        d < 10,
    ensures
        s@ == seq![digit_char(d as int)],
{
    proof {
        reveal_strlit("0");
        reveal_strlit("1");
        reveal_strlit("2");
        reveal_strlit("3");
        reveal_strlit("4");
        reveal_strlit("5");
        reveal_strlit("6");
        reveal_strlit("7");
        reveal_strlit("8");
        reveal_strlit("9");
    }
    if d == 0 { "0" }
    else if d == 1 { "1" }
    else if d == 2 { "2" }
    else if d == 3 { "3" }
    else if d == 4 { "4" }
    else if d == 5 { "5" }
    else if d == 6 { "6" }
    else if d == 7 { "7" }
    else if d == 8 { "8" }
    else { "9" }
}

/// Writes `n` in decimal, as `u64`'s `Display` does.
pub fn u64_text(n: u64) -> (s: String)
    ensures
        s@ == decimal_text(n as nat),
{
    let mut s = String::from_str(digit_str(n % 10));
    let mut rest: u64 = n / 10;
    while rest > 0
        invariant
            rest == 0 ==> s@ == decimal_text(n as nat),
            rest > 0 ==> decimal_text(n as nat) == decimal_text(rest as nat) + s@,
        decreases rest,
    {
        let d = digit_str(rest % 10);
        proof {
            if rest >= 10 {
                assert(decimal_text((rest / 10) as nat).push(digit_char((rest % 10) as int)) + s@
                    =~= decimal_text((rest / 10) as nat) + (d@ + s@));
            }
        }
        s = String::from_str(d).concat(s.as_str());
        rest = rest / 10;
    }
    s
}

/// Writes `n` in decimal, as `i64`'s `Display` does.
pub fn i64_text(n: i64) -> (s: String)
    ensures
        s@ == signed_decimal_text(n as int),
{
    if n < 0 {
        let magnitude: u64 = (0i128 - (n as i128)) as u64;
        let digits = u64_text(magnitude);
        proof {
            reveal_strlit("-");
        }
        String::from_str("-").concat(digits.as_str())
    } else {
        u64_text(n as u64)
    }
}


/// True when every character of `s` is a decimal digit.
pub open spec fn all_digits(s: Seq<char>) -> bool {
    forall|i: int| 0 <= i < s.len() ==> (#[trigger] digit_value(s[i])) is Some
}

/// The number written by a string of decimal digits (most significant first).
pub open spec fn digits_value(s: Seq<char>) -> nat
    decreases s.len(),
{
    if s.len() == 0 {
        0
    } else {
        10 * digits_value(s.drop_last()) + digit_value(s.last()).unwrap_or(0)
    }
}

/// What `str::parse::<u16>` gives for `s`: an optional `+` sign followed by at
/// least one decimal digit, with a value that fits in 16 bits.
pub open spec fn parse_u16_spec(s: Seq<char>) -> Option<u16> {
    let body = if s.len() > 0 && s[0] == '+' { s.drop_first() } else { s };
    if body.len() > 0 && all_digits(body) && digits_value(body) <= u16::MAX {
        Some(digits_value(body) as u16)
    } else {
        None
    }
}

fn char_digit(c: char) -> (d: Option<u32>)
    ensures
        d matches Some(v) ==> digit_value(c) == Some(v as nat),
        d is None ==> digit_value(c) is None,
{
    if c == '0' { Some(0) }
    else if c == '1' { Some(1) }
    else if c == '2' { Some(2) }
    else if c == '3' { Some(3) }
    else if c == '4' { Some(4) }
    else if c == '5' { Some(5) }
    else if c == '6' { Some(6) }
    else if c == '7' { Some(7) }
    else if c == '8' { Some(8) }
    else if c == '9' { Some(9) }
    else { None }
}

proof fn lemma_digits_value_prefix(s: Seq<char>, i: int)
    requires
        0 <= i < s.len(),
    ensures
        digits_value(s.subrange(0, i + 1)) == 10 * digits_value(s.subrange(0, i))
            + digit_value(s[i]).unwrap_or(0),
{
    assert(s.subrange(0, i + 1).drop_last() =~= s.subrange(0, i));
}

proof fn lemma_digits_value_monotone(s: Seq<char>, i: int)
    requires
        0 <= i <= s.len(),
    ensures
        digits_value(s.subrange(0, i)) <= digits_value(s),
    decreases s.len() - i,
{
    if i < s.len() {
        lemma_digits_value_prefix(s, i);
        lemma_digits_value_monotone(s, i + 1);
    } else {
        assert(s.subrange(0, i) =~= s);
    }
}

/// Reads a port number or any other 16-bit unsigned integer, accepting what
/// `str::parse::<u16>` accepts.
pub fn parse_u16(s: &str) -> (r: Option<u16>)
    ensures
        r == parse_u16_spec(s@),
{
    let n = s.unicode_len();
    let mut start: usize = 0;
    if n > 0 && s.get_char(0) == '+' {
        start = 1;
    }
    let ghost body = if s@.len() > 0 && s@[0] == '+' { s@.drop_first() } else { s@ };
    if start == n {
        return None;
    }
    let mut value: u32 = 0;
    let mut i = start;
    while i < n
        invariant
            start <= i <= n,
            n == s@.len(),
            start < n,
            body =~= s@.subrange(start as int, n as int),
            body == (if s@.len() > 0 && s@[0] == '+' { s@.drop_first() } else { s@ }),
            all_digits(s@.subrange(start as int, i as int)),
            value == digits_value(s@.subrange(start as int, i as int)),
            value <= u16::MAX,
        decreases n - i,
    {
        let c = s.get_char(i);
        match char_digit(c) {
            None => {
                proof {
                    assert(body[i - start] == c);
                    assert(digit_value(body[i - start]) is None);
                    assert(!all_digits(body));
                }
                return None;
            },
            Some(d) => {
                proof {
                    lemma_digits_value_prefix(body, i - start);
                    assert(body.subrange(0, i - start + 1) =~= s@.subrange(start as int, i + 1));
                    assert(body.subrange(0, i - start) =~= s@.subrange(start as int, i as int));
                }
                let next = value * 10 + d;
                proof {
                    assert(body[i - start] == c);
                    assert(next == digits_value(body.subrange(0, i - start + 1)));
                }
                if next > 65535 {
                    proof {
                        lemma_digits_value_monotone(body, i - start + 1);
                    }
                    return None;
                }
                value = next;
                i = i + 1;
            },
        }
    }
    proof {
        assert(s@.subrange(start as int, n as int) =~= body);
    }
    Some(value as u16)
}


proof fn lemma_digit_round_trip(d: int)
    requires
        0 <= d < 10,
    ensures
        digit_value(digit_char(d)) == Some(d as nat),
        digit_char(d) != '+',
{
}

/// Facts about `decimal_text` that reading it back relies on.
pub proof fn lemma_decimal_text_shape(n: nat)
    ensures
        decimal_text(n).len() >= 1,
        all_digits(decimal_text(n)),
        digits_value(decimal_text(n)) == n,
        decimal_text(n)[0] != '+',
    decreases n,
{
    if n < 10 {
        lemma_digit_round_trip(n as int);
        assert(decimal_text(n).drop_last() =~= Seq::<char>::empty());
        assert(digits_value(Seq::<char>::empty()) == 0);
    } else {
        lemma_decimal_text_shape(n / 10);
        lemma_digit_round_trip((n % 10) as int);
        let t = decimal_text(n);
        assert(t.drop_last() =~= decimal_text(n / 10));
        assert(t.last() == digit_char((n % 10) as int));
        assert(digits_value(t) == 10 * digits_value(t.drop_last()) + digit_value(t.last()).unwrap_or(0));
        assert forall|i: int| 0 <= i < t.len() implies (#[trigger] digit_value(t[i])) is Some by {
            if i < t.len() - 1 {
                assert(t[i] == decimal_text(n / 10)[i]);
            }
        }
    }
}

/// A 16-bit number written in decimal reads back as the same number.
pub proof fn lemma_u16_text_round_trip(n: u16)
    ensures
        parse_u16_spec(decimal_text(n as nat)) == Some(n),
{
    lemma_decimal_text_shape(n as nat);
}


// ---------------------------------------------------------------------------
// Comparison
// ---------------------------------------------------------------------------

/// Compares two strings character by character.
pub fn text_eq(a: &str, b: &str) -> (r: bool)
    ensures
        r == (a@ == b@),
{
    let n = a.unicode_len();
    if n != b.unicode_len() {
        return false;
    }
    let mut i: usize = 0;
    while i < n
        invariant
            n == a@.len(),
            n == b@.len(),
            i <= n,
            forall|j: int| 0 <= j < i ==> a@[j] == b@[j],
        decreases n - i,
    {
        if a.get_char(i) != b.get_char(i) {
            return false;
        }
        i = i + 1;
    }
    proof {
        assert(a@ =~= b@);
    }
    true
}

/// Whether `s` begins with the character `c`, as `str::starts_with(c)`.
pub fn starts_with_char(s: &str, c: char) -> (r: bool)
    ensures
        r == (s@.len() > 0 && s@[0] == c),
{
    s.unicode_len() > 0 && s.get_char(0) == c
}

// ---------------------------------------------------------------------------
// Words
// ---------------------------------------------------------------------------

/// Whether `c` has Unicode's `White_Space` property (PropList.txt): tab to
/// carriage return, space, next line, no-break space, Ogham space mark, the
/// spaces from en quad to hair space, line and paragraph separators, narrow
/// no-break space, medium mathematical space and ideographic space.
pub open spec fn is_white_space(c: char) -> bool {
    let u = c as u32;
    ||| 0x09 <= u <= 0x0d
    ||| u == 0x20
    ||| u == 0x85
    ||| u == 0xa0
    ||| u == 0x1680
    ||| 0x2000 <= u <= 0x200a
    ||| u == 0x2028
    ||| u == 0x2029
    ||| u == 0x202f
    ||| u == 0x205f
    ||| u == 0x3000
}

/// Calls `char::is_whitespace`, which its documentation defines as having
/// the `White_Space` property, the code points listed in [`is_white_space`].
#[verifier::external_body]
fn char_is_whitespace(c: char) -> (r: bool)
    ensures
        r == is_white_space(c),
{
    c.is_whitespace()
}

/// Scans `s` from the left: the words completed so far and the word being read.
pub open spec fn word_scan(s: Seq<char>) -> (Seq<Seq<char>>, Seq<char>)
    decreases s.len(),
{
    if s.len() == 0 {
        (Seq::empty(), Seq::empty())
    } else {
        let (done, current) = word_scan(s.drop_last());
        let c = s.last();
        if is_white_space(c) {
            if current.len() == 0 {
                (done, current)
            } else {
                (done.push(current), Seq::empty())
            }
        } else {
            (done, current.push(c))
        }
    }
}

/// The maximal runs of non-whitespace characters of `s`, in order: what
/// `str::split_whitespace` yields.
pub open spec fn words(s: Seq<char>) -> Seq<Seq<char>> {
    let (done, current) = word_scan(s);
    if current.len() == 0 {
        done
    } else {
        done.push(current)
    }
}

/// Splits `s` into its whitespace-separated words.
pub fn split_words(s: &str) -> (ws: Vec<String>)
    ensures
        ws.deep_view() == words(s@),
{
    let n = s.unicode_len();
    let mut ws: Vec<String> = Vec::new();
    let mut start: usize = 0;
    let mut in_word = false;
    let mut i: usize = 0;
    while i < n
        invariant
            n == s@.len(),
            i <= n,
            in_word ==> start < i,
            word_scan(s@.subrange(0, i as int)) == (
                ws.deep_view(),
                if in_word { s@.subrange(start as int, i as int) } else { Seq::<char>::empty() },
            ),
        decreases n - i,
    {
        let c = s.get_char(i);
        proof {
            assert(s@.subrange(0, i + 1).drop_last() =~= s@.subrange(0, i as int));
            assert(s@.subrange(0, i + 1).last() == c);
        }
        if char_is_whitespace(c) {
            if in_word {
                let w = String::from_str(s.substring_char(start, i));
                ws.push(w);
                in_word = false;
            }
        } else {
            if !in_word {
                start = i;
                in_word = true;
                assert(s@.subrange(start as int, i + 1) =~= Seq::<char>::empty().push(c));
            } else {
                assert(s@.subrange(start as int, i + 1) =~= s@.subrange(start as int, i as int).push(c));
            }
        }
        proof {
            assert(ws.deep_view() =~= word_scan(s@.subrange(0, i + 1)).0);
        }
        i = i + 1;
    }
    proof {
        assert(s@.subrange(0, n as int) =~= s@);
    }
    if in_word {
        let w = String::from_str(s.substring_char(start, n));
        ws.push(w);
        proof {
            assert(ws.deep_view() =~= words(s@));
        }
    }
    ws
}

// ---------------------------------------------------------------------------
// Joining
// ---------------------------------------------------------------------------

/// The parts written one after the other with `sep` between each two.
pub open spec fn join(parts: Seq<Seq<char>>, sep: Seq<char>) -> Seq<char>
    decreases parts.len(),
{
    if parts.len() == 0 {
        Seq::empty()
    } else if parts.len() == 1 {
        parts[0]
    } else {
        join(parts.drop_last(), sep) + sep + parts.last()
    }
}

/// Joins `parts[from..]` with `sep` between each two.
pub fn join_from(parts: &Vec<String>, from: usize, sep: &str) -> (r: String)
    requires
        from <= parts.len(),
    ensures
        r@ == join(parts.deep_view().skip(from as int), sep@),
        from < parts.len() ==> r@.len() == total_len(parts.deep_view().skip(from as int))
            + sep@.len() * (parts.len() - from - 1),
        forall|i: int|
            0 <= i < parts.len() - from ==> r@.subrange(
                part_start(parts.deep_view().skip(from as int), sep@, i),
                part_start(parts.deep_view().skip(from as int), sep@, i) + parts[from + i]@.len(),
            ) == #[trigger] parts[from + i]@,
        forall|i: int|
            0 <= i < parts.len() - from - 1 ==> r@.subrange(
                part_start(parts.deep_view().skip(from as int), sep@, i) + parts[from + i]@.len(),
                part_start(parts.deep_view().skip(from as int), sep@, i + 1),
            ) == sep@ && #[trigger] part_start(parts.deep_view().skip(from as int), sep@, i + 1)
                == part_start(parts.deep_view().skip(from as int), sep@, i) + parts[from
                + i]@.len() + sep@.len(),
{
    let mut r = String::new();
    let mut i = from;
    while i < parts.len()
        invariant
            from <= i <= parts.len(),
            r@ == join(parts.deep_view().subrange(from as int, i as int), sep@),
        decreases parts.len() - i,
    {
        let ghost before = parts.deep_view().subrange(from as int, i as int);
        let ghost after = parts.deep_view().subrange(from as int, i + 1);
        proof {
            assert(after.drop_last() =~= before);
            assert(after.last() == parts[i as int]@);
        }
        if i > from {
            r.append(sep);
        } else {
            assert(after =~= seq![parts[i as int]@]);
            assert(r@ =~= Seq::<char>::empty());
        }
        r.append(parts[i].as_str());
        i = i + 1;
    }
    proof {
        let ps = parts.deep_view().skip(from as int);
        assert(parts.deep_view().subrange(from as int, parts.len() as int) =~= ps);
        lemma_join_keeps_every_part(ps, sep@);
        assert forall|i: int| 0 <= i < parts.len() - from implies #[trigger] parts[from + i]@
            == ps[i] by {}
    }
    r
}


/// The total number of characters of the parts.
pub open spec fn total_len(parts: Seq<Seq<char>>) -> int
    decreases parts.len(),
{
    if parts.len() == 0 {
        0
    } else {
        total_len(parts.drop_last()) + parts.last().len()
    }
}

/// Where part `i` starts in the joined text.
pub open spec fn part_start(parts: Seq<Seq<char>>, sep: Seq<char>, i: int) -> int {
    total_len(parts.take(i)) + sep.len() * i
}

proof fn lemma_total_len_take(parts: Seq<Seq<char>>, i: int)
    requires
        0 <= i < parts.len(),
    ensures
        total_len(parts.take(i + 1)) == total_len(parts.take(i)) + parts[i].len(),
{
    assert(parts.take(i + 1).drop_last() =~= parts.take(i));
}

proof fn lemma_subrange_of_front(a: Seq<char>, b: Seq<char>, lo: int, hi: int)
    requires
        0 <= lo <= hi <= a.len(),
    ensures
        (a + b).subrange(lo, hi) == a.subrange(lo, hi),
{
    assert((a + b).subrange(lo, hi) =~= a.subrange(lo, hi));
}

/// Joining keeps every part, in order, with the separator between each two
/// and nothing else: the text is as long as the parts and separators
/// together, part `i` stands at `part_start(parts, sep, i)`, and a separator
/// follows every part but the last.
#[verifier::rlimit(40)]
pub proof fn lemma_join_keeps_every_part(parts: Seq<Seq<char>>, sep: Seq<char>)
    ensures
        parts.len() > 0 ==> join(parts, sep).len() == total_len(parts) + sep.len() * (parts.len()
            - 1),
        forall|i: int|
            0 <= i < parts.len() ==> 0 <= #[trigger] part_start(parts, sep, i) && part_start(
                parts,
                sep,
                i,
            ) + parts[i].len() <= join(parts, sep).len(),
        forall|i: int|
            0 <= i < parts.len() ==> join(parts, sep).subrange(
                part_start(parts, sep, i),
                part_start(parts, sep, i) + parts[i].len(),
            ) == #[trigger] parts[i],
        forall|i: int|
            0 <= i < parts.len() - 1 ==> #[trigger] part_start(parts, sep, i + 1) == part_start(
                parts,
                sep,
                i,
            ) + parts[i].len() + sep.len() && join(parts, sep).subrange(
                part_start(parts, sep, i) + parts[i].len(),
                part_start(parts, sep, i + 1),
            ) == sep,
    decreases parts.len(),
{
    let n = parts.len() as int;
    if n == 0 {
    } else if n == 1 {
        assert(parts.take(0) =~= Seq::<Seq<char>>::empty());
        assert(parts.drop_last() =~= Seq::<Seq<char>>::empty());
        assert(part_start(parts, sep, 0) == 0);
        assert(join(parts, sep).subrange(0, parts[0].len() as int) =~= parts[0]);
    } else {
        let init = parts.drop_last();
        lemma_join_keeps_every_part(init, sep);
        let j = join(init, sep);
        let full = join(parts, sep);
        let js = j + sep;
        assert(full == js + parts.last());
        assert(sep.len() * (n - 1) == sep.len() * (n - 2) + sep.len()) by (nonlinear_arith);
        assert(total_len(parts) == total_len(init) + parts.last().len());
        assert(parts.take(n - 1) =~= init);
        assert(part_start(parts, sep, n - 1) == j.len() + sep.len());
        assert forall|i: int| 0 <= i < n - 1 implies #[trigger] part_start(parts, sep, i)
            == part_start(init, sep, i) by {
            assert(parts.take(i) =~= init.take(i));
        }
        assert forall|i: int| 0 <= i < n implies 0 <= #[trigger] part_start(parts, sep, i)
            && part_start(parts, sep, i) + parts[i].len() <= full.len() && full.subrange(
            part_start(parts, sep, i),
            part_start(parts, sep, i) + parts[i].len(),
        ) == parts[i] by {
            if i < n - 1 {
                assert(init[i] == parts[i]);
                let a = part_start(init, sep, i);
                assert(part_start(parts, sep, i) == a);
                assert(j.subrange(a, a + init[i].len()) == init[i]);
                lemma_subrange_of_front(j, sep, a, a + init[i].len());
                lemma_subrange_of_front(js, parts.last(), a, a + init[i].len());
            } else {
                assert(full.subrange(js.len() as int, js.len() + parts[i].len() as int)
                    =~= parts.last());
            }
        }
        assert forall|i: int| 0 <= i < n - 1 implies #[trigger] part_start(parts, sep, i + 1)
            == part_start(parts, sep, i) + parts[i].len() + sep.len() && full.subrange(
            part_start(parts, sep, i) + parts[i].len(),
            part_start(parts, sep, i + 1),
        ) == sep by {
            assert(init[i] == parts[i]);
            if i < n - 2 {
                let a = part_start(init, sep, i) + init[i].len();
                let b = part_start(init, sep, i + 1);
                assert(part_start(parts, sep, i + 1) == b);
                assert(j.subrange(a, b) == sep);
                assert(part_start(init, sep, i + 1) + init[i + 1].len() <= j.len());
                lemma_subrange_of_front(j, sep, a, b);
                lemma_subrange_of_front(js, parts.last(), a, b);
            } else {
                assert(part_start(init, sep, n - 2) + init[n - 2].len() == j.len());
                assert(full.subrange(j.len() as int, j.len() + sep.len() as int) =~= sep);
            }
        }
    }
}

} // verus!
