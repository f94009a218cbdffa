use vstd::prelude::*;

verus! {

/// The character for one decimal digit.
pub open spec fn digit_char(d: int) -> char {
    if d == 0 {
        '0'
    } else if d == 1 {
        '1'
    } else if d == 2 {
        '2'
    } else if d == 3 {
        '3'
    } else if d == 4 {
        '4'
    } else if d == 5 {
        '5'
    } else if d == 6 {
        '6'
    } else if d == 7 {
        '7'
    } else if d == 8 {
        '8'
    } else {
        '9'
    }
}

/// The value of one decimal digit character, or -1 where the character is no
/// digit.
pub open spec fn char_digit(c: char) -> int {
    if c == '0' {
        0
    } else if c == '1' {
        1
    } else if c == '2' {
        2
    } else if c == '3' {
        3
    } else if c == '4' {
        4
    } else if c == '5' {
        5
    } else if c == '6' {
        6
    } else if c == '7' {
        7
    } else if c == '8' {
        8
    } else if c == '9' {
        9
    } else {
        -1
    }
}

/// The canonical decimal text of a number: no sign, no leading zero except
/// for zero itself.
pub open spec fn dec_rep(n: int) -> Seq<char>
    decreases n,
{
    if n < 10 {
        seq![digit_char(n)]
    } else {
        dec_rep(n / 10).push(digit_char(n % 10))
    }
}

/// The one-character string for one decimal digit.
fn digit_str(d: u32) -> (r: &'static str)
    requires
        d < 10,
    ensures
        r@ == seq![digit_char(d as int)],
{
    proof {
        reveal_strlit("0");
        reveal_strlit("1");
        reveal_strlit("2");
        reveal_strlit("3");
        reveal_strlit("4");
        reveal_strlit("5");
        reveal_strlit("6");
        reveal_strlit("7");
        reveal_strlit("8");
        reveal_strlit("9");
    }
    let r = if d == 0 {
        "0"
    } else if d == 1 {
        "1"
    } else if d == 2 {
        "2"
    } else if d == 3 {
        "3"
    } else if d == 4 {
        "4"
    } else if d == 5 {
        "5"
    } else if d == 6 {
        "6"
    } else if d == 7 {
        "7"
    } else if d == 8 {
        "8"
    } else {
        "9"
    };
    proof {
        assert(r@ =~= seq![digit_char(d as int)]);
    }
    r
}

/// Render a number as its canonical decimal text.
pub fn u32_to_string(n: u32) -> (r: String)
    ensures
        r@ == dec_rep(n as int),
    decreases n,
{
    if n < 10 {
        String::from_str(digit_str(n))
    } else {
        let r = u32_to_string(n / 10).concat(digit_str(n % 10));
        proof {
            assert(r@ =~= dec_rep(n as int));
        }
        r
    }
}

/// The part of a number's text that carries its digits: everything after an
/// optional leading plus sign.
pub open spec fn digit_body(s: Seq<char>) -> Seq<char> {
    if s.len() > 0 && s[0] == '+' {
        s.drop_first()
    } else {
        s
    }
}

/// Whether every character of a piece of text is a decimal digit.
pub open spec fn all_digits(s: Seq<char>) -> bool {
    forall|i: int| 0 <= i < s.len() ==> char_digit(#[trigger] s[i]) >= 0
}

/// Whether a piece of text is accepted by the resolution parser: an optional
/// leading plus sign followed by at least one decimal digit.
pub open spec fn digits_shape(s: Seq<char>) -> bool {
    digit_body(s).len() > 0 && all_digits(digit_body(s))
}

/// The value of a digits-only piece of text.
pub open spec fn dec_val(s: Seq<char>) -> int
    decreases s.len(),
{
    if s.len() == 0 {
        0
    } else {
        dec_val(s.drop_last()) * 10 + char_digit(s.last())
    }
}

/// The number a piece of text denotes under the resolution parser: it must
/// have the accepted shape and its value must fit the result type.
pub open spec fn spec_parse_u32(s: Seq<char>) -> Option<u32> {
    if digits_shape(s) && dec_val(digit_body(s)) <= u32::MAX {
        Some(dec_val(digit_body(s)) as u32)
    } else {
        None
    }
}

/// The value of one decimal digit character, executable form.
fn char_to_digit(c: char) -> (r: Option<u32>)
    ensures
        char_digit(c) >= 0 ==> r == Some(char_digit(c) as u32),
        r is None <==> char_digit(c) < 0,
{
    match c {
        '0' => Some(0),
        '1' => Some(1),
        '2' => Some(2),
        '3' => Some(3),
        '4' => Some(4),
        '5' => Some(5),
        '6' => Some(6),
        '7' => Some(7),
        '8' => Some(8),
        '9' => Some(9),
        _ => None,
    }
}

/// Parse a decimal number the way the original route handler accepts a
/// resolution: an optional leading plus sign, then at least one digit, value
/// within the result type's range.
pub fn parse_u32(s: &str) -> (r: Option<u32>)
    ensures
        r == spec_parse_u32(s@),
{
    let n = s.unicode_len();
    let start: usize = if n > 0 && s.get_char(0) == '+' {
        1
    } else {
        0
    };
    let ghost body = digit_body(s@);
    assert(body =~= s@.subrange(start as int, n as int));
    if n == start {
        return None;
    }
    let mut val: u64 = 0;
    let mut i: usize = start;
    while i < n
        invariant
            start <= i <= n,
            n == s@.len(),
            body == digit_body(s@),
            body == s@.subrange(start as int, n as int),
            val == dec_val(s@.subrange(start as int, i as int)),
            val <= u32::MAX,
            forall|j: int| start <= j < i ==> char_digit(#[trigger] s@[j]) >= 0,
        decreases n - i,
    {
        let c = s.get_char(i);
        match char_to_digit(c) {
            Some(d) => {
                let next: u64 = val * 10 + (d as u64);
                proof {
                    assert(s@.subrange(start as int, i + 1).drop_last() =~= s@.subrange(
                        start as int,
                        i as int,
                    ));
                }
                if next > u32::MAX as u64 {
                    proof {
                        assert(body.take(i + 1 - start) =~= s@.subrange(start as int, i + 1));
                        assert(dec_val(body.take(i + 1 - start)) == next);
                        lemma_dec_val_prefix_overflow(body, i + 1 - start);
                        assert(dec_val(body) > u32::MAX);
                    }
                    return None;
                }
                val = next;
                i = i + 1;
            },
            None => {
                proof {
                    assert(char_digit(digit_body(s@)[i - start]) < 0);
                    assert(!all_digits(digit_body(s@)));
                }
                return None;
            },
        }
    }
    proof {
        assert forall|j: int| 0 <= j < digit_body(s@).len() implies char_digit(
            #[trigger] digit_body(s@)[j],
        ) >= 0 by {
            assert(digit_body(s@)[j] == s@[start + j]);
        }
        assert(digits_shape(s@));
    }
    Some(val as u32)
}

/// The canonical decimal text of a number is never empty and holds digits
/// only.
pub proof fn lemma_dec_rep_all_digits(n: int)
    requires
        n >= 0,
    ensures
        dec_rep(n).len() >= 1,
        all_digits(dec_rep(n)),
    decreases n,
{
    if n < 10 {
        assert forall|i: int| 0 <= i < dec_rep(n).len() implies char_digit(
            #[trigger] dec_rep(n)[i],
        ) >= 0 by {
            assert(dec_rep(n)[i] == digit_char(n));
        }
    } else {
        lemma_dec_rep_all_digits(n / 10);
        assert forall|i: int| 0 <= i < dec_rep(n).len() implies char_digit(
            #[trigger] dec_rep(n)[i],
        ) >= 0 by {
            if i < dec_rep(n).len() - 1 {
                assert(dec_rep(n)[i] == dec_rep(n / 10)[i]);
            } else {
                assert(dec_rep(n)[i] == digit_char(n % 10));
            }
        }
    }
}

/// The canonical decimal text of a number denotes the number.
proof fn lemma_dec_val_of_rep(n: int)
    requires
        n >= 0,
    ensures
        dec_val(dec_rep(n)) == n,
    decreases n,
{
    if n < 10 {
        assert(char_digit(digit_char(n)) == n);
        assert(dec_rep(n).last() == digit_char(n));
        assert(dec_rep(n).drop_last() =~= Seq::<char>::empty());
        assert(dec_val(Seq::<char>::empty()) == 0);
        assert(dec_val(dec_rep(n)) == dec_val(dec_rep(n).drop_last()) * 10 + char_digit(
            dec_rep(n).last(),
        ));
    } else {
        lemma_dec_val_of_rep(n / 10);
        assert(char_digit(digit_char(n % 10)) == n % 10);
        assert(dec_rep(n).last() == digit_char(n % 10));
        assert(dec_rep(n).drop_last() =~= dec_rep(n / 10));
        assert(dec_val(dec_rep(n)) == dec_val(dec_rep(n).drop_last()) * 10 + char_digit(
            dec_rep(n).last(),
        ));
        assert((n / 10) * 10 + n % 10 == n);
    }
}

/// Two numbers with the same decimal text are the same number.
pub proof fn lemma_dec_rep_injective(a: int, b: int)
    requires
        a >= 0,
        b >= 0,
        dec_rep(a) == dec_rep(b),
    ensures
        a == b,
{
    lemma_dec_val_of_rep(a);
    lemma_dec_val_of_rep(b);
}

/// Rendering a number as decimal text and parsing the text back yields the
/// number: the resolution embedded in a raster path denotes exactly the
/// resolution the path was derived for.
pub proof fn lemma_decimal_round_trip(n: u32)
    ensures
        spec_parse_u32(dec_rep(n as int)) == Some(n),
{
    lemma_dec_rep_all_digits(n as int);
    lemma_dec_val_of_rep(n as int);
    assert(char_digit(dec_rep(n as int)[0]) >= 0);
    assert(dec_rep(n as int)[0] != '+');
    assert(digit_body(dec_rep(n as int)) == dec_rep(n as int));
}

/// Once a prefix of a digit string is too large for the result type, the
/// whole string is too.
proof fn lemma_dec_val_prefix_overflow(s: Seq<char>, i: int)
    requires
        0 <= i <= s.len(),
        dec_val(s.take(i)) > u32::MAX,
    ensures
        dec_val(s) > u32::MAX,
    decreases s.len() - i,
{
    if i < s.len() {
        assert(s.take(i + 1).drop_last() =~= s.take(i));
        assert(char_digit(s.take(i + 1).last()) >= -1);
        assert(dec_val(s.take(i + 1)) > u32::MAX);
        lemma_dec_val_prefix_overflow(s, i + 1);
    } else {
        assert(s.take(i) =~= s);
    }
}

} // verus!
