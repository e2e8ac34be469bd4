//! Character classes and renderings used when checking and building text.
use vstd::prelude::*;

verus! {

/// The Unicode `White_Space` property, as `char::is_whitespace` and
/// `str::trim` use it.
pub open spec fn is_white_space(c: char) -> bool {
    ||| ('\u{9}' <= c && c <= '\u{d}')
    ||| c == ' '
    ||| c == '\u{85}'
    ||| c == '\u{a0}'
    ||| c == '\u{1680}'
    ||| ('\u{2000}' <= c && c <= '\u{200a}')
    ||| c == '\u{2028}'
    ||| c == '\u{2029}'
    ||| c == '\u{202f}'
    ||| c == '\u{205f}'
    ||| c == '\u{3000}'
}

/// A text is blank when trimming its white space leaves nothing: every
/// character of it is white space (the empty text included).
pub open spec fn is_blank(s: Seq<char>) -> bool {
    forall|i: int| 0 <= i < s.len() ==> #[trigger] is_white_space(s[i])
}

pub fn char_is_white_space(c: char) -> (b: bool)
    ensures
        b == is_white_space(c),
{
    ('\u{9}' <= c && c <= '\u{d}') || c == ' ' || c == '\u{85}' || c == '\u{a0}' || c == '\u{1680}'
        || ('\u{2000}' <= c && c <= '\u{200a}') || c == '\u{2028}' || c == '\u{2029}' || c
        == '\u{202f}' || c == '\u{205f}' || c == '\u{3000}'
}

/// Whether `s.trim()` is empty.
pub fn str_is_blank(s: &str) -> (b: bool)
    ensures
        b == is_blank(s@),
{
    for c in it: s.chars()
        invariant
            it.seq() == s@,
            forall|j: int| 0 <= j < it.index() ==> #[trigger] is_white_space(s@[j]),
    {
        if !char_is_white_space(c) {
            return false;
        }
    }
    true
}

/// The decimal digit `d` (`0 <= d < 10`) as a character.
pub open spec fn digit_char(d: int) -> char {
    if d == 0 {
        '0'
    } else if d == 1 {
        '1'
    } else if d == 2 {
        '2'
    } else if d == 3 {
        '3'
    } else if d == 4 {
        '4'
    } else if d == 5 {
        '5'
    } else if d == 6 {
        '6'
    } else if d == 7 {
        '7'
    } else if d == 8 {
        '8'
    } else {
        '9'
    }
}

/// The decimal rendering of `n`, without sign or leading zeros.
pub open spec fn decimal(n: nat) -> Seq<char>
    decreases n,
{
    if n < 10 {
        seq![digit_char(n as int)]
    } else {
        decimal(n / 10).push(digit_char((n % 10) as int))
    }
}

fn digit_str(d: u16) -> (r: &'static str)
    requires
        d < 10,
    ensures
        r@ == seq![digit_char(d as int)],
{
    match d {
        0 => { proof { reveal_strlit("0"); } "0" },
        1 => { proof { reveal_strlit("1"); } "1" },
        2 => { proof { reveal_strlit("2"); } "2" },
        3 => { proof { reveal_strlit("3"); } "3" },
        4 => { proof { reveal_strlit("4"); } "4" },
        5 => { proof { reveal_strlit("5"); } "5" },
        6 => { proof { reveal_strlit("6"); } "6" },
        7 => { proof { reveal_strlit("7"); } "7" },
        8 => { proof { reveal_strlit("8"); } "8" },
        _ => { proof { reveal_strlit("9"); } "9" },
    }
}

/// The decimal rendering of a port number, as `format!("{}", n)` writes it.
pub fn decimal_string(n: u16) -> (s: String)
    ensures
        s@ == decimal(n as nat),
    decreases n,
{
    if n < 10 {
        String::from_str(digit_str(n))
    } else {
        let mut s = decimal_string(n / 10);
        s.append(digit_str(n % 10));
        s
    }
}

/// The number that a text of decimal digits spells, read from left to
/// right.
pub open spec fn digits_value(s: Seq<char>) -> int
    decreases s.len(),
{
    if s.len() == 0 {
        0
    } else {
        10 * digits_value(s.drop_last()) + (s.last() as int - 48)
    }
}

proof fn digit_char_is_the_digit(d: int)
    requires
        0 <= d < 10,
    ensures
        digit_char(d) as int == d + 48,
        '0' <= digit_char(d) <= '9',
{
}

/// The decimal rendering of `n` is made of the digits `0` to `9`, has no
/// leading zero, and reads back as `n`.
pub proof fn decimal_reads_back(n: nat)
    ensures
        decimal(n).len() >= 1,
        n < 10 <==> decimal(n).len() == 1,
        forall|i: int| 0 <= i < decimal(n).len() ==> '0' <= #[trigger] decimal(n)[i] <= '9',
        decimal(n).len() > 1 ==> decimal(n)[0] != '0',
        n == 0 <==> decimal(n) == seq!['0'],
        digits_value(decimal(n)) == n,
    decreases n,
{
    if n < 10 {
        digit_char_is_the_digit(n as int);
        assert(decimal(n).drop_last() =~= Seq::<char>::empty());
        assert(digits_value(Seq::<char>::empty()) == 0);
        if n != 0 {
            assert(decimal(n)[0] != '0');
        }
    } else {
        decimal_reads_back(n / 10);
        digit_char_is_the_digit((n % 10) as int);
        let prefix = decimal(n / 10);
        assert(decimal(n) == prefix.push(digit_char((n % 10) as int)));
        assert(decimal(n).drop_last() =~= prefix);
        assert(decimal(n).last() == digit_char((n % 10) as int));
        assert(digits_value(decimal(n)) == 10 * digits_value(prefix) + (n % 10));
        assert(decimal(n)[0] == prefix[0]);
        if prefix.len() == 1 {
            digit_char_is_the_digit((n / 10) as int);
            assert(prefix[0] == digit_char((n / 10) as int));
        }
        assert forall|i: int| 0 <= i < decimal(n).len() implies '0' <= #[trigger] decimal(n)[i]
            <= '9' by {
            if i < prefix.len() {
                assert(decimal(n)[i] == prefix[i]);
            }
        }
        assert(decimal(n) != seq!['0']) by {
            assert(decimal(n).len() >= 2);
        }
    }
}

/// Exactly the code points of the Unicode `White_Space` property are
/// white space: U+0009 to U+000D, U+0020, U+0085, U+00A0, U+1680, U+2000
/// to U+200A, U+2028, U+2029, U+202F, U+205F and U+3000.
pub proof fn white_space_is_the_unicode_property(c: char)
    ensures
        is_white_space(c) <==> {
            let u = c as u32;
            ||| 9 <= u <= 13
            ||| u == 32
            ||| u == 133
            ||| u == 160
            ||| u == 5760
            ||| 8192 <= u <= 8202
            ||| u == 8232
            ||| u == 8233
            ||| u == 8239
            ||| u == 8287
            ||| u == 12288
        },
{
}

/// A text is blank exactly when it holds no character outside the Unicode
/// `White_Space` property; joining two texts is blank exactly when both are.
pub proof fn blank_texts(s: Seq<char>, t: Seq<char>)
    ensures
        is_blank(s) <==> forall|i: int| 0 <= i < s.len() ==> {
            let u = #[trigger] s[i] as u32;
            ||| 9 <= u <= 13
            ||| u == 32
            ||| u == 133
            ||| u == 160
            ||| u == 5760
            ||| 8192 <= u <= 8202
            ||| u == 8232
            ||| u == 8233
            ||| u == 8239
            ||| u == 8287
            ||| u == 12288
        },
        is_blank(s + t) <==> is_blank(s) && is_blank(t),
        is_blank(Seq::<char>::empty()),
{
    assert forall|i: int| 0 <= i < s.len() implies is_white_space(s[i]) == ({
        let u = s[i] as u32;
        ||| 9 <= u <= 13
        ||| u == 32
        ||| u == 133
        ||| u == 160
        ||| u == 5760
        ||| 8192 <= u <= 8202
        ||| u == 8232
        ||| u == 8233
        ||| u == 8239
        ||| u == 8287
        ||| u == 12288
    }) by {
        white_space_is_the_unicode_property(s[i]);
    }
    if is_blank(s) && is_blank(t) {
        assert forall|i: int| 0 <= i < (s + t).len() implies #[trigger] is_white_space(
            (s + t)[i],
        ) by {
            if i < s.len() {
                assert((s + t)[i] == s[i]);
            } else {
                assert((s + t)[i] == t[i - s.len()]);
            }
        }
    }
    if is_blank(s + t) {
        assert forall|i: int| 0 <= i < s.len() implies #[trigger] is_white_space(s[i]) by {
            assert((s + t)[i] == s[i]);
        }
        assert forall|i: int| 0 <= i < t.len() implies #[trigger] is_white_space(t[i]) by {
            assert((s + t)[i + s.len()] == t[i]);
        }
    }
}

} // verus!
