use vstd::prelude::*;

verus! {

/// The character of the decimal digit `d`.
pub open spec fn digit_char(d: nat) -> char {
    (48 + d) as char
}

/// Whether `c` is one of the ASCII digits `0` to `9`.
pub open spec fn is_digit(c: char) -> bool {
    '0' <= c && c <= '9'
}

/// The number that a string of decimal digits spells, most significant first.
pub open spec fn digits_value(s: Seq<char>) -> nat
    decreases s.len(),
{
    if s.len() == 0 {
        0
    } else {
        digits_value(s.drop_last()) * 10 + ((s.last() as nat) - 48) as nat
    }
}

/// Every character of `s` is a decimal digit.
pub open spec fn all_digits(s: Seq<char>) -> bool {
    forall|i: int| 0 <= i < s.len() ==> is_digit(#[trigger] s[i])
}

/// The shortest decimal spelling of `n`: no sign, no leading zero but for `0` itself.
pub open spec fn decimal(n: nat) -> Seq<char>
    decreases n,
{
    if n < 10 {
        seq![digit_char(n)]
    } else {
        decimal(n / 10).push(digit_char(n % 10))
    }
}

/// What reading `s` as a `u32` in base ten gives: an optional `+`, then one
/// or more digits, whose value fits in 32 bits; anything else is refused.
pub open spec fn parse_u32_spec(s: Seq<char>) -> Option<u32> {
    let body = if s.len() > 0 && s[0] == '+' {
        s.drop_first()
    } else {
        s
    };
    if body.len() > 0 && all_digits(body) && digits_value(body) <= u32::MAX {
        Some(digits_value(body) as u32)
    } else {
        None
    }
}

/// The one-character text of the digit `d`, for `d` below ten.
fn digit_text(d: u8) -> (t: &'static str)
    requires
        d < 10,
    ensures
        t@ == seq![digit_char(d as nat)],
{
    proof {
        reveal_strlit("0");
        reveal_strlit("1");
        reveal_strlit("2");
        reveal_strlit("3");
        reveal_strlit("4");
        reveal_strlit("5");
        reveal_strlit("6");
        reveal_strlit("7");
        reveal_strlit("8");
        reveal_strlit("9");
    }
    let t = match d {
        0 => "0",
        1 => "1",
        2 => "2",
        3 => "3",
        4 => "4",
        5 => "5",
        6 => "6",
        7 => "7",
        8 => "8",
        _ => "9",
    };
    assert(t@ =~= seq![digit_char(d as nat)]);
    t
}

/// Writes `n` in base ten, as `u64::to_string` does.
pub fn decimal_string(n: u64) -> (s: String)
    ensures
        s@ == decimal(n as nat),
    decreases n,
{
    if n < 10 {
        let mut s = String::new();
        s.append(digit_text(n as u8));
        assert(s@ =~= decimal(n as nat));
        s
    } else {
        let mut s = decimal_string(n / 10);
        s.append(digit_text((n % 10) as u8));
        assert(s@ =~= decimal(n as nat));
        s
    }
}

/// The value of a string of digits is at least that of each of its prefixes.
proof fn lemma_digits_value_prefix(s: Seq<char>, k: int)
    requires
        0 <= k <= s.len(),
    ensures
        digits_value(s) >= digits_value(s.take(k)),
    decreases s.len(),
{
    if k == s.len() {
        assert(s.take(k) =~= s);
    } else {
        assert(s.drop_last().take(k) =~= s.take(k));
        lemma_digits_value_prefix(s.drop_last(), k);
    }
}

/// Reads a string as a `u32` in base ten, as `str::parse::<u32>` does:
/// an optional `+` followed by one or more ASCII digits whose value fits.
pub fn parse_u32(s: &str) -> (r: Option<u32>)
    ensures
        r == parse_u32_spec(s@),
{
    let len: usize = s.unicode_len();
    let ghost text = s@;
    let mut start: usize = 0;
    if len > 0 && s.get_char(0) == '+' {
        start = 1;
    }
    let ghost body = if text.len() > 0 && text[0] == '+' {
        text.drop_first()
    } else {
        text
    };
    assert(body =~= text.subrange(start as int, len as int));
    assert(parse_u32_spec(text) == (if body.len() > 0 && all_digits(body) && digits_value(body)
        <= u32::MAX {
        Some(digits_value(body) as u32)
    } else {
        None
    }));
    if start == len {
        return None;
    }
    let mut acc: u64 = 0;
    let mut i: usize = start;
    while i < len
        invariant
            len == text.len(),
            text == s@,
            start <= i <= len,
            start < len,
            body =~= text.subrange(start as int, len as int),
            acc as nat == digits_value(body.take(i - start)),
            acc <= u32::MAX,
            all_digits(body.take(i - start)),
            parse_u32_spec(s@) == (if body.len() > 0 && all_digits(body) && digits_value(body)
                <= u32::MAX {
                Some(digits_value(body) as u32)
            } else {
                None
            }),
        decreases len - i,
    {
        let c: char = s.get_char(i);
        let ghost k: int = i - start;
        assert(body[k] == c);
        if !('0' <= c && c <= '9') {
            assert(!all_digits(body));
            return None;
        }
        let d: u64 = (c as u32 - 48) as u64;
        proof {
            assert(body.take(k + 1).drop_last() =~= body.take(k));
            assert(body.take(k + 1).last() == c);
        }
        acc = acc * 10 + d;
        assert(acc as nat == digits_value(body.take(k + 1)));
        if acc > 4294967295u64 {
            proof {
                if all_digits(body) {
                    lemma_digits_value_prefix(body, k + 1);
                }
            }
            return None;
        }
        i = i + 1;
        assert(all_digits(body.take(i - start))) by {
            assert forall|j: int| 0 <= j < body.take(i - start).len() implies is_digit(
                #[trigger] body.take(i - start)[j],
            ) by {
                if j < k {
                    assert(body.take(i - start)[j] == body.take(k)[j]);
                }
            }
        }
    }
    assert(body.take(len - start) =~= body);
    Some(acc as u32)
}

/// Every digit string that `decimal` produces is made of digits and spells its number.
proof fn lemma_decimal_digits(n: nat)
    ensures
        decimal(n).len() > 0,
        all_digits(decimal(n)),
        digits_value(decimal(n)) == n,
        decimal(n)[0] != '+',
    decreases n,
{
    assert((digit_char(n % 10) as nat) == 48 + n % 10);
    if n < 10 {
        assert(decimal(n).drop_last() =~= Seq::<char>::empty());
        assert(decimal(n).last() == digit_char(n));
        assert(digits_value(decimal(n).drop_last()) == 0);
    } else {
        lemma_decimal_digits(n / 10);
        let s = decimal(n / 10).push(digit_char(n % 10));
        assert(s.drop_last() =~= decimal(n / 10));
        assert(s.last() == digit_char(n % 10));
        assert(digits_value(s) == digits_value(decimal(n / 10)) * 10 + n % 10);
        assert(s[0] == decimal(n / 10)[0]);
    }
}

/// Reading back what was written gives the number again: for every `u32`,
/// parsing its decimal spelling yields that same number.
pub proof fn lemma_parse_decimal_roundtrip(n: u32)
    ensures
        parse_u32_spec(decimal(n as nat)) == Some(n),
{
    lemma_decimal_digits(n as nat);
}

/// Reading a number follows the digits, as `str::parse::<u32>` does: a single
/// digit reads as itself; one more digit at the end multiplies by ten and adds
/// it, and refuses what no longer fits in 32 bits; a leading `+` changes
/// nothing; the empty text and any text with another character at its end
/// are refused.
pub proof fn lemma_parse_follows_digits(s: Seq<char>, d: nat, c: char)
    requires
        d < 10,
    ensures
        parse_u32_spec(seq![digit_char(d)]) == Some(d as u32),
        parse_u32_spec(s) matches Some(v) ==> (v * 10 + d <= u32::MAX ==> parse_u32_spec(
            s.push(digit_char(d)),
        ) == Some((v * 10 + d) as u32)),
        parse_u32_spec(s) matches Some(v) ==> (v * 10 + d > u32::MAX ==> parse_u32_spec(
            s.push(digit_char(d)),
        ) is None),
        s.len() == 0 || s[0] != '+' ==> parse_u32_spec(seq!['+'] + s) == parse_u32_spec(s),
        !is_digit(c) ==> parse_u32_spec(s.push(c)) is None,
        parse_u32_spec(Seq::<char>::empty()) is None,
{
    let dc = digit_char(d);
    assert((dc as nat) == 48 + d);
    assert(seq![dc].drop_last() =~= Seq::<char>::empty());
    assert(digits_value(seq![dc].drop_last()) == 0);
    assert((seq!['+'] + s)[0] == '+');
    assert((seq!['+'] + s).drop_first() =~= s);
    if s.len() > 0 {
        assert(s.push(dc)[0] == s[0]);
        assert(s.push(c)[0] == s[0]);
        assert(s.push(dc).drop_first() =~= s.drop_first().push(dc));
        assert(s.push(c).drop_first() =~= s.drop_first().push(c));
    }
    let body = if s.len() > 0 && s[0] == '+' {
        s.drop_first()
    } else {
        s
    };
    let body2 = if s.push(dc).len() > 0 && s.push(dc)[0] == '+' {
        s.push(dc).drop_first()
    } else {
        s.push(dc)
    };
    if parse_u32_spec(s) is Some {
        assert(body2 =~= body.push(dc));
        assert(body2.drop_last() =~= body);
        assert(all_digits(body2)) by {
            assert forall|i: int| 0 <= i < body2.len() implies is_digit(#[trigger] body2[i]) by {
                if i < body.len() {
                    assert(body2[i] == body[i]);
                }
            }
        }
    }
    let body3 = if s.push(c).len() > 0 && s.push(c)[0] == '+' {
        s.push(c).drop_first()
    } else {
        s.push(c)
    };
    if !is_digit(c) && body3.len() > 0 {
        assert(body3[body3.len() - 1] == c);
    }
}

/// The written form of a number is canonical: only the digits `0` to `9`,
/// and no leading zero but for zero itself, which is written `0`. With
/// `lemma_parse_decimal_roundtrip` this makes it the one such text that
/// reads back as the number.
pub proof fn lemma_decimal_is_canonical(n: nat)
    ensures
        decimal(n).len() > 0,
        forall|i: int| 0 <= i < decimal(n).len() ==> '0' <= #[trigger] decimal(n)[i] && decimal(n)[i] <= '9',
        decimal(n)[0] == '0' <==> n == 0,
        n == 0 ==> decimal(n).len() == 1,
    decreases n,
{
    lemma_decimal_digits(n);
    assert((digit_char(n % 10) as nat) == 48 + n % 10);
    assert forall|i: int| 0 <= i < decimal(n).len() implies '0' <= #[trigger] decimal(n)[i] && decimal(n)[i]
        <= '9' by {
        assert(is_digit(decimal(n)[i]));
    }
    if n >= 10 {
        lemma_decimal_is_canonical(n / 10);
        assert(decimal(n)[0] == decimal(n / 10)[0]);
    }
}

} // verus!
