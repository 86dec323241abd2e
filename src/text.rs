use vstd::prelude::*;

verus! {

pub open spec fn is_digit(c: char) -> bool {
    '0' <= c && c <= '9'
}

pub open spec fn all_digits(s: Seq<char>) -> bool {
    forall|i: int| 0 <= i < s.len() ==> is_digit(#[trigger] s[i])
}

/// The value of a sequence of decimal digits, most significant first.
pub open spec fn digits_value(s: Seq<char>) -> int
    decreases s.len(),
{
    if s.len() == 0 {
        0
    } else {
        digits_value(s.drop_last()) * 10 + (s.last() as int - '0' as int)
    }
}

/// The length of an optional leading `+`.
pub open spec fn sign_len(s: Seq<char>) -> int {
    if s.len() > 0 && s[0] == '+' {
        1
    } else {
        0
    }
}

/// The integer that a text spells in decimal, with an optional leading `+`.
pub open spec fn decimal_value(s: Seq<char>) -> Option<int> {
    let d = s.subrange(sign_len(s), s.len() as int);
    if d.len() > 0 && all_digits(d) {
        Some(digits_value(d))
    } else {
        None
    }
}

proof fn lemma_digits_value_nonneg(s: Seq<char>)
    requires
        all_digits(s),
    ensures
        digits_value(s) >= 0,
    decreases s.len(),
{
    if s.len() > 0 {
        assert(is_digit(s[s.len() - 1]));
        lemma_digits_value_nonneg(s.drop_last());
    }
}

/// Reads a decimal integer, with an optional leading `+`. The value is given
/// exactly up to `cap`, and as `cap` beyond it.
pub fn parse_capped(text: &str, cap: u32) -> (r: Option<u32>)
    requires
        cap <= 100_000_000,
    ensures
        r is Some <==> decimal_value(text@) is Some,
        r is Some ==> r->Some_0 as int == if decimal_value(text@)->Some_0 < cap {
            decimal_value(text@)->Some_0
        } else {
            cap as int
        },
{
    let n = text.unicode_len();
    let mut start: usize = 0;
    if n > 0 && text.get_char(0) == '+' {
        start = 1;
    }
    let ghost s = text@;
    assert(start == sign_len(s));
    if start == n {
        return None;
    }
    let mut acc: u32 = 0;
    let mut i: usize = start;
    while i < n
        invariant
            n == s.len(),
            s == text@,
            start == sign_len(s),
            start <= i <= n,
            all_digits(s.subrange(start as int, i as int)),
            acc <= cap,
            cap <= 100_000_000,
            acc as int == if digits_value(s.subrange(start as int, i as int)) < cap {
                digits_value(s.subrange(start as int, i as int))
            } else {
                cap as int
            },
        decreases n - i,
    {
        let c = text.get_char(i);
        let ghost prev = s.subrange(start as int, i as int);
        let ghost next = s.subrange(start as int, i + 1);
        assert(next.drop_last() =~= prev);
        assert(next.last() == c);
        if !('0' <= c && c <= '9') {
            assert(s.subrange(start as int, n as int)[i - start] == c);
            return None;
        }
        assert(all_digits(next)) by {
            assert forall|j: int| 0 <= j < next.len() implies is_digit(#[trigger] next[j]) by {
                if j < prev.len() {
                    assert(next[j] == prev[j]);
                }
            }
        }
        proof {
            lemma_digits_value_nonneg(prev);
        }
        let d: u32 = (c as u32) - ('0' as u32);
        if acc < cap {
            acc = acc * 10 + d;
            if acc > cap {
                acc = cap;
            }
        }
        i = i + 1;
    }
    assert(s.subrange(start as int, n as int) =~= s.subrange(sign_len(s), s.len() as int));
    Some(acc)
}

/// The decimal digits of a number.
pub open spec fn decimal_of(n: nat) -> Seq<char>
    decreases n,
{
    if n < 10 {
        "0123456789"@.subrange(n as int, n + 1int)
    } else {
        decimal_of(n / 10) + "0123456789"@.subrange((n % 10) as int, (n % 10) + 1int)
    }
}

pub fn decimal(n: u32) -> (r: String)
    ensures
        r@ == decimal_of(n as nat),
    decreases n,
{
    let digits = "0123456789";
    proof {
        reveal_strlit("0123456789");
    }
    if n < 10 {
        String::from_str(digits.substring_char(n as usize, n as usize + 1))
    } else {
        let head = decimal(n / 10);
        let d = (n % 10) as usize;
        head.concat(digits.substring_char(d, d + 1))
    }
}

/// A character as it stands inside a JSON string.
pub open spec fn escape_char(c: char) -> Seq<char> {
    if c == '"' {
        "\\\""@
    } else if c == '\\' {
        "\\\\"@
    } else if (c as u32) < 32 {
        "\\u00"@ + "0123456789abcdef"@.subrange((c as u32 / 16) as int, (c as u32 / 16) + 1)
            + "0123456789abcdef"@.subrange((c as u32 % 16) as int, (c as u32 % 16) + 1)
    } else {
        seq![c]
    }
}

pub open spec fn escaped(s: Seq<char>) -> Seq<char>
    decreases s.len(),
{
    if s.len() == 0 {
        Seq::empty()
    } else {
        escaped(s.drop_last()) + escape_char(s.last())
    }
}

/// A text as a JSON string literal, quotes included.
pub open spec fn json_string(s: Seq<char>) -> Seq<char> {
    "\""@ + escaped(s) + "\""@
}

pub fn json_string_of(text: &str) -> (r: String)
    ensures
        r@ == json_string(text@),
{
    let hex = "0123456789abcdef";
    proof {
        reveal_strlit("0123456789abcdef");
    }
    let ghost s = text@;
    let n = text.unicode_len();
    let mut out = String::from_str("\"");
    let ghost quote = "\""@;
    let mut i: usize = 0;
    while i < n
        invariant
            n == s.len(),
            s == text@,
            i <= n,
            hex@ == "0123456789abcdef"@,
            hex@.len() == 16,
            out@ == quote + escaped(s.subrange(0, i as int)),
        decreases n - i,
    {
        let c = text.get_char(i);
        let ghost before = out@;
        assert(s.subrange(0, i + 1).drop_last() =~= s.subrange(0, i as int));
        if c == '"' {
            out.append("\\\"");
        } else if c == '\\' {
            out.append("\\\\");
        } else if (c as u32) < 32 {
            let code = c as u32;
            let high = hex.substring_char((code / 16) as usize, (code / 16) as usize + 1);
            let low = hex.substring_char((code % 16) as usize, (code % 16) as usize + 1);
            out.append("\\u00");
            out.append(high);
            out.append(low);
            assert(escape_char(c) == "\\u00"@ + high@ + low@);
            assert(out@ =~= before + ("\\u00"@ + high@ + low@));
        } else {
            let one = text.substring_char(i, i + 1);
            assert(one@ =~= seq![c]);
            out.append(one);
        }
        assert(out@ =~= before + escape_char(c));
        assert(out@ =~= quote + escaped(s.subrange(0, i + 1)));
        i = i + 1;
    }
    assert(s.subrange(0, n as int) =~= s);
    out.append("\"");
    out
}

} // verus!
