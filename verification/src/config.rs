//! Configuration values consumed by the core: the served root
//! directory and the port, both lenient — a missing or malformed value
//! silently falls back to its default.

use vstd::prelude::*;
use vstd::string::*;

verus! {

/// The port used when none (or a malformed one) is configured.
pub const DEFAULT_PORT: u16 = 8080;

pub open spec fn is_digit_char(c: char) -> bool {
    48 <= c as u32 <= 57
}

pub open spec fn digit_val(c: char) -> int {
    c as u32 - 48
}

pub open spec fn all_digits(s: Seq<char>) -> bool {
    forall|i: int| 0 <= i < s.len() ==> is_digit_char(#[trigger] s[i])
}

/// The number a digit string denotes, most significant digit first.
pub open spec fn digits_val(s: Seq<char>) -> int
    decreases s.len(),
{
    if s.len() == 0 {
        0
    } else {
        digits_val(s.drop_last()) * 10 + digit_val(s.last())
    }
}

/// A port string parses when, after an optional leading `+`, it is one
/// or more digits denoting a value of at most 65535.
pub open spec fn parse_u16_spec(s: Seq<char>) -> Option<u16> {
    let body = if s.len() > 0 && s[0] == '+' {
        s.drop_first()
    } else {
        s
    };
    if body.len() == 0 || !all_digits(body) {
        None
    } else if digits_val(body) > 65535 {
        None
    } else {
        Some(digits_val(body) as u16)
    }
}

/// The configured port: the parsed value, or the default when no value
/// was given or it does not parse.
pub open spec fn port_spec(arg: Option<&str>) -> u16 {
    match arg {
        None => DEFAULT_PORT,
        Some(s) => match parse_u16_spec(s@) {
            Some(v) => v,
            None => DEFAULT_PORT,
        },
    }
}

proof fn lemma_digits_val_nonneg(t: Seq<char>)
    requires
        all_digits(t),
    ensures
        digits_val(t) >= 0,
    decreases t.len(),
{
    if t.len() > 0 {
        assert(forall|i: int| 0 <= i < t.drop_last().len() ==> t.drop_last()[i] == t[i]);
        lemma_digits_val_nonneg(t.drop_last());
    }
}

proof fn lemma_digits_val_prefix(t: Seq<char>, k: int)
    requires
        all_digits(t),
        0 <= k <= t.len(),
    ensures
        digits_val(t.take(k)) <= digits_val(t),
    decreases t.len() - k,
{
    if k < t.len() {
        let d = t.drop_last();
        assert(forall|i: int| 0 <= i < d.len() ==> d[i] == t[i]);
        lemma_digits_val_nonneg(d);
        assert(is_digit_char(t[t.len() - 1]));
        assert(digit_val(t.last()) >= 0);
        assert(digits_val(t) == digits_val(d) * 10 + digit_val(t.last()));
        assert(digits_val(t) >= digits_val(d));
        assert(all_digits(d));
        lemma_digits_val_prefix(d, k);
        assert(d.take(k) =~= t.take(k));
    } else {
        assert(t.take(k) =~= t);
    }
}

/// Parse a decimal port number, with an optional leading `+`.
pub fn parse_u16(s: &str) -> (r: Option<u16>)
    ensures
        r == parse_u16_spec(s@),
{
    let n = s.unicode_len();
    let mut start: usize = 0;
    if n > 0 && s.get_char(0) == '+' {
        start = 1;
    }
    let ghost body = s@.subrange(start as int, n as int);
    proof {
        if start == 1 {
            assert(body =~= s@.drop_first());
        } else {
            assert(body =~= s@);
        }
    }
    if start == n {
        return None;
    }
    let mut acc: u32 = 0;
    let mut i: usize = start;
    while i < n
        invariant
            start <= i <= n,
            n == s@.len(),
            body == s@.subrange(start as int, n as int),
            body == (if s@.len() > 0 && s@[0] == '+' {
                s@.drop_first()
            } else {
                s@
            }),
            body.len() > 0,
            all_digits(s@.subrange(start as int, i as int)),
            acc == digits_val(s@.subrange(start as int, i as int)),
            acc <= 65535,
        decreases n - i,
    {
        let c = s.get_char(i);
        let cv = c as u32;
        let ghost pre = s@.subrange(start as int, i as int + 1);
        proof {
            assert(pre.drop_last() =~= s@.subrange(start as int, i as int));
            assert(pre.last() == s@[i as int]);
        }
        if cv < 48 || cv > 57 {
            proof {
                assert(body[i - start] == s@[i as int]);
                assert(!is_digit_char(body[i - start]));
                assert(!all_digits(body));
                assert(parse_u16_spec(s@) is None);
            }
            return None;
        }
        let d = cv - 48;
        let next = acc * 10 + d;
        proof {
            assert(forall|j: int| 0 <= j < pre.len() ==> pre[j] == s@[start + j]);
            assert(all_digits(pre));
            assert(digits_val(pre) == next);
        }
        if next > 65535 {
            proof {
                if all_digits(body) {
                    assert(body.take(i + 1 - start) =~= pre);
                    lemma_digits_val_prefix(body, i + 1 - start);
                    assert(digits_val(body) >= digits_val(pre));
                    assert(digits_val(body) > 65535);
                }
                assert(parse_u16_spec(s@) is None);
            }
            return None;
        }
        acc = next;
        i = i + 1;
    }
    proof {
        assert(s@.subrange(start as int, n as int) == body);
    }
    Some(acc as u16)
}

/// The configured port, or the default when the value is missing or
/// malformed.
pub fn port_or_default(arg: Option<&str>) -> (p: u16)
    ensures
        p == port_spec(arg),
{
    match arg {
        None => DEFAULT_PORT,
        Some(s) => match parse_u16(s) {
            Some(v) => v,
            None => DEFAULT_PORT,
        },
    }
}

/// The configured root directory, or the current directory.
pub fn root_or_default(arg: Option<String>) -> (r: String)
    ensures
        match arg {
            Some(s) => r@ == s@,
            None => r@ == "./"@,
        },
{
    match arg {
        Some(s) => s,
        None => String::from_str("./"),
    }
}

} // verus!
