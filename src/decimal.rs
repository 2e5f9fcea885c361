use vstd::prelude::*;

verus! {

/// An ASCII digit, `0` to `9`.
pub open spec fn is_digit(c: char) -> bool {
    '0' <= c && c <= '9'
}

/// A non-empty run of digits.
pub open spec fn is_digits(t: Seq<char>) -> bool {
    t.len() > 0 && forall|i: int| 0 <= i < t.len() ==> is_digit(#[trigger] t[i])
}

/// `digit+(.digit+)?`
pub open spec fn is_unsigned_decimal(t: Seq<char>) -> bool {
    is_digits(t) || exists|k: int|
        0 < k < t.len() && #[trigger] t[k] == '.' && is_digits(t.take(k)) && is_digits(t.skip(k + 1))
}

/// A sign character.
pub open spec fn is_sign(c: char) -> bool {
    c == '+' || c == '-'
}

/// `[+-]?digit+(.digit+)?`: the literals the engine reads as numbers.
pub open spec fn is_decimal_text(s: Seq<char>) -> bool {
    is_unsigned_decimal(s) || (s.len() > 0 && is_sign(s[0]) && is_unsigned_decimal(s.skip(1)))
}

/// The same language as `is_unsigned_decimal`, stated by positions: digits and
/// at most one dot, with a digit at each end.
pub open spec fn digits_with_inner_dot(t: Seq<char>) -> bool {
    &&& t.len() > 0
    &&& is_digit(t[0])
    &&& is_digit(t[t.len() - 1])
    &&& forall|i: int| 0 <= i < t.len() ==> is_digit(#[trigger] t[i]) || t[i] == '.'
    &&& forall|i: int, j: int|
        0 <= i < t.len() && 0 <= j < t.len() && #[trigger] t[i] == '.' && #[trigger] t[j] == '.'
            ==> i == j
}

proof fn lemma_unsigned_by_positions(t: Seq<char>)
    ensures
        is_unsigned_decimal(t) <==> digits_with_inner_dot(t),
{
    if is_unsigned_decimal(t) {
        if !is_digits(t) {
            let k = choose|k: int|
                0 < k < t.len() && #[trigger] t[k] == '.' && is_digits(t.take(k)) && is_digits(
                    t.skip(k + 1),
                );
            assert(t[0] == t.take(k)[0]);
            assert(t[t.len() - 1] == t.skip(k + 1)[t.len() - k - 2]);
            assert forall|i: int| 0 <= i < t.len() implies is_digit(#[trigger] t[i]) || t[i]
                == '.' by {
                if i < k {
                    assert(t[i] == t.take(k)[i]);
                } else if i > k {
                    assert(t[i] == t.skip(k + 1)[i - k - 1]);
                }
            }
            assert forall|i: int, j: int|
                0 <= i < t.len() && 0 <= j < t.len() && #[trigger] t[i] == '.' && #[trigger] t[j]
                    == '.' implies i == j by {
                assert forall|m: int| 0 <= m < t.len() && t[m] == '.' implies m == k by {
                    if m < k {
                        assert(t[m] == t.take(k)[m]);
                    } else if m > k {
                        assert(t[m] == t.skip(k + 1)[m - k - 1]);
                    }
                }
            }
        }
    }
    if digits_with_inner_dot(t) {
        if !is_digits(t) {
            let k = choose|k: int| 0 <= k < t.len() && !is_digit(#[trigger] t[k]);
            assert(t[k] == '.');
            assert(0 < k < t.len() - 1);
            assert forall|i: int| 0 <= i < k implies is_digit(#[trigger] t.take(k)[i]) by {
                assert(t.take(k)[i] == t[i]);
                assert(t[i] != '.' || i == k);
            }
            assert forall|i: int| 0 <= i < t.len() - k - 1 implies is_digit(
                #[trigger] t.skip(k + 1)[i],
            ) by {
                assert(t.skip(k + 1)[i] == t[i + k + 1]);
                assert(t[i + k + 1] != '.' || i + k + 1 == k);
            }
            assert(is_digits(t.take(k)));
            assert(is_digits(t.skip(k + 1)));
        }
    }
}

/// Whether `s` is a signed decimal literal: an optional `+` or `-`, then
/// digits, with at most one `.` that has digits on both sides.
pub fn is_decimal(s: &str) -> (r: bool)
    ensures
        r == is_decimal_text(s@),
{
    let n = s.unicode_len();
    if n == 0 {
        return false;
    }
    let first = s.get_char(0);
    let start: usize = if first == '+' || first == '-' { 1 } else { 0 };
    let ghost body = s@.skip(start as int);
    proof {
        lemma_unsigned_by_positions(s@);
        lemma_unsigned_by_positions(s@.skip(1));
        if start == 1 {
            assert(!is_digit(s@[0]));
        } else {
            assert(body =~= s@);
        }
        assert(is_decimal_text(s@) == digits_with_inner_dot(body));
    }
    if start == n {
        return false;
    }
    let mut i: usize = start;
    let mut has_dot = false;
    let mut dot: usize = 0;
    while i < n
        invariant
            n == s@.len(),
            start < n,
            start <= i <= n,
            body == s@.skip(start as int),
            is_decimal_text(s@) == digits_with_inner_dot(body),
            forall|j: int| start <= j < i ==> is_digit(#[trigger] s@[j]) || s@[j] == '.',
            forall|j: int| start <= j < i && (!has_dot || j != dot) ==> is_digit(#[trigger] s@[j]),
            has_dot ==> start < dot < i && s@[dot as int] == '.',
        decreases n - i,
    {
        let c = s.get_char(i);
        if c == '.' {
            if has_dot || i == start {
                proof {
                    if i == start {
                        assert(body[0] == '.');
                    } else {
                        assert(body[dot - start] == '.');
                        assert(body[i - start] == '.');
                    }
                }
                return false;
            }
            has_dot = true;
            dot = i;
        } else if !('0' <= c && c <= '9') {
            proof {
                assert(body[i - start] == c);
            }
            return false;
        }
        i += 1;
    }
    if has_dot && dot == n - 1 {
        proof {
            assert(body[body.len() - 1] == '.');
        }
        return false;
    }
    proof {
        assert(body[0] == s@[start as int]);
        assert forall|j: int| 0 <= j < body.len() implies is_digit(#[trigger] body[j]) || body[j]
            == '.' by {
            assert(body[j] == s@[j + start]);
        }
        assert forall|a: int, b: int|
            0 <= a < body.len() && 0 <= b < body.len() && #[trigger] body[a] == '.'
                && #[trigger] body[b] == '.' implies a == b by {
            assert(body[a] == s@[a + start]);
            assert(body[b] == s@[b + start]);
        }
        assert(body[body.len() - 1] == s@[n - 1]);
        assert(digits_with_inner_dot(body));
    }
    true
}

} // verus!
