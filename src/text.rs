use vstd::prelude::*;

verus! {

broadcast use vstd::string::axiom_spec_iter;

/// Whether the texts `a` and `b` hold the same characters.
pub(crate) fn same_text(a: &str, b: &str) -> (r: bool)
    ensures
        r == (a@ == b@),
{
    let a = a.to_owned();
    let b = b.to_owned();
    a == b
}

/// Whether `c` is one of the ASCII digits `0` to `9`.
pub open spec fn is_digit(c: char) -> bool {
    '0' <= c && c <= '9'
}

/// Whether `s` is a non-empty run of decimal digits.
pub open spec fn is_decimal(s: Seq<char>) -> bool {
    s.len() > 0 && forall|i: int| 0 <= i < s.len() ==> is_digit(#[trigger] s[i])
}

/// The value of the decimal digits `s`, most significant first.
pub open spec fn decimal_value(s: Seq<char>) -> nat
    decreases s.len(),
{
    if s.len() == 0 {
        0
    } else {
        decimal_value(s.drop_last()) * 10 + (s.last() as nat - '0' as nat) as nat
    }
}

/// A digit string's prefix is worth no more than the whole string.
proof fn lemma_prefix_value_le(s: Seq<char>, k: int)
    requires
        0 <= k <= s.len(),
        forall|i: int| 0 <= i < s.len() ==> is_digit(#[trigger] s[i]),
    ensures
        decimal_value(s.take(k)) <= decimal_value(s),
    decreases s.len(),
{
    if k < s.len() {
        let rest = s.drop_last();
        assert(rest.take(k) =~= s.take(k));
        assert forall|i: int| 0 <= i < rest.len() implies is_digit(#[trigger] rest[i]) by {
            assert(rest[i] == s[i]);
        }
        lemma_prefix_value_le(rest, k);
    } else {
        assert(s.take(k) =~= s);
    }
}

/// Reads a non-negative decimal count. The text must be digits only, and
/// the value must fit in a `u64`.
pub fn parse_count(text: &str) -> (r: Option<u64>)
    ensures
        r is Some <==> is_decimal(text@) && decimal_value(text@) <= u64::MAX,
        r matches Some(v) ==> v == decimal_value(text@),
{
    let mut value: u64 = 0;
    let mut fits = true;
    for c in it: text.chars()
        invariant
            it.seq() == text@,
            fits ==> forall|i: int| 0 <= i < it.index() ==> is_digit(#[trigger] text@[i]),
            fits ==> value == decimal_value(text@.take(it.index() as int)),
            !fits ==> !(is_decimal(text@) && decimal_value(text@) <= u64::MAX),
    {
        proof {
            assert(text@.take(it.index() + 1).drop_last() =~= text@.take(it.index() as int));
        }
        if fits {
            if '0' <= c && c <= '9' {
                let next: u128 = value as u128 * 10 + (c as u32 - '0' as u32) as u128;
                if next <= u64::MAX as u128 {
                    value = next as u64;
                } else {
                    fits = false;
                    proof {
                        if is_decimal(text@) {
                            lemma_prefix_value_le(text@, it.index() + 1);
                        }
                    }
                }
            } else {
                fits = false;
            }
        }
    }
    if fits && !text.is_empty() {
        proof {
            assert(text@.take(text@.len() as int) =~= text@);
        }
        Some(value)
    } else {
        None
    }
}

} // verus!
