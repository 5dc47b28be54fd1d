//! The correlation token between a randomness request and its callback.
//!
//! A round's job id is the fixed prefix `lotto-` followed by the round
//! nonce in canonical decimal (no leading zeros, no sign). Formatting and
//! parsing are exact inverses: a string parses to `n` precisely when it is
//! the job id issued for round `n`.

use vstd::prelude::*;
use vstd::arithmetic::div_mod::{lemma_fundamental_div_mod, lemma_fundamental_div_mod_converse};
use vstd::string::StrSliceExecFns;
use vstd::string::StringExecFns;

verus! {

/// The character that writes one decimal digit.
pub open spec fn digit_char(d: int) -> char
    recommends
        0 <= d <= 9,
{
    if d == 0 {
        '0'
    } else if d == 1 {
        '1'
    } else if d == 2 {
        '2'
    } else if d == 3 {
        '3'
    } else if d == 4 {
        '4'
    } else if d == 5 {
        '5'
    } else if d == 6 {
        '6'
    } else if d == 7 {
        '7'
    } else if d == 8 {
        '8'
    } else {
        '9'
    }
}

/// The value of one decimal digit character, or -1 for any other character.
pub open spec fn digit_val(c: char) -> int {
    if c == '0' {
        0
    } else if c == '1' {
        1
    } else if c == '2' {
        2
    } else if c == '3' {
        3
    } else if c == '4' {
        4
    } else if c == '5' {
        5
    } else if c == '6' {
        6
    } else if c == '7' {
        7
    } else if c == '8' {
        8
    } else if c == '9' {
        9
    } else {
        -1
    }
}

pub open spec fn is_digit(c: char) -> bool {
    digit_val(c) >= 0
}

/// The canonical decimal writing of a number, most significant digit first.
pub open spec fn dec_digits(n: nat) -> Seq<char>
    decreases n,
{
    if n < 10 {
        seq![digit_char(n as int)]
    } else {
        dec_digits(n / 10).push(digit_char((n % 10) as int))
    }
}

/// The number written by a digit string, read left to right.
pub open spec fn dec_value(s: Seq<char>) -> int
    decreases s.len(),
{
    if s.len() == 0 {
        0
    } else {
        dec_value(s.drop_last()) * 10 + digit_val(s.last())
    }
}

pub open spec fn all_digits(s: Seq<char>) -> bool {
    forall|i: int| 0 <= i < s.len() ==> is_digit(#[trigger] s[i])
}

/// A canonical decimal string: at least one digit, digits only, and no
/// leading zero (except for the single digit `0` itself).
pub open spec fn canonical_dec(s: Seq<char>) -> bool {
    &&& s.len() >= 1
    &&& all_digits(s)
    &&& s.len() > 1 ==> s[0] != '0'
}

/// The fixed prefix of every job id.
pub open spec fn job_prefix() -> Seq<char> {
    seq!['l', 'o', 't', 't', 'o', '-']
}

/// The job id issued when round `n` is created.
pub open spec fn job_id_of(n: nat) -> Seq<char> {
    job_prefix() + dec_digits(n)
}

/// The decimal writing of `n` is canonical and writes `n` itself.
pub proof fn lemma_dec_digits_props(n: nat)
    ensures
        canonical_dec(dec_digits(n)),
        dec_value(dec_digits(n)) == n,
        dec_digits(n)[0] == '0' ==> n == 0,
        n < 10 <==> dec_digits(n).len() == 1,
    decreases n,
{
    if n < 10 {
        assert(dec_digits(n) =~= seq![digit_char(n as int)]);
        assert(dec_digits(n).drop_last() =~= Seq::<char>::empty());
        assert(dec_value(Seq::<char>::empty()) == 0);
        assert(dec_digits(n).last() == digit_char(n as int));
        assert(dec_value(dec_digits(n)) == digit_val(digit_char(n as int)));
    } else {
        lemma_dec_digits_props(n / 10);
        lemma_fundamental_div_mod(n as int, 10);
        let head = dec_digits(n / 10);
        let c = digit_char((n % 10) as int);
        assert(dec_digits(n) == head.push(c));
        assert(dec_digits(n).drop_last() =~= head);
        assert(dec_digits(n).last() == c);
        assert(digit_val(c) == n % 10);
        assert(dec_value(dec_digits(n)) == dec_value(head) * 10 + n % 10);
        assert(n / 10 >= 1);
        assert forall|i: int| 0 <= i < dec_digits(n).len() implies is_digit(
            #[trigger] dec_digits(n)[i],
        ) by {
            if i < head.len() {
                assert(dec_digits(n)[i] == head[i]);
            } else {
                assert(dec_digits(n)[i] == c);
            }
        }
        assert(dec_digits(n)[0] == head[0]);
        assert(head[0] != '0');
    }
}

/// A canonical decimal string is the writing of the number it reads as.
pub proof fn lemma_canonical_unique(s: Seq<char>)
    requires
        canonical_dec(s),
    ensures
        dec_value(s) >= 0,
        s =~= dec_digits(dec_value(s) as nat),
    decreases s.len(),
{
    if s.len() == 1 {
        assert(s.drop_last() =~= Seq::<char>::empty());
        assert(dec_value(Seq::<char>::empty()) == 0);
        assert(s.last() == s[0]);
        assert(dec_value(s) == digit_val(s[0]));
        assert(is_digit(s[0]));
        assert(s =~= dec_digits(dec_value(s) as nat));
    } else {
        let t = s.drop_last();
        assert(t.len() >= 1);
        assert(forall|i: int| 0 <= i < t.len() ==> t[i] == s[i]);
        assert(all_digits(t)) by {
            assert(forall|i: int| 0 <= i < t.len() ==> is_digit(#[trigger] t[i]));
        }
        assert(t[0] == s[0]);
        lemma_canonical_unique(t);
        let v = dec_value(t);
        let d = digit_val(s.last());
        assert(is_digit(s.last()));
        assert(0 <= d <= 9);
        lemma_dec_digits_props(v as nat);
        if v == 0 {
            // Then t is the single digit `0`, so s would have a leading zero.
            assert(t =~= dec_digits(0));
            assert(dec_digits(0) =~= seq!['0']);
            assert(s[0] == '0');
            assert(false);
        }
        assert(dec_value(s) == v * 10 + d);
        lemma_fundamental_div_mod_converse(v * 10 + d, 10, v, d);
        assert((v * 10 + d) / 10 == v);
        assert((v * 10 + d) % 10 == d);
        assert(v * 10 + d >= 10);
        assert(dec_digits((v * 10 + d) as nat) == dec_digits(v as nat).push(
            digit_char(d),
        ));
        assert(digit_char(digit_val(s.last())) == s.last());
        assert(s =~= t.push(s.last()));
        assert(s =~= dec_digits(dec_value(s) as nat));
    }
}

/// Reading a digit string never yields a negative number.
pub proof fn lemma_dec_value_nonneg(s: Seq<char>)
    requires
        all_digits(s),
    ensures
        dec_value(s) >= 0,
    decreases s.len(),
{
    if s.len() > 0 {
        let t = s.drop_last();
        assert(forall|i: int| 0 <= i < t.len() ==> t[i] == s[i]);
        lemma_dec_value_nonneg(t);
        assert(is_digit(s.last()));
    }
}

/// Reading a prefix of a digit string never exceeds reading the whole.
pub proof fn lemma_dec_value_prefix_le(s: Seq<char>, k: int)
    requires
        all_digits(s),
        0 <= k <= s.len(),
    ensures
        dec_value(s.take(k)) <= dec_value(s),
    decreases s.len(),
{
    if k == s.len() {
        assert(s.take(k) =~= s);
    } else {
        let t = s.drop_last();
        assert(forall|i: int| 0 <= i < t.len() ==> t[i] == s[i]);
        lemma_dec_value_prefix_le(t, k);
        assert(s.take(k) =~= t.take(k));
        lemma_dec_value_nonneg(t);
        assert(is_digit(s.last()));
        assert(dec_value(s) == dec_value(t) * 10 + digit_val(s.last()));
        assert(dec_value(t) * 10 >= dec_value(t));
    }
}

/// No two rounds share a job id.
pub proof fn lemma_job_id_injective(a: nat, b: nat)
    requires
        job_id_of(a) == job_id_of(b),
    ensures
        a == b,
{
    lemma_dec_digits_props(a);
    lemma_dec_digits_props(b);
    assert(job_id_of(a).len() == 6 + dec_digits(a).len());
    assert(job_id_of(b).len() == 6 + dec_digits(b).len());
    assert(dec_digits(a).len() == dec_digits(b).len());
    assert forall|i: int| 0 <= i < dec_digits(a).len() implies dec_digits(a)[i] == dec_digits(
        b,
    )[i] by {
        assert(dec_digits(a)[i] == job_id_of(a)[6 + i]);
        assert(dec_digits(b)[i] == job_id_of(b)[6 + i]);
    }
    assert(dec_digits(a) =~= dec_digits(b));
    assert(dec_value(dec_digits(a)) == dec_value(dec_digits(b)));
}

/// What holds of every job id, read off from its shape.
proof fn lemma_job_id_shape(s: Seq<char>, n: nat)
    requires
        s == job_id_of(n),
    ensures
        s.len() == 6 + dec_digits(n).len(),
        s.len() >= 7,
        forall|j: int| 0 <= j < 6 ==> s[j] == #[trigger] job_prefix()[j],
        s.subrange(6, s.len() as int) =~= dec_digits(n),
        all_digits(s.subrange(6, s.len() as int)),
        dec_value(s.subrange(6, s.len() as int)) == n,
        s.len() > 7 ==> s[6] != '0',
{
    lemma_dec_digits_props(n);
    assert(s.subrange(6, s.len() as int) =~= dec_digits(n));
    if s.len() > 7 {
        assert(s[6] == dec_digits(n)[0]);
        assert(dec_digits(n).len() > 1);
    }
}

/// The digit character of a value below ten, as a string slice.
fn digit_str(d: u32) -> (s: &'static str)
    requires
        d <= 9,
    ensures
        s@ =~= seq![digit_char(d as int)],
{
    proof {
        reveal_strlit("0");
        reveal_strlit("1");
        reveal_strlit("2");
        reveal_strlit("3");
        reveal_strlit("4");
        reveal_strlit("5");
        reveal_strlit("6");
        reveal_strlit("7");
        reveal_strlit("8");
        reveal_strlit("9");
    }
    if d == 0 {
        "0"
    } else if d == 1 {
        "1"
    } else if d == 2 {
        "2"
    } else if d == 3 {
        "3"
    } else if d == 4 {
        "4"
    } else if d == 5 {
        "5"
    } else if d == 6 {
        "6"
    } else if d == 7 {
        "7"
    } else if d == 8 {
        "8"
    } else {
        "9"
    }
}

/// Writes a number in canonical decimal.
pub fn dec_string(n: u32) -> (s: String)
    ensures
        s@ == dec_digits(n as nat),
    decreases n,
{
    if n < 10 {
        let s = String::from_str(digit_str(n));
        proof {
            assert(s@ =~= dec_digits(n as nat));
        }
        s
    } else {
        let mut s = dec_string(n / 10);
        s.append(digit_str(n % 10));
        proof {
            assert(s@ =~= dec_digits(n as nat));
        }
        s
    }
}

/// The digit value of a decimal digit character, if it is one.
fn char_digit(c: char) -> (r: Option<u32>)
    ensures
        r matches Some(d) ==> d <= 9 && digit_val(c) == d as int,
        r is None ==> !is_digit(c),
{
    if c == '0' {
        Some(0)
    } else if c == '1' {
        Some(1)
    } else if c == '2' {
        Some(2)
    } else if c == '3' {
        Some(3)
    } else if c == '4' {
        Some(4)
    } else if c == '5' {
        Some(5)
    } else if c == '6' {
        Some(6)
    } else if c == '7' {
        Some(7)
    } else if c == '8' {
        Some(8)
    } else if c == '9' {
        Some(9)
    } else {
        None
    }
}

/// Writes the job id issued for a round.
pub fn format_job_id(nonce: u32) -> (s: String)
    ensures
        s@ == job_id_of(nonce as nat),
{
    proof {
        reveal_strlit("lotto-");
    }
    let mut s = String::from_str("lotto-");
    let digits = dec_string(nonce);
    s.append(digits.as_str());
    proof {
        assert(s@ =~= job_id_of(nonce as nat));
    }
    s
}

/// Reads a job id back to its round nonce.
///
/// Exactly the strings that `format_job_id` issues are accepted: the fixed
/// prefix followed by a canonical decimal that fits the nonce type. Anything
/// else — a foreign prefix, a stray character, a leading zero, a number too
/// large — is rejected, so a malformed callback can never be steered to a
/// round it was not issued for.
pub fn parse_job_id(s: &str) -> (r: Option<u32>)
    ensures
        r matches Some(n) ==> s@ == job_id_of(n as nat),
        r is None ==> forall|n: u32| s@ != job_id_of(n as nat),
{
    let len = s.unicode_len();
    if len < 7 {
        proof {
            assert forall|n: u32| s@ != job_id_of(n as nat) by {
                if s@ == job_id_of(n as nat) {
                    lemma_job_id_shape(s@, n as nat);
                }
            }
        }
        return None;
    }
    let ok = s.get_char(0) == 'l' && s.get_char(1) == 'o' && s.get_char(2) == 't' && s.get_char(3)
        == 't' && s.get_char(4) == 'o' && s.get_char(5) == '-';
    if !ok {
        proof {
            assert forall|n: u32| s@ != job_id_of(n as nat) by {
                if s@ == job_id_of(n as nat) {
                    lemma_job_id_shape(s@, n as nat);
                }
            }
        }
        return None;
    }
    if len > 7 && s.get_char(6) == '0' {
        proof {
            assert forall|n: u32| s@ != job_id_of(n as nat) by {
                if s@ == job_id_of(n as nat) {
                    lemma_job_id_shape(s@, n as nat);
                }
            }
        }
        return None;
    }
    let mut acc: u32 = 0;
    let mut i: usize = 6;
    while i < len
        invariant
            6 <= i <= len,
            len == s@.len(),
            len >= 7,
            s@[0] == 'l',
            s@[1] == 'o',
            s@[2] == 't',
            s@[3] == 't',
            s@[4] == 'o',
            s@[5] == '-',
            len > 7 ==> s@[6] != '0',
            forall|j: int| 6 <= j < i ==> is_digit(#[trigger] s@[j]),
            acc as int == dec_value(s@.subrange(6, i as int)),
        decreases len - i,
    {
        let c = s.get_char(i);
        let d: u32 = match char_digit(c) {
            Some(d) => d,
            None => {
                proof {
                    assert forall|n: u32| s@ != job_id_of(n as nat) by {
                        if s@ == job_id_of(n as nat) {
                            lemma_job_id_shape(s@, n as nat);
                            assert(is_digit(s@.subrange(6, s@.len() as int)[i - 6]));
                            assert(s@.subrange(6, s@.len() as int)[i - 6] == s@[i as int]);
                        }
                    }
                }
                return None;
            },
        };
        proof {
            lemma_fundamental_div_mod((u32::MAX - d) as int, 10);
        }
        if acc > (u32::MAX - d) / 10 {
            proof {
                assert(acc as int * 10 + d > u32::MAX);
                assert forall|n: u32| s@ != job_id_of(n as nat) by {
                    if s@ == job_id_of(n as nat) {
                        lemma_job_id_shape(s@, n as nat);
                        let full = s@.subrange(6, s@.len() as int);
                        lemma_dec_value_prefix_le(full, i + 1 - 6);
                        assert(full.take(i + 1 - 6) =~= s@.subrange(6, i + 1));
                        assert(s@.subrange(6, i + 1).drop_last() =~= s@.subrange(6, i as int));
                        assert(s@.subrange(6, i + 1).last() == s@[i as int]);
                        assert(dec_value(s@.subrange(6, i + 1)) == acc as int * 10 + d);
                        assert(dec_value(full) <= u32::MAX);
                    }
                }
            }
            return None;
        }
        proof {
            assert(s@.subrange(6, i + 1).drop_last() =~= s@.subrange(6, i as int));
            assert(s@.subrange(6, i + 1).last() == s@[i as int]);
        }
        acc = acc * 10 + d;
        i = i + 1;
    }
    proof {
        let digits = s@.subrange(6, s@.len() as int);
        assert(canonical_dec(digits)) by {
            assert(digits.len() == len - 6);
            assert(forall|j: int|
                0 <= j < digits.len() ==> digits[j] == #[trigger] s@[6 + j]);
            if digits.len() > 1 {
                assert(digits[0] == s@[6]);
            }
        }
        lemma_canonical_unique(digits);
        assert(digits =~= dec_digits(acc as nat));
        assert(s@ =~= job_prefix() + dec_digits(acc as nat));
    }
    Some(acc)
}

} // verus!
