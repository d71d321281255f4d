//! Number encodings the private-input values are stated in: canonical
//! decimal digit strings, and the big-endian byte encoding that turns a
//! coordinate's canonical string into one big integer.

use vstd::prelude::*;
use vstd::string::StrSliceExecFns;
use vstd::string::StringSliceAdditionalSpecFns;

verus! {

/// The integer a big-endian byte string denotes.
pub open spec fn be_nat(bytes: Seq<u8>) -> nat
    decreases bytes.len(),
{
    if bytes.len() == 0 {
        0
    } else {
        (be_nat(bytes.drop_last()) * 256 + bytes.last()) as nat
    }
}

/// The canonical decimal digit sequence of `n`: no sign, no leading
/// zeros, `"0"` for zero.
pub open spec fn dec_seq(n: nat) -> Seq<char>
    decreases n,
{
    if n < 10 {
        seq![dec_digit(n)]
    } else {
        dec_seq(n / 10).push(dec_digit(n % 10))
    }
}

/// The character of one decimal digit.
pub open spec fn dec_digit(d: nat) -> char
    recommends
        d < 10,
{
    ((48 + d % 10) as u8) as char
}

/// The integer a decimal digit sequence denotes.
pub open spec fn dec_nat(s: Seq<char>) -> nat
    decreases s.len(),
{
    if s.len() == 0 {
        0
    } else {
        dec_nat(s.drop_last()) * 10 + dec_digit_val(s.last())
    }
}

/// The value of one decimal digit character.
pub open spec fn dec_digit_val(c: char) -> nat
    recommends
        '0' <= c <= '9',
{
    if '0' <= c <= '9' {
        (c as u32 - 48) as nat
    } else {
        0
    }
}

/// A canonical decimal digit sequence: nonempty, digits only, and no
/// leading zero unless the sequence is exactly `"0"`.
pub open spec fn is_dec_seq(s: Seq<char>) -> bool {
    &&& s.len() > 0
    &&& forall|i: int| 0 <= i < s.len() ==> '0' <= #[trigger] s[i] <= '9'
    &&& (s.len() > 1 ==> s[0] != '0')
}

/// The canonical decimal sequence of any number is canonical.
pub proof fn lemma_dec_seq_canonical(n: nat)
    ensures
        is_dec_seq(dec_seq(n)),
        dec_seq(n)[0] != '0' || n < 10,
    decreases n,
{
    if n < 10 {
        assert(dec_seq(n) =~= seq![dec_digit(n)]);
        assert('0' <= dec_digit(n) <= '9') by {
            assert(48 + n % 10 < 128);
        }
    } else {
        lemma_dec_seq_canonical(n / 10);
        let pre = dec_seq(n / 10);
        let s = dec_seq(n);
        assert(s =~= pre.push(dec_digit(n % 10)));
        assert('0' <= dec_digit(n % 10) <= '9') by {
            assert(48 + n % 10 < 128);
        }
        assert(forall|i: int| 0 <= i < s.len() ==> '0' <= #[trigger] s[i] <= '9') by {
            assert(forall|i: int| 0 <= i < pre.len() ==> s[i] == #[trigger] pre[i]);
        }
        assert(s[0] == pre[0]);
        assert(n / 10 >= 1);
        if n / 10 < 10 {
            assert(pre =~= seq![dec_digit(n / 10)]);
            assert(dec_digit(n / 10) != '0') by {
                assert(n / 10 % 10 == n / 10);
                assert(48 + n / 10 % 10 != 48);
            }
        }
    }
}

/// A digit sequence never shrinks when digits are appended.
proof fn lemma_dec_nat_prefix(s: Seq<char>, k: int)
    requires
        0 <= k <= s.len(),
    ensures
        dec_nat(s.take(k)) <= dec_nat(s),
    decreases s.len() - k,
{
    if k < s.len() {
        lemma_dec_nat_prefix(s, k + 1);
        assert(s.take(k + 1).drop_last() =~= s.take(k));
        assert(s.take(k + 1).last() == s[k]);
        assert(dec_nat(s.take(k + 1)) == dec_nat(s.take(k)) * 10 + dec_digit_val(s[k]));
    } else {
        assert(s.take(k) =~= s);
    }
}

/// Parse a canonical decimal digit string into a machine word: `None`
/// exactly when the number does not fit in a `u64`.
pub fn parse_decimal(s: &str) -> (r: Option<u64>)
    requires
        is_dec_seq(s@),
    ensures
        match r {
            Some(v) => v as nat == dec_nat(s@),
            None => dec_nat(s@) > u64::MAX as nat,
        },
{
    proof {
        assert(vstd::string::is_ascii(s)) by {
            assert(forall|i: int| 0 <= i < s@.len() ==> '\0' <= #[trigger] s@[i] <= '\u{7f}');
        }
        vstd::string::is_ascii_spec_bytes(s);
        assert(s.spec_bytes() =~= Seq::new(s@.len(), |i: int| s@.index(i) as u8));
    }
    let bytes = s.as_bytes();
    let len = bytes.len();
    proof {
        assert(len == s@.len());
    }
    let mut acc: u64 = 0;
    let mut i: usize = 0;
    while i < len
        invariant
            is_dec_seq(s@),
            len == s@.len(),
            len == bytes@.len(),
            forall|j: int| 0 <= j < len ==> bytes@[j] == s@.index(j) as u8,
            i <= len,
            acc as nat == dec_nat(s@.take(i as int)),
        decreases len - i,
    {
        let b = bytes[i];
        proof {
            assert(s@[i as int] as u8 == b);
            assert('0' <= s@[i as int] <= '9');
            assert(48 <= b <= 57);
        }
        let d: u64 = (b - 48) as u64;
        proof {
            assert(d == dec_digit_val(s@[i as int]));
            assert(s@.take(i as int + 1).drop_last() =~= s@.take(i as int));
            assert(s@.take(i as int + 1).last() == s@[i as int]);
            assert(dec_nat(s@.take(i as int + 1)) == acc as nat * 10 + d);
        }
        if acc > (u64::MAX - d) / 10 {
            proof {
                let m = (u64::MAX - d) as int;
                vstd::arithmetic::div_mod::lemma_fundamental_div_mod(m, 10);
                assert(acc as int * 10 >= (m / 10 + 1) * 10);
                assert(acc as int * 10 + d > u64::MAX as int);
                lemma_dec_nat_prefix(s@, i as int + 1);
            }
            return None;
        }
        proof {
            let m = (u64::MAX - d) as int;
            vstd::arithmetic::div_mod::lemma_fundamental_div_mod(m, 10);
            assert(acc as int * 10 <= (m / 10) * 10);
            assert(acc as int * 10 + d <= u64::MAX as int);
        }
        acc = acc * 10 + d;
        i += 1;
    }
    proof {
        assert(s@.take(len as int) =~= s@);
    }
    Some(acc)
}

} // verus!
