use vstd::prelude::*;

verus! {

/// Largest value of a `u32` key.
pub const KEY_MAX: u32 = 0xffff_ffff;

/// Sum of the Unicode code points of `s`.
pub open spec fn char_sum(s: Seq<char>) -> nat
    decreases s.len(),
{
    if s.len() == 0 {
        0
    } else {
        char_sum(s.drop_last()) + (s.last() as u32) as nat
    }
}

/// Error of the container-id hash.
#[derive(Debug, Clone, Copy, PartialEq, Eq, Structural)]
pub enum HashError {
    /// The code-point sum of the id does not fit in a `u32` key.
    Overflow,
}

/// The key of an id: its code-point sum, when that fits in a `u32`.
pub open spec fn spec_hash(s: Seq<char>) -> Result<u32, HashError> {
    if char_sum(s) <= KEY_MAX {
        Ok(char_sum(s) as u32)
    } else {
        Err(HashError::Overflow)
    }
}

/// The code-point sum over a concatenation is the sum of the parts.
pub proof fn lemma_char_sum_additive(a: Seq<char>, b: Seq<char>)
    ensures
        char_sum(a + b) == char_sum(a) + char_sum(b),
    decreases b.len(),
{
    if b.len() == 0 {
        assert(a + b =~= a);
    } else {
        lemma_char_sum_additive(a, b.drop_last());
        assert((a + b).drop_last() =~= a + b.drop_last());
    }
}

/// A prefix never sums to more than the whole.
pub proof fn lemma_char_sum_prefix(s: Seq<char>, i: int)
    requires
        0 <= i <= s.len(),
    ensures
        char_sum(s.take(i)) <= char_sum(s),
{
    lemma_char_sum_additive(s.take(i), s.skip(i));
    assert(s.take(i) + s.skip(i) =~= s);
}

/// Simple string hash which lets strings serve as keys of maps whose key
/// type is `u32`: the sum of the code points of the characters.
pub fn hash(s: &str) -> (r: Result<u32, HashError>)
    ensures
        r == spec_hash(s@),
{
    let n = s.unicode_len();
    let mut sum: u32 = 0;
    let mut i: usize = 0;
    while i < n
        invariant
            n == s@.len(),
            0 <= i <= n,
            sum as nat == char_sum(s@.take(i as int)),
        decreases n - i,
    {
        let c = s.get_char(i);
        proof {
            assert(s@.take(i as int + 1).drop_last() =~= s@.take(i as int));
        }
        match sum.checked_add(c as u32) {
            Some(v) => {
                sum = v;
            },
            None => {
                proof {
                    lemma_char_sum_prefix(s@, i as int + 1);
                }
                return Err(HashError::Overflow);
            },
        }
        i = i + 1;
    }
    proof {
        assert(s@.take(n as int) =~= s@);
    }
    Ok(sum)
}

/// Hashing is additive: when both parts and the whole fit, the key of a
/// concatenation is the sum of the keys of its parts.
pub proof fn lemma_hash_additive(a: Seq<char>, b: Seq<char>)
    requires
        spec_hash(a + b) is Ok,
    ensures
        spec_hash(a) is Ok,
        spec_hash(b) is Ok,
        spec_hash(a + b)->Ok_0 == spec_hash(a)->Ok_0 + spec_hash(b)->Ok_0,
{
    lemma_char_sum_additive(a, b);
}

} // verus!
