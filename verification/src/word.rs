use vstd::prelude::*;

verus! {

/// The prime of the field the bytecode lives in: 2^251 + 17 * 2^192 + 1.
pub open spec fn prime_int() -> int {
    0x800000000000011000000000000000000000000000000000000000000000001int
}

/// A non-negative 256-bit value held as four 64-bit limbs, least significant
/// first. Bytecode words are such values, reduced below the field prime.
#[derive(Debug, Clone, Copy, PartialEq, Eq, Structural)]
pub struct Word {
    pub w0: u64,
    pub w1: u64,
    pub w2: u64,
    pub w3: u64,
}

impl Word {
    /// The integer the four limbs stand for.
    pub open spec fn val(self) -> int {
        self.w0 + self.w1 * 0x10000000000000000int
            + self.w2 * 0x100000000000000000000000000000000int
            + self.w3 * 0x1000000000000000000000000000000000000000000000000int
    }

    /// True of a word already reduced into the field.
    pub open spec fn reduced(self) -> bool {
        self.val() < prime_int()
    }
}

/// The field prime as a word.
pub fn stark_prime() -> (r: Word)
    ensures
        r.val() == prime_int(),
{
    Word { w0: 1, w1: 0, w2: 0, w3: 0x0800000000000011 }
}

pub open spec fn borrow_int(b: bool) -> int {
    if b {
        1
    } else {
        0
    }
}

/// One limb of a multi-limb subtraction: the difference and the borrow out.
fn sub_with_borrow(a: u64, b: u64, bin: bool) -> (r: (u64, bool))
    ensures
        r.0 as int == a - b - borrow_int(bin) + borrow_int(r.1) * 0x10000000000000000int,
        r.1 == ((a as int) < b + borrow_int(bin)),
{
    let bi: u64 = if bin {
        1
    } else {
        0
    };
    let borrow_out = (a as u128) < (b as u128) + (bi as u128);
    let d = a.wrapping_sub(b).wrapping_sub(bi);
    (d, borrow_out)
}

/// The difference of two words, defined when no borrow leaves the top limb.
pub fn word_sub(a: Word, b: Word) -> (r: Word)
    requires
        a.val() >= b.val(),
    ensures
        r.val() == a.val() - b.val(),
{
    let (d0, c0) = sub_with_borrow(a.w0, b.w0, false);
    let (d1, c1) = sub_with_borrow(a.w1, b.w1, c0);
    let (d2, c2) = sub_with_borrow(a.w2, b.w2, c1);
    let (d3, c3) = sub_with_borrow(a.w3, b.w3, c2);
    let r = Word { w0: d0, w1: d1, w2: d2, w3: d3 };
    proof {
        assert(r.val() == a.val() - b.val() + borrow_int(c3)
            * 0x10000000000000000000000000000000000000000000000000000000000000000int);
        assert(r.val() < 0x10000000000000000000000000000000000000000000000000000000000000000int);
        assert(!c3);
    }
    r
}

/// Sign normalization of a remainder already reduced by the prime: a negative
/// source value of remainder `rem` stands for `prime - rem` in the field, a
/// non-negative one for `rem` itself. A negative multiple of the prime stays
/// zero.
pub fn normalize_word(negative: bool, rem: Word) -> (r: Word)
    requires
        rem.reduced(),
    ensures
        r.reduced(),
        r.val() == if negative && rem.val() != 0 {
            prime_int() - rem.val()
        } else {
            rem.val()
        },
{
    if !negative {
        return rem;
    }
    if rem.w0 == 0 && rem.w1 == 0 && rem.w2 == 0 && rem.w3 == 0 {
        return rem;
    }
    let p = stark_prime();
    word_sub(p, rem)
}

/// An assembled bytecode word as the external assembler hands it out: a
/// signed integer of arbitrary size, before reduction into the field.
#[verifier::external_type_specification]
#[verifier::external_body]
pub struct ExBigInt(num_bigint::BigInt);

/// The integer an assembled word stands for. The arithmetic on such values
/// lives in the external arbitrary-precision library; this names the value a
/// word holds, so that contracts can speak of it.
pub uninterp spec fn val_of(w: num_bigint::BigInt) -> int;

/// Relies on num_integer's `div_rem` of the word's magnitude by the field
/// prime of cairo_felt (a fixed nonzero constant, so the call returns and the
/// remainder is below the prime), on num_bigint's `magnitude` and
/// `to_u64_digits`, and on num_traits' `is_negative` for the flag.
#[verifier::external_body]
fn word_mod_prime(w: &num_bigint::BigInt) -> (r: (bool, Word))
    ensures
        r.1.reduced(),
        r.0 == (val_of(*w) < 0),
        r.1.val() == (if val_of(*w) < 0 {
            -val_of(*w)
        } else {
            val_of(*w)
        }) % prime_int(),
{
    let (_q, rem) = num_integer::Integer::div_rem(w.magnitude(), &cairo_felt::Felt252::prime());
    let mut digits = rem.to_u64_digits();
    digits.resize(4, 0);
    let word = Word { w0: digits[0], w1: digits[1], w2: digits[2], w3: digits[3] };
    (num_traits::Signed::is_negative(w), word)
}

/// The remainder of a negated non-negative value: zero when the value is a
/// multiple of the modulus, the modulus minus the remainder otherwise.
proof fn lemma_neg_mod(a: int, p: int)
    requires
        p > 0,
        a >= 0,
    ensures
        (-a) % p == if a % p == 0 {
            0int
        } else {
            p - (a % p)
        },
{
    vstd::arithmetic::div_mod::lemma_fundamental_div_mod(a, p);
    vstd::arithmetic::div_mod::lemma_mod_bound(a, p);
    let q = a / p;
    let m = a % p;
    if m == 0 {
        assert(-a == (-q) * p + 0) by (nonlinear_arith)
            requires
                a == p * q + m,
                m == 0,
        ;
        vstd::arithmetic::div_mod::lemma_fundamental_div_mod_converse(-a, p, -q, 0);
    } else {
        assert(-a == (-q - 1) * p + (p - m)) by (nonlinear_arith)
            requires
                a == p * q + m,
        ;
        vstd::arithmetic::div_mod::lemma_fundamental_div_mod_converse(-a, p, -q - 1, p - m);
    }
}

/// Reduces one assembled word into the field: the word's value modulo the
/// prime, a negative value wrapping to its field negation.
pub fn reduce_word(w: &num_bigint::BigInt) -> (r: Word)
    ensures
        r.reduced(),
        r.val() == val_of(*w) % prime_int(),
{
    let (negative, rem) = word_mod_prime(w);
    proof {
        if val_of(*w) < 0 {
            lemma_neg_mod(-val_of(*w), prime_int());
        }
    }
    normalize_word(negative, rem)
}

/// Reduces every assembled bytecode word into the field, in order.
pub fn reduce_bytecode(words: &Vec<num_bigint::BigInt>) -> (r: Vec<Word>)
    ensures
        r@.len() == words@.len(),
        forall|i: int|
            0 <= i < r@.len() ==> (#[trigger] r@[i]).reduced() && r@[i].val() == val_of(
                words@[i],
            ) % prime_int(),
{
    let mut out: Vec<Word> = Vec::new();
    let mut i: usize = 0;
    while i < words.len()
        invariant
            i <= words@.len(),
            out@.len() == i,
            forall|j: int|
                0 <= j < out@.len() ==> (#[trigger] out@[j]).reduced() && out@[j].val() == val_of(
                    words@[j],
                ) % prime_int(),
        decreases words@.len() - i,
    {
        out.push(reduce_word(&words[i]));
        i += 1;
    }
    out
}

} // verus!
