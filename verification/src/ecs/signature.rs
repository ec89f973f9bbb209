use vstd::prelude::*;
use vstd::std_specs::ops::BitAndSpecImpl;
use core::ops::BitAnd;

verus! {

/// Whether bit `i` of `bits` is set.
pub open spec fn bit_of(bits: u32, i: int) -> bool {
    0 <= i < 32 && (bits >> (i as u32)) & 1u32 == 1u32
}

/// A set of component types, one bit per component type.
#[derive(Debug, Clone, Copy, PartialEq, Eq, Structural)]
pub struct Signature {
    signature: u32,
}

impl View for Signature {
    type V = u32;

    closed spec fn view(&self) -> u32 {
        self.signature
    }
}

/// The signature whose bits are `bits`.
pub closed spec fn signature_from_bits(bits: u32) -> Signature {
    Signature { signature: bits }
}

/// A signature is determined by its bits.
pub proof fn lemma_signature_bits(s: Signature, bits: u32)
    ensures
        signature_from_bits(bits)@ == bits,
        signature_from_bits(s@) == s,
{
}

/// Two signatures are equal exactly when their bits are.
pub proof fn lemma_signature_eq(a: Signature, b: Signature)
    ensures
        (a == b) == (a@ == b@),
{
}

/// A bit pattern whose bits from `k` up are clear is zero once shifted
/// right by `k`.
proof fn lemma_shift_clear(x: u32, k: u32)
    requires
        k < 32,
        forall|j: u32| k <= j < 32 ==> #[trigger] ((x >> j) & 1u32) == 0u32,
    ensures
        x >> k == 0u32,
    decreases 32 - k,
{
    if k == 31 {
        assert(x >> 31u32 == (x >> 31u32) & 1u32) by (bit_vector);
        assert((x >> 31u32) & 1u32 == 0u32);
    } else {
        let next = (k + 1) as u32;
        lemma_shift_clear(x, next);
        assert(x >> k == ((x >> next) << 1u32) | ((x >> k) & 1u32)) by (bit_vector)
            requires
                k < 31,
                next == k + 1,
        ;
        assert((x >> k) & 1u32 == 0u32);
        assert((0u32 << 1u32) | 0u32 == 0u32) by (bit_vector);
    }
}

/// An entity fits a system exactly when every bit the system asks for is
/// set in the entity's signature.
pub proof fn lemma_signature_matches(entity: Signature, system: Signature)
    ensures
        signature_matches(entity, system) <==> (forall|t: int| #[trigger] bit_of(system@, t) ==> bit_of(entity@, t)),
{
    let a = entity@;
    let b = system@;
    if signature_matches(entity, system) {
        assert forall|t: int| #[trigger] bit_of(system@, t) implies bit_of(entity@, t) by {
            lemma_bit_and(a, b, t as u32);
        }
    }
    if forall|t: int| #[trigger] bit_of(system@, t) ==> bit_of(entity@, t) {
        let d = b & !a;
        assert forall|j: u32| 0 <= j < 32 implies #[trigger] ((d >> j) & 1u32) == 0u32 by {
            assert(bit_of(b, j as int) ==> bit_of(a, j as int));
            assert(((b & !a) >> j) & 1u32 == 0u32) by (bit_vector)
                requires
                    j < 32,
                    ((b >> j) & 1u32 == 1u32) ==> ((a >> j) & 1u32 == 1u32),
            ;
        }
        lemma_shift_clear(d, 0);
        assert(a & b == b) by (bit_vector)
            requires
                (b & !a) >> 0u32 == 0u32,
        ;
    }
}

/// An entity with signature `entity` belongs to a system with signature
/// `system` when it has every component the system asks for.
pub open spec fn signature_matches(entity: Signature, system: Signature) -> bool {
    entity@ & system@ == system@
}

proof fn lemma_bit_or(a: u32, i: u32, j: u32)
    requires
        i < 32,
        j < 32,
    ensures
        ((a | (1u32 << i)) >> j) & 1u32 == 1u32 <==> (j == i || (a >> j) & 1u32 == 1u32),
{
    assert(((a | (1u32 << i)) >> j) & 1u32 == 1u32 <==> (j == i || (a >> j) & 1u32 == 1u32))
        by (bit_vector)
        requires
            i < 32,
            j < 32,
    ;
}

proof fn lemma_bit_and(a: u32, b: u32, j: u32)
    requires
        j < 32,
    ensures
        ((a & b) >> j) & 1u32 == 1u32 <==> ((a >> j) & 1u32 == 1u32 && (b >> j) & 1u32 == 1u32),
{
    assert(((a & b) >> j) & 1u32 == 1u32 <==> ((a >> j) & 1u32 == 1u32 && (b >> j) & 1u32
        == 1u32)) by (bit_vector);
}

impl Signature {
    /// The empty signature.
    pub fn new() -> (s: Self)
        ensures
            s@ == 0,
            forall|i: int| !bit_of(#[trigger] s@, i),
    {
        let s = Self { signature: 0 };
        assert forall|i: int| !bit_of(#[trigger] s@, i) by {
            if 0 <= i < 32 {
                let k = i as u32;
                assert((0u32 >> k) & 1u32 == 0u32) by (bit_vector);
            }
        }
        s
    }

    /// Clears every bit.
    pub fn reset(&mut self)
        ensures
            final(self)@ == 0,
    {
        self.signature = 0;
    }

    /// Sets bit `index` when `value` holds. With `value` false the whole
    /// signature is cleared: the mask it is and-ed with is `0 << index`.
    pub fn set(&mut self, index: usize, value: bool)
        requires
            index < 32,
        ensures
            value ==> final(self)@ == old(self)@ | (1u32 << (index as u32)),
            value ==> forall|j: int|
                #[trigger] bit_of(final(self)@, j) <==> (j == index || bit_of(old(self)@, j)),
            !value ==> final(self)@ == 0,
    {
        let shift = index as u32;
        if value {
            self.signature = self.signature | (1u32 << shift);
            proof {
                assert forall|j: int|
                    #[trigger] bit_of(self@, j) <==> (j == index || bit_of(old(self)@, j)) by {
                    if 0 <= j < 32 {
                        lemma_bit_or(old(self)@, shift, j as u32);
                    }
                }
            }
        } else {
            let before = self.signature;
            self.signature = before & (0u32 << shift);
            assert(before & (0u32 << shift) == 0) by (bit_vector)
                requires
                    shift < 32,
            ;
        }
    }

    /// Whether bit `index` is set.
    pub fn has(&self, index: usize) -> (r: bool)
        requires
            index < 32,
        ensures
            r == bit_of(self@, index as int),
    {
        let shift = index as u32;
        let bits = self.signature;
        let r = (bits & (1u32 << shift)) != 0;
        assert(((bits & (1u32 << shift)) != 0) == ((bits >> shift) & 1u32 == 1u32)) by (bit_vector)
            requires
                shift < 32,
        ;
        r
    }
}

impl BitAnd for Signature {
    type Output = Signature;

    fn bitand(self, rhs: Self) -> (r: Signature)
        ensures
            r@ == self@ & rhs@,
            forall|j: int| #[trigger] bit_of(r@, j) <==> bit_of(self@, j) && bit_of(rhs@, j),
    {
        let r = Signature { signature: self.signature & rhs.signature };
        proof {
            assert forall|j: int| #[trigger] bit_of(r@, j) <==> bit_of(self@, j) && bit_of(rhs@, j) by {
                if 0 <= j < 32 {
                    lemma_bit_and(self@, rhs@, j as u32);
                }
            }
        }
        r
    }
}

impl BitAndSpecImpl for Signature {
    open spec fn obeys_bitand_spec() -> bool {
        true
    }

    open spec fn bitand_req(self, rhs: Signature) -> bool {
        true
    }

    closed spec fn bitand_spec(self, rhs: Signature) -> Signature {
        Signature { signature: self.signature & rhs.signature }
    }
}

} // verus!
