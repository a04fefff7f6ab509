//! Elements of the proving backend's prime field.
//!
//! A [`FieldValue`] holds one element of the Pallas base field as its
//! canonical little-endian byte representation. The arithmetic itself is
//! carried out by the backend's field implementation, reached through a
//! handful of trusted wrappers; everything else — the meaning of the bytes,
//! equality, and the modular-arithmetic contracts — is stated and verified
//! here.

use vstd::prelude::*;

use halo2_proofs::pasta::group::ff::PrimeField;
use halo2_proofs::pasta::Fp;

verus! {

/// The integer a little-endian byte string denotes.
pub open spec fn le_bytes_value(s: Seq<u8>) -> nat
    decreases s.len(),
{
    if s.len() == 0 {
        0
    } else {
        (s[0] + 256 * le_bytes_value(s.skip(1))) as nat
    }
}

/// The modulus of the Pallas base field,
/// `0x40000000000000000000000000000000224698fc094cf91b992d30ed00000001`,
/// assembled here from its four little-endian 64-bit limbs.
pub open spec fn field_modulus() -> nat {
    0x992d30ed00000001nat + 0x10000000000000000nat * (0x224698fc094cf91bnat
        + 0x10000000000000000nat * (0nat + 0x10000000000000000nat * 0x4000000000000000nat))
}

/// Field addition on canonical values.
pub open spec fn fadd(x: nat, y: nat) -> nat {
    (x + y) % field_modulus()
}

/// Field subtraction on canonical values (well defined for `y` below the
/// modulus).
pub open spec fn fsub(x: nat, y: nat) -> nat {
    (((x + field_modulus()) - y) % (field_modulus() as int)) as nat
}

/// Field multiplication on canonical values.
pub open spec fn fmul(x: nat, y: nat) -> nat {
    (x * y) % field_modulus()
}

/// One element of the backend's prime field, held as its canonical
/// little-endian byte representation.
#[derive(Clone, Copy, Debug, PartialEq, Eq)]
pub struct FieldValue {
    pub bytes: [u8; 32],
}

impl FieldValue {
    /// The integer this element denotes.
    pub open spec fn val(self) -> nat {
        le_bytes_value(self.bytes@)
    }

    /// The representation is canonical: its value lies below the modulus.
    pub open spec fn wf(self) -> bool {
        self.val() < field_modulus()
    }

    /// The canonical embedding of a 64-bit integer into the field.
    pub fn from_u64(n: u64) -> (r: FieldValue)
        ensures
            r.wf(),
            r.val() == n as nat,
    {
        fe_from_u64(n)
    }

    /// Field addition.
    pub fn add(&self, other: &FieldValue) -> (r: FieldValue)
        requires
            self.wf(),
            other.wf(),
        ensures
            r.wf(),
            r.val() == fadd(self.val(), other.val()),
    {
        fe_add(self, other)
    }

    /// Field subtraction.
    pub fn sub(&self, other: &FieldValue) -> (r: FieldValue)
        requires
            self.wf(),
            other.wf(),
        ensures
            r.wf(),
            r.val() == fsub(self.val(), other.val()),
    {
        fe_sub(self, other)
    }

    /// Field multiplication.
    pub fn mul(&self, other: &FieldValue) -> (r: FieldValue)
        requires
            self.wf(),
            other.wf(),
        ensures
            r.wf(),
            r.val() == fmul(self.val(), other.val()),
    {
        fe_mul(self, other)
    }

    /// Value equality, decided on the byte representations.
    pub fn eq_value(&self, other: &FieldValue) -> (r: bool)
        ensures
            r == (self.val() == other.val()),
    {
        let mut i: usize = 0;
        while i < 32
            invariant
                i <= 32,
                forall|j: int| 0 <= j < i ==> self.bytes@[j] == other.bytes@[j],
            decreases 32 - i,
        {
            if self.bytes[i] != other.bytes[i] {
                proof {
                    if self.val() == other.val() {
                        lemma_le_bytes_value_injective(self.bytes@, other.bytes@);
                    }
                }
                return false;
            }
            i += 1;
        }
        proof {
            assert(self.bytes@ =~= other.bytes@);
        }
        true
    }
}

/// Equal little-endian values of equally long byte strings come from equal
/// bytes.
pub proof fn lemma_le_bytes_value_injective(s: Seq<u8>, t: Seq<u8>)
    requires
        s.len() == t.len(),
        le_bytes_value(s) == le_bytes_value(t),
    ensures
        s =~= t,
    decreases s.len(),
{
    if s.len() > 0 {
        let a = s[0] as int;
        let b = t[0] as int;
        let x = le_bytes_value(s.skip(1)) as int;
        let y = le_bytes_value(t.skip(1)) as int;
        assert(a + 256 * x == b + 256 * y);
        assert(a == b && x == y) by (nonlinear_arith)
            requires
                a + 256 * x == b + 256 * y,
                0 <= a < 256,
                0 <= b < 256,
                0 <= x,
                0 <= y,
        ;
        lemma_le_bytes_value_injective(s.skip(1), t.skip(1));
        assert forall|j: int| 0 <= j < s.len() implies s[j] == t[j] by {
            if j > 0 {
                assert(s[j] == s.skip(1)[j - 1]);
                assert(t[j] == t.skip(1)[j - 1]);
            }
        }
    }
}

/// Relies on `Fp::from(u64)` and `ff::PrimeField::to_repr` of the
/// `pasta_curves` field used by the backend: the canonical embedding of a
/// 64-bit integer, returned as canonical little-endian bytes.
#[verifier::external_body]
fn fe_from_u64(n: u64) -> (r: FieldValue)
    ensures
        r.wf(),
        r.val() == n as nat,
{
    FieldValue { bytes: Fp::from(n).to_repr() }
}

/// Relies on `Fp`'s field addition together with
/// `ff::PrimeField::{from_repr, to_repr}`: addition modulo the Pallas base
/// field modulus on canonical little-endian representations.
#[verifier::external_body]
fn fe_add(a: &FieldValue, b: &FieldValue) -> (r: FieldValue)
    requires
        a.wf(),
        b.wf(),
    ensures
        r.wf(),
        r.val() == fadd(a.val(), b.val()),
{
    let x = Fp::from_repr(a.bytes).unwrap();
    let y = Fp::from_repr(b.bytes).unwrap();
    FieldValue { bytes: (x + y).to_repr() }
}

/// Relies on `Fp`'s field subtraction together with
/// `ff::PrimeField::{from_repr, to_repr}`: subtraction modulo the Pallas
/// base field modulus on canonical little-endian representations.
#[verifier::external_body]
fn fe_sub(a: &FieldValue, b: &FieldValue) -> (r: FieldValue)
    requires
        a.wf(),
        b.wf(),
    ensures
        r.wf(),
        r.val() == fsub(a.val(), b.val()),
{
    let x = Fp::from_repr(a.bytes).unwrap();
    let y = Fp::from_repr(b.bytes).unwrap();
    FieldValue { bytes: (x - y).to_repr() }
}

/// Relies on `Fp`'s field multiplication together with
/// `ff::PrimeField::{from_repr, to_repr}`: multiplication modulo the Pallas
/// base field modulus on canonical little-endian representations.
#[verifier::external_body]
fn fe_mul(a: &FieldValue, b: &FieldValue) -> (r: FieldValue)
    requires
        a.wf(),
        b.wf(),
    ensures
        r.wf(),
        r.val() == fmul(a.val(), b.val()),
{
    let x = Fp::from_repr(a.bytes).unwrap();
    let y = Fp::from_repr(b.bytes).unwrap();
    FieldValue { bytes: (x * y).to_repr() }
}

} // verus!
