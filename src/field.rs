use vstd::prelude::*;
use ark_bls12_381::Fr;
use ark_ff::BigInt;
use ark_ff::PrimeField;

verus! {

/// The order of the scalar field of BLS12-381, a prime of 255 bits.
pub open spec fn modulus() -> int {
    limb_sum(0xffff_ffff_0000_0001, 0x53bd_a402_fffe_5bfe, 0x3339_d808_09a1_d805, 0x73ed_a753_299d_7d48)
}

/// The integer with the little-endian 64-bit digits `d0 .. d3`.
pub open spec fn limb_sum(d0: int, d1: int, d2: int, d3: int) -> int {
    let b: int = 0x1_0000_0000_0000_0000;
    d0 + d1 * b + d2 * (b * b) + d3 * (b * b * b)
}

/// An element of the scalar field of BLS12-381, held as its canonical
/// representative in four little-endian 64-bit limbs.
#[derive(Clone, Copy, Debug, PartialEq, Eq)]
pub struct Scalar {
    pub limbs: [u64; 4],
}

/// The integer that four little-endian limbs spell.
pub open spec fn limbs_value(l: [u64; 4]) -> int {
    limb_sum(l@[0] as int, l@[1] as int, l@[2] as int, l@[3] as int)
}

impl Scalar {
    /// The integer in `0 .. modulus()` that this element stands for.
    pub open spec fn value(self) -> int {
        limbs_value(self.limbs)
    }

    /// The limbs hold a canonical representative.
    pub open spec fn wf(self) -> bool {
        self.value() < modulus()
    }

    /// The field element `n`.
    pub fn from_u64(n: u64) -> (r: Scalar)
        ensures
            r.wf(),
            r.value() == n as int,
    {
        let limbs: [u64; 4] = [n, 0, 0, 0];
        assert(limbs@ =~= seq![n, 0u64, 0u64, 0u64]);
        let r = Scalar { limbs };
        assert(r.limbs@[0] == n && r.limbs@[1] == 0 && r.limbs@[2] == 0 && r.limbs@[3] == 0);
        assert(limb_sum(n as int, 0, 0, 0) == n as int);
        r
    }

    /// The field element with the given canonical limbs, or `None` where they
    /// spell an integer of `modulus()` or more.
    pub fn from_limbs(limbs: [u64; 4]) -> (r: Option<Scalar>)
        ensures
            limbs_value(limbs) < modulus() <==> r is Some,
            r is Some ==> r->0.limbs == limbs && r->0.wf(),
    {
        let m: [u64; 4] = [
            0xffff_ffff_0000_0001,
            0x53bd_a402_fffe_5bfe,
            0x3339_d808_09a1_d805,
            0x73ed_a753_299d_7d48,
        ];
        assert(limbs_value(m) == modulus());
        let mut i: usize = 4;
        while i > 0
            invariant
                i <= 4,
                limbs_value(m) == modulus(),
                forall|j: int| i <= j < 4 ==> limbs@[j] == m@[j],
            decreases i,
        {
            if limbs[i - 1] < m[i - 1] {
                proof { lemma_lower_limb_decides(limbs, m, (i - 1) as int); }
                return Some(Scalar { limbs });
            }
            if limbs[i - 1] > m[i - 1] {
                proof { lemma_lower_limb_decides(m, limbs, (i - 1) as int); }
                return None;
            }
            i = i - 1;
        }
        assert(limbs@ =~= m@);
        None
    }

    /// The product of two field elements.
    pub fn mul(&self, other: &Scalar) -> (r: Scalar)
        requires
            self.wf(),
            other.wf(),
        ensures
            r.wf(),
            r.value() == (self.value() * other.value()) % modulus(),
    {
        field_mul(self, other)
    }
}

/// Where two limb arrays agree above limb `k` and differ at `k`, the one with
/// the smaller limb there is the smaller integer.
proof fn lemma_lower_limb_decides(x: [u64; 4], y: [u64; 4], k: int)
    requires
        0 <= k < 4,
        x@[k] < y@[k],
        forall|j: int| k < j < 4 ==> x@[j] == y@[j],
    ensures
        limbs_value(x) < limbs_value(y),
{
    let b: int = 0x1_0000_0000_0000_0000;
    assert(x@[0] < b && x@[1] < b && x@[2] < b && x@[3] < b);
    assert(y@[0] < b && y@[1] < b && y@[2] < b && y@[3] < b);
    let (x0, x1, x2, x3) = (x@[0] as int, x@[1] as int, x@[2] as int, x@[3] as int);
    let (y0, y1, y2, y3) = (y@[0] as int, y@[1] as int, y@[2] as int, y@[3] as int);
    assert(0 <= x0 < b && 0 <= x1 < b && 0 <= x2 < b && 0 <= x3 < b);
    assert(0 <= y0 < b && 0 <= y1 < b && 0 <= y2 < b && 0 <= y3 < b);
    if k == 0 {
        assert(x0 < y0 && x1 == y1 && x2 == y2 && x3 == y3);
    } else if k == 1 {
        assert(x0 + x1 * b < y0 + y1 * b) by (nonlinear_arith)
            requires x1 < y1, 0 <= x0 < b, 0 <= y0 < b;
    } else if k == 2 {
        assert(x0 + x1 * b + x2 * (b * b) < y0 + y1 * b + y2 * (b * b)) by (nonlinear_arith)
            requires x2 < y2, 0 <= x0 < b, 0 <= y0 < b, 0 <= x1 < b, 0 <= y1 < b;
    } else {
        assert(x0 + x1 * b + x2 * (b * b) + x3 * (b * b * b) < y0 + y1 * b + y2 * (b * b) + y3
            * (b * b * b)) by (nonlinear_arith)
            requires x3 < y3, 0 <= x0 < b, 0 <= y0 < b, 0 <= x1 < b, 0 <= y1 < b, 0 <= x2 < b,
                0 <= y2 < b;
    }
}

/// Relies on ark_ff's `Fr::from_bigint`, `*` and `into_bigint` for the scalar
/// field of BLS12-381: multiplication modulo the field's order, read back as
/// the canonical representative.
#[verifier::external_body]
fn field_mul(a: &Scalar, b: &Scalar) -> (r: Scalar)
    requires
        a.wf(),
        b.wf(),
    ensures
        r.wf(),
        r.value() == (a.value() * b.value()) % modulus(),
{
    let x = Fr::from_bigint(BigInt::new(a.limbs)).unwrap();
    let y = Fr::from_bigint(BigInt::new(b.limbs)).unwrap();
    Scalar { limbs: (x * y).into_bigint().0 }
}

} // verus!
