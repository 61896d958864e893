//! The generic state abstraction and the norm engine.
//!
//! A state is any container of signed integer components ("degrees of
//! freedom") with indexed access; [`OdeType`] is the capability set a
//! stepping algorithm needs.  `pnorm` aggregates the component magnitudes
//! into the scalar an acceptance test compares against a tolerance.
//!
//! Norm conventions, pinned here once and for all:
//! - `P(p)` is the *sum of absolute powers*: `|c_0|^p + ... + |c_{n-1}|^p`,
//!   with no final `p`-th root.  The sum is a monotone surrogate for the
//!   true p-norm and needs no root computation.
//! - `InfPos` is the maximum of the component magnitudes (zero for an
//!   empty state).
//! - `InfNeg` is the *minimum* of the component magnitudes (zero for an
//!   empty state): the fold is seeded with the first magnitude rather than
//!   with zero, which would clamp the result to zero.
//!
//! `P(0)` is rejected, and a result that does not fit the component type
//! is reported, both as typed errors: no operation here panics.

use vstd::arithmetic::power::{lemma_pow_increases, pow};
use vstd::pervasive::unreached;
use vstd::pervasive::VecAdditionalExecFns;
use vstd::prelude::*;

verus! {

/// Which aggregation rule `pnorm` applies.
#[derive(Clone, Copy, Debug)]
pub enum PNorm {
    P(usize),
    InfPos,
    InfNeg,
}

impl Default for PNorm {
    fn default() -> (r: Self)
        ensures
            r == PNorm::P(2),
    {
        PNorm::P(2)
    }
}

/// Why a norm computation was refused.
#[derive(Clone, Copy, Debug, PartialEq, Eq, Structural)]
pub enum NormError {
    /// `P(0)` was requested; the exponent must be positive.
    InvalidParam,
    /// The exact result does not fit the component type.
    Overflow,
}

/// The magnitude (absolute value) of a component.
pub open spec fn mag(x: int) -> int {
    if x < 0 {
        -x
    } else {
        x
    }
}

/// Sum of the `p`-th powers of the component magnitudes.
pub open spec fn sum_abs_pows(s: Seq<int>, p: nat) -> int
    decreases s.len(),
{
    if s.len() == 0 {
        0
    } else {
        sum_abs_pows(s.drop_last(), p) + pow(mag(s.last()), p)
    }
}

/// Maximum of the component magnitudes, zero for an empty sequence.
pub open spec fn max_abs(s: Seq<int>) -> int
    decreases s.len(),
{
    if s.len() == 0 {
        0
    } else {
        let m = max_abs(s.drop_last());
        let a = mag(s.last());
        if a > m {
            a
        } else {
            m
        }
    }
}

/// Minimum of the component magnitudes, zero for an empty sequence.
pub open spec fn min_abs(s: Seq<int>) -> int
    decreases s.len(),
{
    if s.len() == 0 {
        0
    } else if s.len() == 1 {
        mag(s[0])
    } else {
        let m = min_abs(s.drop_last());
        let a = mag(s.last());
        if a < m {
            a
        } else {
            m
        }
    }
}

/// The exact mathematical value of each norm variant.
pub open spec fn pnorm_math(s: Seq<int>, p: PNorm) -> int {
    match p {
        PNorm::P(k) => sum_abs_pows(s, k as nat),
        PNorm::InfPos => max_abs(s),
        PNorm::InfNeg => min_abs(s),
    }
}

/// Whether the norm selector carries an invalid parameter.
pub open spec fn invalid_param(p: PNorm) -> bool {
    match p {
        PNorm::P(k) => k == 0,
        PNorm::InfPos => false,
        PNorm::InfNeg => false,
    }
}

pub proof fn lemma_pow_nonneg(b: int, e: nat)
    requires
        b >= 0,
    ensures
        pow(b, e) >= 0,
    decreases e,
{
    reveal(pow);
    if e > 0 {
        lemma_pow_nonneg(b, (e - 1) as nat);
        assert(pow(b, e) == b * pow(b, (e - 1) as nat));
        assert(b * pow(b, (e - 1) as nat) >= 0) by (nonlinear_arith)
            requires
                b >= 0,
                pow(b, (e - 1) as nat) >= 0,
        ;
    }
}

pub proof fn lemma_sum_abs_pows_nonneg(s: Seq<int>, p: nat)
    ensures
        sum_abs_pows(s, p) >= 0,
    decreases s.len(),
{
    if s.len() > 0 {
        lemma_sum_abs_pows_nonneg(s.drop_last(), p);
        lemma_pow_nonneg(mag(s.last()), p);
    }
}

pub proof fn lemma_sum_abs_pows_take_step(s: Seq<int>, p: nat, i: int)
    requires
        0 <= i < s.len(),
    ensures
        sum_abs_pows(s.take(i + 1), p) == sum_abs_pows(s.take(i), p) + pow(mag(s[i]), p),
{
    assert(s.take(i + 1).drop_last() =~= s.take(i));
    assert(s.take(i + 1).last() == s[i]);
}

pub proof fn lemma_sum_abs_pows_take_le(s: Seq<int>, p: nat, i: int)
    requires
        0 <= i <= s.len(),
    ensures
        sum_abs_pows(s.take(i), p) <= sum_abs_pows(s, p),
    decreases s.len() - i,
{
    if i == s.len() {
        assert(s.take(i) =~= s);
    } else {
        lemma_sum_abs_pows_take_step(s, p, i);
        lemma_pow_nonneg(mag(s[i]), p);
        lemma_sum_abs_pows_take_le(s, p, i + 1);
    }
}

pub proof fn lemma_term_le_sum(s: Seq<int>, p: nat, i: int)
    requires
        0 <= i < s.len(),
    ensures
        pow(mag(s[i]), p) <= sum_abs_pows(s, p),
{
    lemma_sum_abs_pows_take_step(s, p, i);
    lemma_sum_abs_pows_nonneg(s.take(i), p);
    lemma_sum_abs_pows_take_le(s, p, i + 1);
}

pub proof fn lemma_max_abs_take_step(s: Seq<int>, i: int)
    requires
        0 <= i < s.len(),
    ensures
        max_abs(s.take(i + 1)) == if mag(s[i]) > max_abs(s.take(i)) {
            mag(s[i])
        } else {
            max_abs(s.take(i))
        },
{
    assert(s.take(i + 1).drop_last() =~= s.take(i));
    assert(s.take(i + 1).last() == s[i]);
}

pub proof fn lemma_min_abs_take_step(s: Seq<int>, i: int)
    requires
        1 <= i < s.len(),
    ensures
        min_abs(s.take(i + 1)) == if mag(s[i]) < min_abs(s.take(i)) {
            mag(s[i])
        } else {
            min_abs(s.take(i))
        },
{
    assert(s.take(i + 1).drop_last() =~= s.take(i));
    assert(s.take(i + 1).last() == s[i]);
}

/// Law: a state whose components are all zero — what `set_zero` leaves
/// behind — has norm `P(p)` equal to the additive identity, for every
/// positive exponent `p`.
pub proof fn lemma_pnorm_zero_state(s: Seq<int>, p: usize)
    requires
        p >= 1,
        forall|i: int| 0 <= i < s.len() ==> s[i] == 0,
    ensures
        pnorm_math(s, PNorm::P(p)) == 0,
    decreases s.len(),
{
    reveal(pow);
    if s.len() > 0 {
        lemma_pnorm_zero_state(s.drop_last(), p);
        assert(mag(s.last()) == 0);
        assert(pow(0, p as nat) == 0 * pow(0, (p - 1) as nat));
    }
}

/// A lazy iteration over a state's components in index order.  Each call
/// of `ode_iter` yields a fresh iterator; advancing it never mutates the
/// underlying state.
pub struct OdeTypeIterator<'a, T: OdeType> {
    pub index: usize,
    pub ode_ty: &'a T,
}

impl<'a, T: OdeType> OdeTypeIterator<'a, T> {
    /// Yields the next component, in index order `0..dof`.
    pub fn next(&mut self) -> (r: Option<i64>)
        ensures
            final(self).ode_ty == old(self).ode_ty,
            old(self).index < old(self).ode_ty.items().len() ==> {
                &&& r matches Some(v) && v as int == old(self).ode_ty.items()[old(
                    self,
                ).index as int]
                &&& final(self).index == old(self).index + 1
            },
            old(self).index >= old(self).ode_ty.items().len() ==> {
                &&& r is None
                &&& final(self).index == old(self).index
            },
    {
        if self.index < self.ode_ty.dof() {
            let next_item = self.ode_ty.get(self.index);
            self.index = self.index + 1;
            Some(next_item)
        } else {
            None
        }
    }
}

/// The capability set every state representation offers a stepper:
/// a fixed degree-of-freedom count, indexed access and mutation, zeroing,
/// component iteration, and the error norm.
///
/// `items` is the mathematical content of a state: its components, in
/// index order, as exact integers.  Out-of-range indexed access is a
/// caller bug, excluded by precondition; for unverified callers it aborts
/// rather than wrap around or return a default.
pub trait OdeType: Sized {
    /// The components of the state, in index order.
    spec fn items(&self) -> Seq<int>;

    /// The degree of freedom: how many independent components the state
    /// has.  Fixed over the state's lifetime.
    fn dof(&self) -> (n: usize)
        ensures
            n as int == self.items().len(),
    ;

    /// The component at `index`.
    fn get(&self, index: usize) -> (r: i64)
        requires
            index < self.items().len(),
        ensures
            r as int == self.items()[index as int],
    ;

    /// A mutable borrow of the component at `index`: the state's new
    /// value holds whatever the caller leaves behind the borrow, at that
    /// index, and is unchanged elsewhere.
    fn get_mut(&mut self, index: usize) -> (r: &mut i64)
        requires
            index < old(self).items().len(),
        ensures
            *r as int == old(self).items()[index as int],
            final(self).items() =~= old(self).items().update(index as int, *final(r) as int),
    ;

    /// Replaces the component at `index`.
    fn insert(&mut self, index: usize, item: i64)
        requires
            index < old(self).items().len(),
        ensures
            final(self).items() == old(self).items().update(index as int, item as int),
    ;

    /// Sets every component to the additive identity.
    fn set_zero(&mut self)
        ensures
            final(self).items().len() == old(self).items().len(),
            forall|i: int| 0 <= i < final(self).items().len() ==> final(self).items()[i] == 0,
    {
        let ghost orig = self.items();
        let n = self.dof();
        let mut i: usize = 0;
        while i < n
            invariant
                n as int == self.items().len(),
                self.items().len() == orig.len(),
                i <= n,
                forall|j: int| 0 <= j < i ==> self.items()[j] == 0,
            decreases n - i,
        {
            self.insert(i, 0i64);
            i = i + 1;
        }
    }

    /// A fresh iterator over the components in index order `0..dof`.
    fn ode_iter<'a>(&'a self) -> (it: OdeTypeIterator<'a, Self>)
        ensures
            it.index == 0,
            it.ode_ty.items() == self.items(),
    {
        OdeTypeIterator { index: 0, ode_ty: self }
    }

    /// Computes the norm selected by `p` over the components, exactly.
    ///
    /// `P(p)` is the sum of the `p`-th powers of the magnitudes (no final
    /// root); `InfPos` the maximum magnitude; `InfNeg` the minimum
    /// magnitude; an empty state yields zero for all three.  `P(0)` is
    /// rejected, and a value that does not fit `i64` is reported as
    /// [`NormError::Overflow`].
    #[verifier::loop_isolation(false)]
    fn pnorm(&self, p: PNorm) -> (r: Result<i64, NormError>)
        ensures
            r is Err <==> (invalid_param(p) || pnorm_math(self.items(), p) > i64::MAX),
            invalid_param(p) ==> r == Err::<i64, NormError>(NormError::InvalidParam),
            !invalid_param(p) && pnorm_math(self.items(), p) > i64::MAX ==> r == Err::<
                i64,
                NormError,
            >(NormError::Overflow),
            r matches Ok(v) ==> v as int == pnorm_math(self.items(), p),
    {
        match p {
            PNorm::P(k) => {
                if k == 0 {
                    return Err(NormError::InvalidParam);
                }
                let n = self.dof();
                let mut sum: i128 = 0;
                let mut i: usize = 0;
                while i < n
                    invariant
                        i <= n,
                        0 <= sum <= i64::MAX,
                        sum as int == sum_abs_pows(self.items().take(i as int), k as nat),
                    decreases n - i,
                {
                    let c = self.get(i);
                    let ci = c as i128;
                    let a: i128 = if ci < 0 {
                        -ci
                    } else {
                        ci
                    };
                    proof {
                        assert(a as int == mag(self.items()[i as int]));
                    }
                    let mut pw: i128 = 1;
                    let mut j: usize = 0;
                    proof {
                        reveal(pow);
                        assert(pow(a as int, 0) == 1);
                    }
                    while j < k
                        invariant
                            j <= k,
                            0 <= pw <= i64::MAX,
                            pw as int == pow(a as int, j as nat),
                        decreases k - j,
                    {
                        proof {
                            assert(pw * a >= 0 && pw * a <= 0x7fff_ffff_ffff_ffff
                                * 0x8000_0000_0000_0000) by (nonlinear_arith)
                                requires
                                    0 <= pw <= 0x7fff_ffff_ffff_ffff,
                                    0 <= a <= 0x8000_0000_0000_0000,
                            ;
                        }
                        let next = pw * a;
                        proof {
                            reveal(pow);
                            assert(pow(a as int, (j + 1) as nat) == (a as int) * pow(
                                a as int,
                                j as nat,
                            ));
                        }
                        if next > 0x7fff_ffff_ffff_ffffi128 {
                            proof {
                                assert(a >= 2) by (nonlinear_arith)
                                    requires
                                        0 <= pw <= 0x7fff_ffff_ffff_ffff,
                                        pw * a > 0x7fff_ffff_ffff_ffff,
                                        a >= 0,
                                ;
                                lemma_pow_increases(a as nat, (j + 1) as nat, k as nat);
                                lemma_term_le_sum(self.items(), k as nat, i as int);
                            }
                            return Err(NormError::Overflow);
                        }
                        pw = next;
                        j = j + 1;
                    }
                    let next_sum = sum + pw;
                    proof {
                        lemma_sum_abs_pows_take_step(self.items(), k as nat, i as int);
                    }
                    if next_sum > 0x7fff_ffff_ffff_ffffi128 {
                        proof {
                            lemma_sum_abs_pows_take_le(self.items(), k as nat, i as int + 1);
                        }
                        return Err(NormError::Overflow);
                    }
                    sum = next_sum;
                    i = i + 1;
                }
                proof {
                    assert(self.items().take(n as int) =~= self.items());
                }
                Ok(sum as i64)
            },
            PNorm::InfPos => {
                let n = self.dof();
                let mut m: i128 = 0;
                let mut i: usize = 0;
                while i < n
                    invariant
                        i <= n,
                        0 <= m <= 0x8000_0000_0000_0000,
                        m as int == max_abs(self.items().take(i as int)),
                    decreases n - i,
                {
                    let c = self.get(i);
                    let ci = c as i128;
                    let a: i128 = if ci < 0 {
                        -ci
                    } else {
                        ci
                    };
                    proof {
                        lemma_max_abs_take_step(self.items(), i as int);
                    }
                    if a > m {
                        m = a;
                    }
                    i = i + 1;
                }
                proof {
                    assert(self.items().take(n as int) =~= self.items());
                }
                if m > 0x7fff_ffff_ffff_ffffi128 {
                    Err(NormError::Overflow)
                } else {
                    Ok(m as i64)
                }
            },
            PNorm::InfNeg => {
                let n = self.dof();
                if n == 0 {
                    return Ok(0i64);
                }
                let c0 = self.get(0);
                let c0i = c0 as i128;
                let mut m: i128 = if c0i < 0 {
                    -c0i
                } else {
                    c0i
                };
                let mut i: usize = 1;
                proof {
                    assert(self.items().take(1)[0] == self.items()[0]);
                }
                while i < n
                    invariant
                        1 <= i <= n,
                        0 <= m <= 0x8000_0000_0000_0000,
                        m as int == min_abs(self.items().take(i as int)),
                    decreases n - i,
                {
                    let c = self.get(i);
                    let ci = c as i128;
                    let a: i128 = if ci < 0 {
                        -ci
                    } else {
                        ci
                    };
                    proof {
                        lemma_min_abs_take_step(self.items(), i as int);
                    }
                    if a < m {
                        m = a;
                    }
                    i = i + 1;
                }
                proof {
                    assert(self.items().take(n as int) =~= self.items());
                }
                if m > 0x7fff_ffff_ffff_ffffi128 {
                    Err(NormError::Overflow)
                } else {
                    Ok(m as i64)
                }
            },
        }
    }
}

/// A dynamic-length state: the degree of freedom is the vector's length.
impl OdeType for Vec<i64> {
    open spec fn items(&self) -> Seq<int> {
        self@.map_values(|v: i64| v as int)
    }

    fn dof(&self) -> (n: usize) {
        self.len()
    }

    fn get(&self, index: usize) -> (r: i64) {
        self[index]
    }

    fn get_mut(&mut self, index: usize) -> (r: &mut i64) {
        &mut self[index]
    }

    fn insert(&mut self, index: usize, item: i64) {
        self.set(index, item);
        proof {
            assert(self.items() =~= old(self).items().update(index as int, item as int));
        }
    }
}

/// A bare scalar state with a single degree of freedom.  The only valid
/// index is zero; any other aborts.
impl OdeType for i64 {
    open spec fn items(&self) -> Seq<int> {
        seq![*self as int]
    }

    fn dof(&self) -> (n: usize) {
        1
    }

    fn get(&self, index: usize) -> (r: i64) {
        if index == 0 {
            *self
        } else {
            unreached()
        }
    }

    fn get_mut(&mut self, index: usize) -> (r: &mut i64) {
        if index == 0 {
            self
        } else {
            unreached()
        }
    }

    fn insert(&mut self, index: usize, item: i64) {
        if index == 0 {
            *self = item;
        } else {
            unreached::<()>();
        }
        proof {
            assert(self.items() =~= old(self).items().update(index as int, item as int));
        }
    }
}

} // verus!
