//! Checked signed arithmetic for the machine's numbers.
//!
//! Numbers are 64-bit signed integers. Every operation either returns the
//! exact mathematical result or fails the run: division and remainder by
//! zero, and any result outside the representable range, are fatal.
use crate::token::VmError;
use vstd::prelude::*;

verus! {

/// The magnitude of an integer.
pub open spec fn abs_i(a: int) -> int {
    if a >= 0 {
        a
    } else {
        -a
    }
}

/// Truncated division (quotient rounded toward zero), as `/` truncates.
pub open spec fn trunc_div(a: int, b: int) -> int
    recommends
        b != 0,
{
    if (a >= 0) == (b >= 0) {
        abs_i(a) / abs_i(b)
    } else {
        -(abs_i(a) / abs_i(b))
    }
}

/// Euclidean remainder: the unique value in `[0, |b|)` congruent to `a`.
pub open spec fn euclid_mod(a: int, b: int) -> int
    recommends
        b != 0,
{
    let m = abs_i(a) % abs_i(b);
    if a >= 0 {
        m
    } else if m == 0 {
        0
    } else {
        abs_i(b) - m
    }
}

pub open spec fn in_i64(v: int) -> bool {
    i64::MIN <= v <= i64::MAX
}

pub open spec fn spec_add(a: i64, b: i64) -> Result<i64, VmError> {
    if in_i64(a + b) {
        Ok((a + b) as i64)
    } else {
        Err(VmError::Overflow)
    }
}

pub open spec fn spec_sub(a: i64, b: i64) -> Result<i64, VmError> {
    if in_i64(a - b) {
        Ok((a - b) as i64)
    } else {
        Err(VmError::Overflow)
    }
}

pub open spec fn spec_mul(a: i64, b: i64) -> Result<i64, VmError> {
    if in_i64(a * b) {
        Ok((a * b) as i64)
    } else {
        Err(VmError::Overflow)
    }
}

pub open spec fn spec_div(a: i64, b: i64) -> Result<i64, VmError> {
    if b == 0 {
        Err(VmError::DivisionByZero)
    } else if in_i64(trunc_div(a as int, b as int)) {
        Ok(trunc_div(a as int, b as int) as i64)
    } else {
        Err(VmError::Overflow)
    }
}

pub open spec fn spec_mod(a: i64, b: i64) -> Result<i64, VmError> {
    if b == 0 {
        Err(VmError::DivisionByZero)
    } else {
        Ok(euclid_mod(a as int, b as int) as i64)
    }
}

pub open spec fn spec_abs(a: i64) -> Result<i64, VmError> {
    if in_i64(abs_i(a as int)) {
        Ok(abs_i(a as int) as i64)
    } else {
        Err(VmError::Overflow)
    }
}

pub open spec fn spec_neg(a: i64) -> Result<i64, VmError> {
    if in_i64(-(a as int)) {
        Ok((-(a as int)) as i64)
    } else {
        Err(VmError::Overflow)
    }
}

/// Iterated checked multiplication: `base` raised to the `e`-th power,
/// failing at the first step whose product leaves the representable range.
pub open spec fn spec_pow(base: i64, e: i64) -> Result<i64, VmError>
    decreases e,
{
    if e < 0 {
        Err(VmError::Unsupported)
    } else if e == 0 {
        Ok(1)
    } else {
        match spec_pow(base, (e - 1) as i64) {
            Ok(v) => spec_mul(v, base),
            Err(err) => Err(err),
        }
    }
}

/// The mathematical power function.
pub open spec fn pow_int(base: int, e: nat) -> int
    decreases e,
{
    if e == 0 {
        1
    } else {
        pow_int(base, (e - 1) as nat) * base
    }
}

/// When iterated checked multiplication succeeds, it computes the
/// mathematical power.
pub proof fn lemma_spec_pow_correct(base: i64, e: i64)
    requires
        0 <= e,
        spec_pow(base, e) is Ok,
    ensures
        spec_pow(base, e)->Ok_0 == pow_int(base as int, e as nat),
    decreases e,
{
    if e > 0 {
        lemma_spec_pow_correct(base, (e - 1) as i64);
    }
}

pub fn add_i64(a: i64, b: i64) -> (r: Result<i64, VmError>)
    ensures
        r == spec_add(a, b),
{
    let s: i128 = a as i128 + b as i128;
    if i64::MIN as i128 <= s && s <= i64::MAX as i128 {
        Ok(s as i64)
    } else {
        Err(VmError::Overflow)
    }
}

pub fn sub_i64(a: i64, b: i64) -> (r: Result<i64, VmError>)
    ensures
        r == spec_sub(a, b),
{
    let s: i128 = a as i128 - b as i128;
    if i64::MIN as i128 <= s && s <= i64::MAX as i128 {
        Ok(s as i64)
    } else {
        Err(VmError::Overflow)
    }
}

pub fn mul_i64(a: i64, b: i64) -> (r: Result<i64, VmError>)
    ensures
        r == spec_mul(a, b),
{
    proof {
        assert(i128::MIN <= (a as int) * (b as int) <= i128::MAX) by (nonlinear_arith)
            requires
                i64::MIN <= a as int <= i64::MAX,
                i64::MIN <= b as int <= i64::MAX,
        ;
    }
    let s: i128 = a as i128 * b as i128;
    if i64::MIN as i128 <= s && s <= i64::MAX as i128 {
        Ok(s as i64)
    } else {
        Err(VmError::Overflow)
    }
}

/// The magnitude of `a`, computed without overflowing at the minimum value.
pub fn magnitude(a: i64) -> (m: u64)
    ensures
        m == abs_i(a as int),
{
    if a >= 0 {
        a as u64
    } else {
        ((-(a + 1)) as u64) + 1
    }
}

pub fn div_i64(a: i64, b: i64) -> (r: Result<i64, VmError>)
    ensures
        r == spec_div(a, b),
{
    if b == 0 {
        return Err(VmError::DivisionByZero);
    }
    let ma = magnitude(a);
    let mb = magnitude(b);
    let mq = ma / mb;
    if (a >= 0) == (b >= 0) {
        if mq > i64::MAX as u64 {
            Err(VmError::Overflow)
        } else {
            Ok(mq as i64)
        }
    } else {
        if mq == (i64::MAX as u64) + 1 {
            Ok(i64::MIN)
        } else {
            Ok(-(mq as i64))
        }
    }
}

pub fn mod_i64(a: i64, b: i64) -> (r: Result<i64, VmError>)
    ensures
        r == spec_mod(a, b),
{
    if b == 0 {
        return Err(VmError::DivisionByZero);
    }
    let ma = magnitude(a);
    let mb = magnitude(b);
    let mr = ma % mb;
    if a >= 0 {
        Ok(mr as i64)
    } else if mr == 0 {
        Ok(0)
    } else {
        Ok((mb - mr) as i64)
    }
}

pub fn abs_i64(a: i64) -> (r: Result<i64, VmError>)
    ensures
        r == spec_abs(a),
{
    if a == i64::MIN {
        Err(VmError::Overflow)
    } else if a < 0 {
        Ok(-a)
    } else {
        Ok(a)
    }
}

pub fn neg_i64(a: i64) -> (r: Result<i64, VmError>)
    ensures
        r == spec_neg(a),
{
    if a == i64::MIN {
        Err(VmError::Overflow)
    } else {
        Ok(-a)
    }
}

pub fn pow_i64(base: i64, e: i64) -> (r: Result<i64, VmError>)
    ensures
        r == spec_pow(base, e),
{
    if e < 0 {
        return Err(VmError::Unsupported);
    }
    let mut acc: i64 = 1;
    let mut k: i64 = 0;
    while k < e
        invariant
            0 <= k <= e,
            spec_pow(base, k) == Ok::<i64, VmError>(acc),
            spec_pow(base, e) is Ok ==> spec_pow(base, k) is Ok,
        decreases e - k,
    {
        assert(spec_pow(base, (k + 1) as i64) == spec_mul(acc, base));
        match mul_i64(acc, base) {
            Ok(v) => {
                acc = v;
            },
            Err(err) => {
                proof {
                    lemma_pow_err_persists(base, (k + 1) as i64, e);
                }
                return Err(err);
            },
        }
        k = k + 1;
    }
    Ok(acc)
}

/// Once a step of the iterated multiplication fails, every longer power
/// fails with the same error.
proof fn lemma_pow_err_persists(base: i64, k: i64, e: i64)
    requires
        0 <= k <= e,
        spec_pow(base, k) is Err,
    ensures
        spec_pow(base, e) == spec_pow(base, k),
    decreases e - k,
{
    if k < e {
        assert(spec_pow(base, (k + 1) as i64) == spec_pow(base, k));
        lemma_pow_err_persists(base, (k + 1) as i64, e);
    }
}

} // verus!
