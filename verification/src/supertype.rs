//! The type lattice: the minimal common supertype of a pair of types.
//!
//! [`spec_supertype`] is the specification of the lattice; [`get_supertype`]
//! is the executable resolver proved against it.  The lattice promotes only
//! losslessly: an unsigned integer promotes into the signed type wide enough
//! for its full range, two integers of one signedness promote to the wider
//! width, any integer beside a floating type promotes to that floating type,
//! and two floating types promote to the wider one.  Every other unequal
//! pair is rejected.

use vstd::prelude::*;

use crate::datatypes::DataType;
use crate::error::{ErrorV, PlanError};

verus! {

/// Whether `t` is a signed integer type.
pub open spec fn is_signed(t: DataType) -> bool {
    t == DataType::Int8 || t == DataType::Int16 || t == DataType::Int32 || t == DataType::Int64
}

/// Whether `t` is an unsigned integer type.
pub open spec fn is_unsigned(t: DataType) -> bool {
    t == DataType::UInt8 || t == DataType::UInt16 || t == DataType::UInt32 || t == DataType::UInt64
}

/// Whether `t` is an integer type of either signedness.
pub open spec fn is_integer(t: DataType) -> bool {
    is_signed(t) || is_unsigned(t)
}

/// Whether `t` is a floating-point type.
pub open spec fn is_floating(t: DataType) -> bool {
    t == DataType::Float32 || t == DataType::Float64
}

/// Bit width of an integer or floating type; 0 for the rest.
pub open spec fn bit_width(t: DataType) -> nat {
    match t {
        DataType::Int8 => 8,
        DataType::Int16 => 16,
        DataType::Int32 => 32,
        DataType::Int64 => 64,
        DataType::UInt8 => 8,
        DataType::UInt16 => 16,
        DataType::UInt32 => 32,
        DataType::UInt64 => 64,
        DataType::Float32 => 32,
        DataType::Float64 => 64,
        _ => 0,
    }
}

/// The signed integer type of bit width `w`; meaningful for 8, 16, 32, 64.
pub open spec fn signed_of_width(w: nat) -> DataType {
    if w <= 8 {
        DataType::Int8
    } else if w <= 16 {
        DataType::Int16
    } else if w <= 32 {
        DataType::Int32
    } else {
        DataType::Int64
    }
}

/// The unsigned integer type of bit width `w`; meaningful for 8, 16, 32, 64.
pub open spec fn unsigned_of_width(w: nat) -> DataType {
    if w <= 8 {
        DataType::UInt8
    } else if w <= 16 {
        DataType::UInt16
    } else if w <= 32 {
        DataType::UInt32
    } else {
        DataType::UInt64
    }
}

/// Minimal common supertype of the mixed pair: a signed integer of width
/// `sw` and an unsigned integer of width `uw`.  The unsigned side needs a
/// signed type of twice its width to hold its full range, so the pair
/// promotes to the signed type of width `max(sw, 2 * uw)`; a 64-bit unsigned
/// value fits in no signed type, so that pair has no supertype.
pub open spec fn spec_mixed_supertype(sw: nat, uw: nat) -> Option<DataType> {
    if uw >= 64 {
        None
    } else if sw >= 2 * uw {
        Some(signed_of_width(sw))
    } else {
        Some(signed_of_width(2 * uw))
    }
}

/// Minimal common type both of `a` and `b` can be losslessly promoted to;
/// `None` when no such type exists.
pub open spec fn spec_supertype(a: DataType, b: DataType) -> Option<DataType> {
    if a == b {
        Some(a)
    } else if is_floating(a) && is_floating(b) {
        Some(if bit_width(a) >= bit_width(b) { a } else { b })
    } else if is_floating(a) && is_integer(b) {
        Some(a)
    } else if is_integer(a) && is_floating(b) {
        Some(b)
    } else if is_signed(a) && is_signed(b) {
        Some(signed_of_width(if bit_width(a) >= bit_width(b) { bit_width(a) } else { bit_width(b) }))
    } else if is_unsigned(a) && is_unsigned(b) {
        Some(unsigned_of_width(if bit_width(a) >= bit_width(b) { bit_width(a) } else { bit_width(b) }))
    } else if is_signed(a) && is_unsigned(b) {
        spec_mixed_supertype(bit_width(a), bit_width(b))
    } else if is_unsigned(a) && is_signed(b) {
        spec_mixed_supertype(bit_width(b), bit_width(a))
    } else {
        None
    }
}

/// The supertype is symmetric: `supertype(a, b) == supertype(b, a)`.
pub proof fn lemma_supertype_symmetric(a: DataType, b: DataType)
    ensures
        spec_supertype(a, b) == spec_supertype(b, a),
{
}

/// The supertype is idempotent on equal types: `supertype(a, a) == a`.
pub proof fn lemma_supertype_identity(a: DataType)
    ensures
        spec_supertype(a, a) == Some(a),
{
}

/// Once a pair has been promoted, promoting the result against either of
/// the original types changes nothing: the supertype absorbs its inputs.
pub proof fn lemma_supertype_absorbs(a: DataType, b: DataType, s: DataType)
    requires
        spec_supertype(a, b) == Some(s),
    ensures
        spec_supertype(s, b) == Some(s),
        spec_supertype(s, a) == Some(s),
{
}

/// Whether `t` is a signed integer type.
fn signed(t: &DataType) -> (r: bool)
    ensures
        r == is_signed(*t),
{
    matches!(t, DataType::Int8 | DataType::Int16 | DataType::Int32 | DataType::Int64)
}

/// Whether `t` is an unsigned integer type.
fn unsigned(t: &DataType) -> (r: bool)
    ensures
        r == is_unsigned(*t),
{
    matches!(t, DataType::UInt8 | DataType::UInt16 | DataType::UInt32 | DataType::UInt64)
}

/// Whether `t` is a floating-point type.
fn floating(t: &DataType) -> (r: bool)
    ensures
        r == is_floating(*t),
{
    matches!(t, DataType::Float32 | DataType::Float64)
}

/// Bit width of an integer or floating type; 0 for the rest.
fn width(t: &DataType) -> (w: u32)
    ensures
        w == bit_width(*t),
{
    match t {
        DataType::Int8 => 8,
        DataType::Int16 => 16,
        DataType::Int32 => 32,
        DataType::Int64 => 64,
        DataType::UInt8 => 8,
        DataType::UInt16 => 16,
        DataType::UInt32 => 32,
        DataType::UInt64 => 64,
        DataType::Float32 => 32,
        DataType::Float64 => 64,
        _ => 0,
    }
}

/// The signed integer type of bit width `w`.
fn signed_of(w: u32) -> (t: DataType)
    ensures
        t == signed_of_width(w as nat),
{
    if w <= 8 {
        DataType::Int8
    } else if w <= 16 {
        DataType::Int16
    } else if w <= 32 {
        DataType::Int32
    } else {
        DataType::Int64
    }
}

/// The unsigned integer type of bit width `w`.
fn unsigned_of(w: u32) -> (t: DataType)
    ensures
        t == unsigned_of_width(w as nat),
{
    if w <= 8 {
        DataType::UInt8
    } else if w <= 16 {
        DataType::UInt16
    } else if w <= 32 {
        DataType::UInt32
    } else {
        DataType::UInt64
    }
}

/// Resolve the minimal common supertype of `a` and `b`, or report that the
/// pair is incompatible.
pub fn get_supertype(a: &DataType, b: &DataType) -> (r: Result<DataType, PlanError>)
    ensures
        match r {
            Ok(t) => spec_supertype(*a, *b) == Some(t),
            Err(e) => spec_supertype(*a, *b) is None && e@ == ErrorV::IncompatibleTypes(*a, *b),
        },
{
    if *a == *b {
        Ok(*a)
    } else if floating(a) && floating(b) {
        Ok(if width(a) >= width(b) { *a } else { *b })
    } else if floating(a) && (signed(b) || unsigned(b)) {
        Ok(*a)
    } else if (signed(a) || unsigned(a)) && floating(b) {
        Ok(*b)
    } else if signed(a) && signed(b) {
        let wa = width(a);
        let wb = width(b);
        Ok(signed_of(if wa >= wb { wa } else { wb }))
    } else if unsigned(a) && unsigned(b) {
        let wa = width(a);
        let wb = width(b);
        Ok(unsigned_of(if wa >= wb { wa } else { wb }))
    } else if signed(a) && unsigned(b) {
        mixed_supertype(width(a), width(b), a, b)
    } else if unsigned(a) && signed(b) {
        mixed_supertype(width(b), width(a), a, b)
    } else {
        Err(PlanError::IncompatibleTypes(*a, *b))
    }
}

/// Resolve the mixed signed/unsigned case; `a` and `b` are the original pair
/// for the error value.
fn mixed_supertype(sw: u32, uw: u32, a: &DataType, b: &DataType) -> (r: Result<DataType, PlanError>)
    requires
        sw <= 64,
        uw <= 64,
    ensures
        match r {
            Ok(t) => spec_mixed_supertype(sw as nat, uw as nat) == Some(t),
            Err(e) => spec_mixed_supertype(sw as nat, uw as nat) is None && e@
                == ErrorV::IncompatibleTypes(*a, *b),
        },
{
    if uw >= 64 {
        Err(PlanError::IncompatibleTypes(*a, *b))
    } else if sw >= 2 * uw {
        Ok(signed_of(sw))
    } else {
        Ok(signed_of(2 * uw))
    }
}

} // verus!
