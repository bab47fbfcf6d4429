//! Scalar values and the accumulators that track the least and the
//! greatest of the values they are fed.

use vstd::prelude::*;
use crate::datatypes::DataType;

verus! {

/// A value of one of the tracked column types, or the null of that type.
///
/// A float is held as its IEEE 754 bit pattern, so that it is kept exactly
/// and can be handed back as the float it came from.
#[derive(Clone, Copy, Debug, PartialEq, Eq)]
pub enum ScalarValue {
    Boolean(Option<bool>),
    Int32(Option<i32>),
    Int64(Option<i64>),
    /// The bits of a 32 bit float.
    Float32(Option<u32>),
    /// The bits of a 64 bit float.
    Float64(Option<u64>),
}

/// The place of a 32 bit float, given by its bits, in the order of the
/// floats: negative floats come before positive ones, `-0.0` directly
/// before `+0.0`, and a NaN lies beyond the infinity of its sign. Of two
/// numbers the smaller has the smaller rank.
pub open spec fn float32_rank(bits: u32) -> int {
    if bits < 0x8000_0000u32 {
        bits as int
    } else {
        0x7fff_ffff - bits
    }
}

/// The place of a 64 bit float, given by its bits, in the order of the
/// floats; see `float32_rank`.
pub open spec fn float64_rank(bits: u64) -> int {
    if bits < 0x8000_0000_0000_0000u64 {
        bits as int
    } else {
        0x7fff_ffff_ffff_ffff - bits
    }
}

impl ScalarValue {
    /// The column type that the value belongs to.
    pub open spec fn spec_data_type(self) -> DataType {
        match self {
            ScalarValue::Boolean(_) => DataType::Boolean,
            ScalarValue::Int32(_) => DataType::Int32,
            ScalarValue::Int64(_) => DataType::Int64,
            ScalarValue::Float32(_) => DataType::Float32,
            ScalarValue::Float64(_) => DataType::Float64,
        }
    }

    /// Whether the value is the null of its type.
    pub open spec fn spec_is_null(self) -> bool {
        match self {
            ScalarValue::Boolean(v) => v is None,
            ScalarValue::Int32(v) => v is None,
            ScalarValue::Int64(v) => v is None,
            ScalarValue::Float32(v) => v is None,
            ScalarValue::Float64(v) => v is None,
        }
    }

    /// The place of a value among the values of its type: `false` before
    /// `true`, integers by their value, floats by `float32_rank` and
    /// `float64_rank`. Two values of one type with the same rank are equal.
    /// The rank of a null is 0 and means nothing.
    pub open spec fn rank(self) -> int {
        match self {
            ScalarValue::Boolean(Some(b)) => if b { 1 } else { 0 },
            ScalarValue::Int32(Some(v)) => v as int,
            ScalarValue::Int64(Some(v)) => v as int,
            ScalarValue::Float32(Some(bits)) => float32_rank(bits),
            ScalarValue::Float64(Some(bits)) => float64_rank(bits),
            _ => 0,
        }
    }

    /// The null of the column type `data_type`; `None` for a type that
    /// is not tracked.
    pub open spec fn null_of(data_type: DataType) -> Option<ScalarValue> {
        match data_type {
            DataType::Boolean => Some(ScalarValue::Boolean(None)),
            DataType::Int32 => Some(ScalarValue::Int32(None)),
            DataType::Int64 => Some(ScalarValue::Int64(None)),
            DataType::Float32 => Some(ScalarValue::Float32(None)),
            DataType::Float64 => Some(ScalarValue::Float64(None)),
            DataType::Other => None,
        }
    }

    /// The greater of two values of one type, a null counting as no value.
    pub open spec fn greater(self, other: ScalarValue) -> ScalarValue {
        if other.spec_is_null() {
            self
        } else if self.spec_is_null() {
            other
        } else if self.rank() >= other.rank() {
            self
        } else {
            other
        }
    }

    /// The smaller of two values of one type, a null counting as no value.
    pub open spec fn smaller(self, other: ScalarValue) -> ScalarValue {
        if other.spec_is_null() {
            self
        } else if self.spec_is_null() {
            other
        } else if self.rank() <= other.rank() {
            self
        } else {
            other
        }
    }

    /// The column type that the value belongs to.
    pub fn data_type(&self) -> (data_type: DataType)
        ensures
            data_type == self.spec_data_type(),
    {
        match self {
            ScalarValue::Boolean(_) => DataType::Boolean,
            ScalarValue::Int32(_) => DataType::Int32,
            ScalarValue::Int64(_) => DataType::Int64,
            ScalarValue::Float32(_) => DataType::Float32,
            ScalarValue::Float64(_) => DataType::Float64,
        }
    }

    /// Whether the value is the null of its type.
    pub fn is_null(&self) -> (null: bool)
        ensures
            null == self.spec_is_null(),
    {
        match self {
            ScalarValue::Boolean(v) => v.is_none(),
            ScalarValue::Int32(v) => v.is_none(),
            ScalarValue::Int64(v) => v.is_none(),
            ScalarValue::Float32(v) => v.is_none(),
            ScalarValue::Float64(v) => v.is_none(),
        }
    }

    /// Whether `self` comes before `other` in the order of their type.
    /// For two values that are not of one type, or of which one is null,
    /// the answer is `false`.
    pub fn precedes(&self, other: &ScalarValue) -> (before: bool)
        ensures
            before == (self.spec_data_type() == other.spec_data_type() && !self.spec_is_null()
                && !other.spec_is_null() && self.rank() < other.rank()),
    {
        match (self, other) {
            (ScalarValue::Boolean(Some(a)), ScalarValue::Boolean(Some(b))) => !*a && *b,
            (ScalarValue::Int32(Some(a)), ScalarValue::Int32(Some(b))) => *a < *b,
            (ScalarValue::Int64(Some(a)), ScalarValue::Int64(Some(b))) => *a < *b,
            (ScalarValue::Float32(Some(a)), ScalarValue::Float32(Some(b))) => {
                float32_place(*a) < float32_place(*b)
            },
            (ScalarValue::Float64(Some(a)), ScalarValue::Float64(Some(b))) => {
                float64_place(*a) < float64_place(*b)
            },
            _ => false,
        }
    }
}

/// Computes `float32_rank`.
fn float32_place(bits: u32) -> (place: i64)
    ensures
        place == float32_rank(bits),
{
    if bits < 0x8000_0000u32 {
        bits as i64
    } else {
        0x7fff_ffffi64 - (bits as i64)
    }
}

/// Computes `float64_rank`.
fn float64_place(bits: u64) -> (place: i128)
    ensures
        place == float64_rank(bits),
{
    if bits < 0x8000_0000_0000_0000u64 {
        bits as i128
    } else {
        0x7fff_ffff_ffff_ffffi128 - (bits as i128)
    }
}

/// Two values of one type, neither of them null, that have the same rank
/// are the same value.
pub proof fn lemma_rank_determines_value(a: ScalarValue, b: ScalarValue)
    requires
        a.spec_data_type() == b.spec_data_type(),
        !a.spec_is_null(),
        !b.spec_is_null(),
        a.rank() == b.rank(),
    ensures
        a == b,
{
}

/// Why an accumulator refused a value.
#[derive(Clone, Copy, Debug, PartialEq, Eq, Structural)]
pub enum AccumulatorError {
    /// The value is not of the accumulator's type.
    TypeMismatch,
}

/// Tracks the greatest of the values it is fed.
#[derive(Clone, Copy, Debug, PartialEq, Eq)]
pub struct MaxAccumulator {
    /// The greatest value so far; the null of the accumulator's type until
    /// a value that is not null has been fed.
    pub max: ScalarValue,
}

/// Tracks the least of the values it is fed.
#[derive(Clone, Copy, Debug, PartialEq, Eq)]
pub struct MinAccumulator {
    /// The least value so far; the null of the accumulator's type until a
    /// value that is not null has been fed.
    pub min: ScalarValue,
}

impl MaxAccumulator {
    /// A fresh accumulator for the column type `data_type`, or `None`
    /// where values of that type are not tracked.
    pub open spec fn spec_try_new(data_type: DataType) -> Option<MaxAccumulator> {
        match ScalarValue::null_of(data_type) {
            Some(null) => Some(MaxAccumulator { max: null }),
            None => None,
        }
    }

    /// A fresh accumulator for the column type `data_type`, or `None`
    /// where values of that type are not tracked.
    pub fn try_new(data_type: &DataType) -> (accumulator: Option<Self>)
        ensures
            accumulator == Self::spec_try_new(*data_type),
    {
        match data_type {
            DataType::Boolean => Some(MaxAccumulator { max: ScalarValue::Boolean(None) }),
            DataType::Int32 => Some(MaxAccumulator { max: ScalarValue::Int32(None) }),
            DataType::Int64 => Some(MaxAccumulator { max: ScalarValue::Int64(None) }),
            DataType::Float32 => Some(MaxAccumulator { max: ScalarValue::Float32(None) }),
            DataType::Float64 => Some(MaxAccumulator { max: ScalarValue::Float64(None) }),
            DataType::Other => None,
        }
    }

    /// Feeds `value`. A value of the accumulator's type is taken in: the
    /// accumulator then holds the greater of what it held and `value`. A
    /// value of another type is refused and leaves the accumulator as it
    /// was.
    pub fn update(&mut self, value: &ScalarValue) -> (outcome: Result<(), AccumulatorError>)
        ensures
            value.spec_data_type() == old(self).max.spec_data_type() ==> outcome is Ok
                && final(self).max == old(self).max.greater(*value),
            value.spec_data_type() != old(self).max.spec_data_type() ==> (outcome matches Err(
                AccumulatorError::TypeMismatch,
            )) && *final(self) == *old(self),
    {
        if value.data_type() != self.max.data_type() {
            return Err(AccumulatorError::TypeMismatch);
        }
        if value.is_null() {
            return Ok(());
        }
        if self.max.is_null() || self.max.precedes(value) {
            self.max = *value;
        }
        Ok(())
    }

    /// The greatest value fed so far, or the null of the accumulator's
    /// type where none was.
    pub fn evaluate(&self) -> (value: ScalarValue)
        ensures
            value == self.max,
    {
        self.max
    }
}

impl MinAccumulator {
    /// A fresh accumulator for the column type `data_type`, or `None`
    /// where values of that type are not tracked.
    pub open spec fn spec_try_new(data_type: DataType) -> Option<MinAccumulator> {
        match ScalarValue::null_of(data_type) {
            Some(null) => Some(MinAccumulator { min: null }),
            None => None,
        }
    }

    /// A fresh accumulator for the column type `data_type`, or `None`
    /// where values of that type are not tracked.
    pub fn try_new(data_type: &DataType) -> (accumulator: Option<Self>)
        ensures
            accumulator == Self::spec_try_new(*data_type),
    {
        match data_type {
            DataType::Boolean => Some(MinAccumulator { min: ScalarValue::Boolean(None) }),
            DataType::Int32 => Some(MinAccumulator { min: ScalarValue::Int32(None) }),
            DataType::Int64 => Some(MinAccumulator { min: ScalarValue::Int64(None) }),
            DataType::Float32 => Some(MinAccumulator { min: ScalarValue::Float32(None) }),
            DataType::Float64 => Some(MinAccumulator { min: ScalarValue::Float64(None) }),
            DataType::Other => None,
        }
    }

    /// Feeds `value`. A value of the accumulator's type is taken in: the
    /// accumulator then holds the smaller of what it held and `value`. A
    /// value of another type is refused and leaves the accumulator as it
    /// was.
    pub fn update(&mut self, value: &ScalarValue) -> (outcome: Result<(), AccumulatorError>)
        ensures
            value.spec_data_type() == old(self).min.spec_data_type() ==> outcome is Ok
                && final(self).min == old(self).min.smaller(*value),
            value.spec_data_type() != old(self).min.spec_data_type() ==> (outcome matches Err(
                AccumulatorError::TypeMismatch,
            )) && *final(self) == *old(self),
    {
        if value.data_type() != self.min.data_type() {
            return Err(AccumulatorError::TypeMismatch);
        }
        if value.is_null() {
            return Ok(());
        }
        if self.min.is_null() || value.precedes(&self.min) {
            self.min = *value;
        }
        Ok(())
    }

    /// The least value fed so far, or the null of the accumulator's type
    /// where none was.
    pub fn evaluate(&self) -> (value: ScalarValue)
        ensures
            value == self.min,
    {
        self.min
    }
}

} // verus!
