use vstd::prelude::*;

verus! {

/// # DynAxis (Dynamic Axis)
///
/// Dynamic axis identifier, used where a fixed generic [`Axis`] is cumbersome or a single type
/// is preferred. [`DynAxis::index`] gives the `usize` index of the axis (`0` for *x*, `1` for *y*).
#[derive(Debug, Clone, Copy, PartialEq, Eq, PartialOrd, Ord, Structural)]
pub enum DynAxis {
    X,
    Y,
}

impl DynAxis {
    /// The transpose of an axis.
    pub open spec fn spec_t(self) -> DynAxis {
        match self {
            DynAxis::X => DynAxis::Y,
            DynAxis::Y => DynAxis::X,
        }
    }

    /// The index of an axis: `0` for *x* and `1` for *y*.
    pub open spec fn spec_index(self) -> usize {
        match self {
            DynAxis::X => 0,
            DynAxis::Y => 1,
        }
    }

    /// Return the transpose axis.
    pub fn t(self) -> (r: DynAxis)
        ensures
            r == self.spec_t(),
    {
        match self {
            DynAxis::X => DynAxis::Y,
            DynAxis::Y => DynAxis::X,
        }
    }

    /// Return the axis index (`0` for *x*, `1` for *y*).
    pub fn index(self) -> (r: usize)
        ensures
            r == self.spec_index(),
    {
        match self {
            DynAxis::X => 0,
            DynAxis::Y => 1,
        }
    }
}

/// # AxisValue
///
/// Constant axis marker value. Each marker resolves to a [`DynAxis`]. See [`Axis`].
pub trait AxisValue: Sized + Copy + core::fmt::Debug + PartialEq + Eq {
    /// The axis that the marker stands for.
    spec fn spec_dyn() -> DynAxis;

    /// Return the axis as a [`DynAxis`].
    fn into_dyn() -> (r: DynAxis)
        ensures
            r == Self::spec_dyn(),
    ;
}

/// # Axis
///
/// Constant axis marker, naming its transpose marker with [`Axis::T`].
pub trait Axis: AxisValue {
    /// The transpose axis type.
    type T: AxisValue;

    /// The transpose marker stands for the transpose axis.
    proof fn lemma_transpose()
        ensures
            <Self::T as AxisValue>::spec_dyn() == Self::spec_dyn().spec_t(),
    ;
}

/// Constant axis **X** identifier. See [`Axis`].
#[derive(Debug, Clone, Copy, PartialEq, Eq, Structural)]
pub struct AxisX;

/// Constant axis **Y** identifier. See [`Axis`].
#[derive(Debug, Clone, Copy, PartialEq, Eq, Structural)]
pub struct AxisY;

impl AxisValue for AxisX {
    open spec fn spec_dyn() -> DynAxis {
        DynAxis::X
    }

    fn into_dyn() -> (r: DynAxis) {
        DynAxis::X
    }
}

impl Axis for AxisX {
    type T = AxisY;

    proof fn lemma_transpose() {
    }
}

impl AxisValue for AxisY {
    open spec fn spec_dyn() -> DynAxis {
        DynAxis::Y
    }

    fn into_dyn() -> (r: DynAxis) {
        DynAxis::Y
    }
}

impl Axis for AxisY {
    type T = AxisX;

    proof fn lemma_transpose() {
    }
}

/// Transposing twice gives back the axis.
pub proof fn lemma_transpose_involutive(a: DynAxis)
    ensures
        a.spec_t().spec_t() == a,
        a.spec_t() != a,
{
}

} // verus!
