//! App units: the fixed-point length that all layout geometry is measured in.

use vstd::prelude::*;

verus! {

/// The number of app units in one CSS pixel.
pub const AU_PER_PX: i32 = 60;

/// The smallest length an app unit can hold.
pub const MIN_AU: i32 = -1073741823;

/// The largest length an app unit can hold.
pub const MAX_AU: i32 = 1073741823;

/// Whether `v` lies within the representable range of app units.
pub open spec fn au_in_range(v: int) -> bool {
    MIN_AU <= v <= MAX_AU
}

/// `v` pulled into the representable range of app units.
pub open spec fn clamp_au(v: int) -> int {
    if v < MIN_AU {
        MIN_AU as int
    } else if v > MAX_AU {
        MAX_AU as int
    } else {
        v
    }
}

/// `app_units::Au::new`: the app unit made from `value`, saturated at
/// `MIN_AU` and `MAX_AU`.
#[verifier::external_body]
fn au_new_raw(value: i32) -> (r: i32)
    ensures
        r == clamp_au(value as int),
{
    app_units::Au::new(value).0
}

/// `app_units::Au`'s `+`: the sum of two app units, saturated at `MIN_AU`
/// and `MAX_AU`. The operator adds the two `i32` values before it clamps,
/// so the sum itself has to fit in an `i32`.
#[verifier::external_body]
fn au_add_raw(a: i32, b: i32) -> (r: i32)
    requires
        i32::MIN <= a + b <= i32::MAX,
    ensures
        r == clamp_au(a + b),
{
    (app_units::Au(a) + app_units::Au(b)).0
}

/// `app_units::Au`'s binary `-`: the difference of two app units, saturated
/// at `MIN_AU` and `MAX_AU`. The operator subtracts the two `i32` values
/// before it clamps, so the difference itself has to fit in an `i32`.
#[verifier::external_body]
fn au_sub_raw(a: i32, b: i32) -> (r: i32)
    requires
        i32::MIN <= a - b <= i32::MAX,
    ensures
        r == clamp_au(a - b),
{
    (app_units::Au(a) - app_units::Au(b)).0
}

/// `app_units::Au`'s unary `-`: the negated app unit, without clamping. The
/// operator negates the `i32` value, which must not be `i32::MIN`.
#[verifier::external_body]
fn au_neg_raw(a: i32) -> (r: i32)
    requires
        a != i32::MIN,
    ensures
        r == -a,
{
    (-app_units::Au(a)).0
}

/// A length in app units, always within `MIN_AU ..= MAX_AU`.
#[derive(Clone, Copy, Debug, PartialEq, Eq, Structural)]
pub struct Au {
    value: i32,
}

impl View for Au {
    type V = int;

    closed spec fn view(&self) -> int {
        self.value as int
    }
}

impl Au {
    #[verifier::type_invariant]
    closed spec fn in_range(self) -> bool {
        au_in_range(self.value as int)
    }

    /// The length of `value` app units, saturated at `MIN_AU` and `MAX_AU`.
    pub fn new(value: i32) -> (r: Au)
        ensures
            r@ == clamp_au(value as int),
    {
        Au { value: au_new_raw(value) }
    }

    /// The length of `value` app units, for a value already in range.
    pub(crate) fn from_raw(value: i32) -> (r: Au)
        requires
            au_in_range(value as int),
        ensures
            r@ == value,
    {
        Au { value }
    }

    /// The zero length.
    pub fn zero() -> (r: Au)
        ensures
            r@ == 0,
    {
        Au { value: 0 }
    }

    /// The number of app units in this length.
    pub fn to_i32(self) -> (r: i32)
        ensures
            r == self@,
            au_in_range(r as int),
    {
        proof {
            use_type_invariant(&self);
        }
        self.value
    }

    /// `self + other`, saturated at `MIN_AU` and `MAX_AU`.
    pub fn add(self, other: Au) -> (r: Au)
        ensures
            r@ == clamp_au(self@ + other@),
    {
        proof {
            use_type_invariant(&self);
            use_type_invariant(&other);
        }
        Au { value: au_add_raw(self.value, other.value) }
    }

    /// `self - other`, saturated at `MIN_AU` and `MAX_AU`.
    pub fn sub(self, other: Au) -> (r: Au)
        ensures
            r@ == clamp_au(self@ - other@),
    {
        proof {
            use_type_invariant(&self);
            use_type_invariant(&other);
        }
        Au { value: au_sub_raw(self.value, other.value) }
    }

    /// `-self`. The range of app units is symmetric, so nothing saturates.
    pub fn neg(self) -> (r: Au)
        ensures
            r@ == -self@,
    {
        proof {
            use_type_invariant(&self);
        }
        Au { value: au_neg_raw(self.value) }
    }
}

/// Two lengths of the same number of app units are the same length.
pub proof fn lemma_au_same_view(a: Au, b: Au)
    ensures
        (a@ == b@) <==> (a == b),
{
}

/// Clamping leaves a length that is already in range as it is.
pub proof fn lemma_clamp_au_in_range(v: int)
    ensures
        au_in_range(clamp_au(v)),
        au_in_range(v) ==> clamp_au(v) == v,
{
}

} // verus!
