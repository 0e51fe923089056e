//! Version-gated values, and the check that a gated field agrees with the
//! field's activation state at the version spoken.

use crate::version::ActivationState;
use vstd::prelude::*;

verus! {

/// A version-gated value: either active (present at the targeted version)
/// or void (absent because the field or variant was not yet introduced, has
/// been removed, or is deprecated at the negotiated version).
///
/// Like `Option<T>`, but absence is caused by schema versioning rather than
/// by user intent.
#[derive(Copy, Clone, Debug, PartialEq, Eq, PartialOrd, Ord, Hash)]
pub enum Gated<T> {
    /// The value is present: the field is active at the targeted version.
    Active(T),
    /// The value is absent: the field is not active at the targeted version.
    Void,
}

/// Why a gated value disagrees with its field's activation state.
#[derive(Clone, Copy, Debug, PartialEq, Eq, Structural)]
pub enum GateError {
    /// The field is active at the version but the value is void.
    ExpectedActive,
    /// The field is inactive at the version but the value is active.
    ExpectedInactive,
}

/// The description of a gate error.
pub open spec fn gate_error_text(e: GateError) -> Seq<char> {
    match e {
        GateError::ExpectedActive => "expected active, got inactive"@,
        GateError::ExpectedInactive => "expected inactive, got active"@,
    }
}

impl GateError {
    /// Describe the error in words.
    pub fn message(&self) -> (r: String)
        ensures
            r@ == gate_error_text(*self),
    {
        match self {
            GateError::ExpectedActive => String::from_str("expected active, got inactive"),
            GateError::ExpectedInactive => String::from_str("expected inactive, got active"),
        }
    }
}

/// What a field of a row being sent or received carries, as far as gating
/// is concerned.
#[derive(Clone, Copy, Debug, PartialEq, Eq, Structural)]
pub enum GateSlot {
    /// The field is not gated (or not filled yet): it is never checked.
    Plain,
    /// A gated field holding a value.
    Active,
    /// A gated field holding no value.
    Void,
}

/// The disagreement, if any, between a field's state and whether its gated
/// value is active: an active field needs a value, an inactive one must have
/// none, and a deprecated one accepts either.
pub open spec fn gate_error(state: ActivationState, active: bool) -> Option<GateError> {
    match state {
        ActivationState::Active => if active {
            None
        } else {
            Some(GateError::ExpectedActive)
        },
        ActivationState::Deprecated => None,
        ActivationState::Inactive => if active {
            Some(GateError::ExpectedInactive)
        } else {
            None
        },
    }
}

/// The disagreement of one slot with its state.
pub open spec fn slot_error(slot: GateSlot, state: ActivationState) -> Option<GateError> {
    match slot {
        GateSlot::Plain => None,
        GateSlot::Active => gate_error(state, true),
        GateSlot::Void => gate_error(state, false),
    }
}

/// The first disagreement along a row of slots, field `i` being checked
/// against `states[i]`.
pub open spec fn first_gate_error(slots: Seq<GateSlot>, states: Seq<ActivationState>) -> Option<
    GateError,
>
    decreases slots.len(),
{
    if slots.len() == 0 {
        None
    } else {
        match first_gate_error(slots.drop_last(), states) {
            Some(e) => Some(e),
            None => slot_error(slots.last(), states[slots.len() - 1]),
        }
    }
}

impl<T> Gated<T> {
    /// Returns `true` if the value is `Active`.
    pub fn is_active(&self) -> (r: bool)
        ensures
            r == (*self is Active),
    {
        match self {
            Gated::Active(_) => true,
            Gated::Void => false,
        }
    }

    /// Returns `true` if the value is `Void`.
    pub fn is_void(&self) -> (r: bool)
        ensures
            r == (*self is Void),
    {
        match self {
            Gated::Active(_) => false,
            Gated::Void => true,
        }
    }

    /// Convert into an `Option<T>`, discarding the versioning semantics.
    pub fn into_option(self) -> (r: Option<T>)
        ensures
            match self {
                Gated::Active(v) => r == Some(v),
                Gated::Void => r is None,
            },
    {
        match self {
            Gated::Active(v) => Some(v),
            Gated::Void => None,
        }
    }

    /// Borrow the inner value as `Option<&T>`.
    pub fn as_ref(&self) -> (r: Option<&T>)
        ensures
            match *self {
                Gated::Active(v) => r matches Some(x) && *x == v,
                Gated::Void => r is None,
            },
    {
        match self {
            Gated::Active(v) => Some(v),
            Gated::Void => None,
        }
    }

    /// Mutably borrow the inner value as `Option<&mut T>`.
    pub fn as_mut(&mut self) -> (r: Option<&mut T>)
        ensures
            match *old(self) {
                Gated::Active(v) => r matches Some(x) && *x == v && *final(self) == Gated::Active(
                    *final(x),
                ),
                Gated::Void => r is None && *final(self) == Gated::<T>::Void,
            },
    {
        match self {
            Gated::Active(v) => Some(v),
            Gated::Void => None,
        }
    }

    /// Returns the contained value, consuming `self`. The value must be
    /// `Active`.
    pub fn unwrap(self) -> (r: T)
        requires
            self is Active,
        ensures
            self == Gated::Active(r),
    {
        match self {
            Gated::Active(v) => v,
            Gated::Void => unreached(),
        }
    }

    /// Returns the contained value or a provided default.
    pub fn unwrap_or(self, default: T) -> (r: T)
        ensures
            match self {
                Gated::Active(v) => r == v,
                Gated::Void => r == default,
            },
    {
        match self {
            Gated::Active(v) => v,
            Gated::Void => default,
        }
    }

    /// Returns the contained value or computes it from a closure.
    pub fn unwrap_or_else<F: FnOnce() -> T>(self, f: F) -> (r: T)
        requires
            self is Void ==> f.requires(()),
        ensures
            match self {
                Gated::Active(v) => r == v,
                Gated::Void => f.ensures((), r),
            },
    {
        match self {
            Gated::Active(v) => v,
            Gated::Void => f(),
        }
    }

    /// Maps a `Gated<T>` to `Gated<U>` by applying a function to the active
    /// value.
    pub fn map<U, F: FnOnce(T) -> U>(self, f: F) -> (r: Gated<U>)
        requires
            self matches Gated::Active(v) ==> f.requires((v,)),
        ensures
            match self {
                Gated::Active(v) => r matches Gated::Active(u) && f.ensures((v,), u),
                Gated::Void => r is Void,
            },
    {
        match self {
            Gated::Active(v) => Gated::Active(f(v)),
            Gated::Void => Gated::Void,
        }
    }

    /// Returns `Void` if the value is `Void`, otherwise calls `f` with the
    /// active value and returns the result.
    pub fn and_then<U, F: FnOnce(T) -> Gated<U>>(self, f: F) -> (r: Gated<U>)
        requires
            self matches Gated::Active(v) ==> f.requires((v,)),
        ensures
            match self {
                Gated::Active(v) => f.ensures((v,), r),
                Gated::Void => r is Void,
            },
    {
        match self {
            Gated::Active(v) => f(v),
            Gated::Void => Gated::Void,
        }
    }

    /// Check the value against its field's activation state at the version
    /// spoken.
    pub fn check(&self, state: ActivationState) -> (r: Result<(), GateError>)
        ensures
            match gate_error(state, *self is Active) {
                Some(e) => r == Err::<(), GateError>(e),
                None => r is Ok,
            },
    {
        match state {
            ActivationState::Active => if self.is_active() {
                Ok(())
            } else {
                Err(GateError::ExpectedActive)
            },
            ActivationState::Deprecated => Ok(()),
            ActivationState::Inactive => if self.is_void() {
                Ok(())
            } else {
                Err(GateError::ExpectedInactive)
            },
        }
    }

    /// What this value carries, as far as gating is concerned.
    pub fn slot(&self) -> (r: GateSlot)
        ensures
            r == if *self is Active {
                GateSlot::Active
            } else {
                GateSlot::Void
            },
    {
        match self {
            Gated::Active(_) => GateSlot::Active,
            Gated::Void => GateSlot::Void,
        }
    }
}

impl<T: Default> Gated<T> {
    /// Returns the contained value or the default for `T`.
    pub fn unwrap_or_default(self) -> (r: T)
        ensures
            self matches Gated::Active(v) ==> r == v,
            self is Void ==> call_ensures(T::default, (), r),
    {
        match self {
            Gated::Active(v) => v,
            Gated::Void => T::default(),
        }
    }
}

/// Check a row of fields against their activation states at the version
/// spoken, field `i` against `states[i]`, stopping at the first field that
/// disagrees.
pub fn validate_fields(slots: &[GateSlot], states: &[ActivationState]) -> (r: Result<
    (),
    GateError,
>)
    requires
        slots@.len() <= states@.len(),
    ensures
        match first_gate_error(slots@, states@) {
            Some(e) => r == Err::<(), GateError>(e),
            None => r is Ok,
        },
{
    let mut i: usize = 0;
    while i < slots.len()
        invariant
            0 <= i <= slots@.len() <= states@.len(),
            first_gate_error(slots@.take(i as int), states@) is None,
        decreases slots@.len() - i,
    {
        let ghost prefix = slots@.take(i + 1);
        assert(prefix.drop_last() =~= slots@.take(i as int));
        let state = states[i];
        let failed = match slots[i] {
            GateSlot::Plain => None,
            GateSlot::Active => match state {
                ActivationState::Active | ActivationState::Deprecated => None,
                ActivationState::Inactive => Some(GateError::ExpectedInactive),
            },
            GateSlot::Void => match state {
                ActivationState::Inactive | ActivationState::Deprecated => None,
                ActivationState::Active => Some(GateError::ExpectedActive),
            },
        };
        if let Some(e) = failed {
            proof {
                lemma_first_gate_error_extends(slots@, states@, i as int + 1);
            }
            return Err(e);
        }
        i += 1;
    }
    assert(slots@.take(i as int) =~= slots@);
    Ok(())
}

/// Once a prefix of the row disagrees, the whole row reports that same
/// disagreement.
proof fn lemma_first_gate_error_extends(
    slots: Seq<GateSlot>,
    states: Seq<ActivationState>,
    k: int,
)
    requires
        0 <= k <= slots.len(),
        first_gate_error(slots.take(k), states) is Some,
    ensures
        first_gate_error(slots, states) == first_gate_error(slots.take(k), states),
    decreases slots.len() - k,
{
    if k < slots.len() {
        let next = slots.take(k + 1);
        assert(next.drop_last() =~= slots.take(k));
        lemma_first_gate_error_extends(slots, states, k + 1);
    } else {
        assert(slots.take(k) =~= slots);
    }
}

impl<T> From<Option<T>> for Gated<T> {
    fn from(opt: Option<T>) -> (r: Self) {
        match opt {
            Some(v) => Gated::Active(v),
            None => Gated::Void,
        }
    }
}

impl<T> vstd::std_specs::convert::FromSpecImpl<Option<T>> for Gated<T> {
    open spec fn obeys_from_spec() -> bool {
        true
    }

    open spec fn from_spec(opt: Option<T>) -> Self {
        match opt {
            Some(v) => Gated::Active(v),
            None => Gated::Void,
        }
    }
}

impl<T> From<Gated<T>> for Option<T> {
    fn from(gated: Gated<T>) -> (r: Self) {
        gated.into_option()
    }
}

impl<T> vstd::std_specs::convert::FromSpecImpl<Gated<T>> for Option<T> {
    open spec fn obeys_from_spec() -> bool {
        true
    }

    open spec fn from_spec(gated: Gated<T>) -> Self {
        match gated {
            Gated::Active(v) => Some(v),
            Gated::Void => None,
        }
    }
}

impl<T> Default for Gated<T> {
    /// A missing versioned value defaults to `Void`.
    fn default() -> (r: Self)
        ensures
            r is Void,
    {
        Gated::Void
    }
}

/// Converting a gated value to an option and back gives it back, and so
/// does converting an option to a gated value and back.
pub proof fn lemma_gated_option_round_trip<T>(g: Gated<T>, o: Option<T>)
    ensures
        <Gated<T> as vstd::std_specs::convert::FromSpec<Option<T>>>::from_spec(
            <Option<T> as vstd::std_specs::convert::FromSpec<Gated<T>>>::from_spec(g),
        ) == g,
        <Option<T> as vstd::std_specs::convert::FromSpec<Gated<T>>>::from_spec(
            <Gated<T> as vstd::std_specs::convert::FromSpec<Option<T>>>::from_spec(o),
        ) == o,
{
}

} // verus!
