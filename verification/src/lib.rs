//! Type-safe validation of arbitrary data.
//!
//! The [`Valid`] wrapper holds a value that has passed the validation
//! predicate of the [`Validate`] trait. A `Valid<T>` is obtained by
//! running that predicate — through [`Validate::validate_with`], or
//! through [`ValidateDefault::validate`] when the predicate needs no
//! context — so holding one is a proof that the payload was valid at the
//! moment of construction. The sole exception is the loudly named
//! test-only constructor [`Valid::danger_new_unvalidated`], whose contract
//! promises no validity.
//!
//! The modules [`phone`] and [`percent`] hold example payload types that
//! show how a type opts into validation.

use vstd::prelude::*;
use vstd::std_specs::cmp::PartialEqSpec;
use vstd::std_specs::cmp::PartialOrdSpec;

pub mod phone;
pub mod percent;

verus! {

/// A thin wrapper around a value that guarantees that it is "valid".
///
/// A `Valid<T>` is produced by [`Validate::validate`] or
/// [`Validate::validate_with`], whose contracts say that the payload
/// satisfied the validation predicate. The wrapper never hands out a
/// mutable reference to its payload, so the guarantee cannot be broken
/// after construction.
#[derive(Debug, Clone, Copy, Eq, Ord, Hash)]
pub struct Valid<T>(T);

impl<T> View for Valid<T> {
    type V = T;

    closed spec fn view(&self) -> T {
        self.0
    }
}

impl<T> Valid<T> {
    /// Consume self and return the inner value.
    ///
    /// The guarantee of validity is a property of the wrapper, not of the
    /// value: once unwrapped, the payload carries no marker, and a caller
    /// who needs the guarantee again must validate anew.
    pub fn into_inner(self) -> (r: T)
        ensures
            r == self@,
    {
        self.0
    }

    /// Create a `Valid<T>` without validating.
    ///
    /// This bypasses the whole point of the wrapper: the result carries no
    /// guarantee that its payload satisfies the validation predicate, and
    /// its contract promises nothing but the payload itself. It is an
    /// escape hatch intended solely for test code that needs a stand-in
    /// for a known-good fixture; production code must construct wrappers
    /// through [`Validate::validate`] or [`Validate::validate_with`].
    pub fn danger_new_unvalidated(t: T) -> (r: Valid<T>)
        ensures
            r@ == t,
    {
        Valid(t)
    }
}

impl<T> core::ops::Deref for Valid<T> {
    type Target = T;

    /// Transparent read access: dereferencing a wrapper yields exactly the
    /// value that [`Valid::into_inner`] would yield.
    fn deref(&self) -> (r: &T)
        ensures
            r == self@,
    {
        &self.0
    }
}

impl<T: PartialEq> PartialEq for Valid<T> {
    fn eq(&self, other: &Self) -> (r: bool) {
        self.0 == other.0
    }
}

impl<T: PartialEq> vstd::std_specs::cmp::PartialEqSpecImpl for Valid<T> {
    open spec fn obeys_eq_spec() -> bool {
        T::obeys_eq_spec()
    }

    open spec fn eq_spec(&self, other: &Self) -> bool {
        self.view().eq_spec(&other.view())
    }
}

impl<T: PartialOrd> PartialOrd for Valid<T> {
    fn partial_cmp(&self, other: &Self) -> (r: Option<core::cmp::Ordering>) {
        self.0.partial_cmp(&other.0)
    }
}

impl<T: PartialOrd> vstd::std_specs::cmp::PartialOrdSpecImpl for Valid<T> {
    open spec fn obeys_partial_cmp_spec() -> bool {
        T::obeys_partial_cmp_spec()
    }

    open spec fn partial_cmp_spec(&self, other: &Self) -> Option<core::cmp::Ordering> {
        self.view().partial_cmp_spec(&other.view())
    }
}

/// Equality of wrappers is equality of payloads: comparing two wrappers
/// means exactly what comparing the wrapped values means.
pub proof fn lemma_eq_forwards_to_payload<T: PartialEq>(a: Valid<T>, b: Valid<T>)
    ensures
        a.eq_spec(&b) == a@.eq_spec(&b@),
        Valid::<T>::obeys_eq_spec() == T::obeys_eq_spec(),
{
}

/// Ordering of wrappers is ordering of payloads: comparing two wrappers
/// means exactly what comparing the wrapped values means.
pub proof fn lemma_ord_forwards_to_payload<T: PartialOrd>(a: Valid<T>, b: Valid<T>)
    ensures
        a.partial_cmp_spec(&b) == a@.partial_cmp_spec(&b@),
        Valid::<T>::obeys_partial_cmp_spec() == T::obeys_partial_cmp_spec(),
{
}

/// A wrapper is determined by its payload: two wrappers with equal payloads
/// are equal. In particular, unwrapping a wrapper and re-wrapping the value
/// (when validation still succeeds) yields a wrapper equal to the original.
pub proof fn lemma_payload_determines_wrapper<T>(a: Valid<T>, b: Valid<T>)
    requires
        a@ == b@,
    ensures
        a == b,
{
}

/// A trait which defines what it means for a type to be "valid".
///
/// Because validity is defined by a trait, each type has a single
/// definition of "valid", so newtype wrappers are recommended to give
/// additional meaning to each type: a phone number and a zip code both
/// backed by text should be distinct types with distinct rules.
///
/// An implementation declares three things:
/// - `Context`, auxiliary data the check reads (a store to look something
///   up in, for example), `()` when the check is self-contained;
/// - `Error`, the reasons validation can fail for this type;
/// - `valid_spec` and `error_spec`, the mathematical statement of the
///   rule, and `is_valid`, the executable check, which must return `Ok`
///   exactly on the values `valid_spec` accepts and otherwise exactly the
///   error `error_spec` names.
pub trait Validate: Sized {
    /// Context required for validation, borrowed for the duration of the
    /// check and never stored.
    type Context;

    /// The error returned by validation operations.
    type Error;

    /// What "valid" means for this type under a given context.
    spec fn valid_spec(&self, ctx: Self::Context) -> bool;

    /// Which error an invalid value is reported with under a given
    /// context. Only constrained where `valid_spec` fails.
    spec fn error_spec(&self, ctx: Self::Context) -> Self::Error;

    /// Perform the validation on this object.
    ///
    /// Valid data returns `Ok(())`, and invalid data returns the error
    /// which indicates the reason why validation failed. The check reads
    /// the value and the context and changes neither.
    fn is_valid(&self, ctx: &Self::Context) -> (r: Result<(), Self::Error>)
        ensures
            r is Ok <==> self.valid_spec(*ctx),
            r matches Err(e) ==> e == self.error_spec(*ctx),
    ;

    /// Validate with the given context.
    ///
    /// Consumes the candidate value. On success the value moves unchanged
    /// into a [`Valid`] wrapper; on failure the value is dropped and
    /// exactly the error the predicate reported is returned, so no wrapper
    /// ever exists for a failed attempt.
    fn validate_with(self, ctx: &Self::Context) -> (r: Result<Valid<Self>, Self::Error>)
        ensures
            r is Ok <==> self.valid_spec(*ctx),
            r matches Ok(w) ==> w@ == self,
            r matches Err(e) ==> e == self.error_spec(*ctx),
    {
        match self.is_valid(ctx) {
            Ok(()) => Ok(Valid(self)),
            Err(e) => Err(e),
        }
    }
}

/// The context-free half of the construction protocol, available exactly
/// for the payload types whose declared context is the unit value. It is
/// implemented once, for every such type, so `validate` can never be
/// called on a type whose validation needs real context.
pub trait ValidateDefault: Validate<Context = ()> {
    /// Validate this object, and if successful return a `Valid<Self>`
    /// which acts as a "proof of validity".
    ///
    /// Supplies the unit context and behaves exactly as
    /// [`Validate::validate_with`] called with that context: same success
    /// condition, same wrapper, same error.
    fn validate(self) -> (r: Result<Valid<Self>, Self::Error>)
        ensures
            r is Ok <==> self.valid_spec(()),
            r matches Ok(w) ==> w@ == self,
            r matches Err(e) ==> e == self.error_spec(()),
    {
        self.validate_with(&())
    }
}

impl<T: Validate<Context = ()>> ValidateDefault for T {
}

} // verus!
