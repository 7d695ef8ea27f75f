//! An optional value that never exposes its validity through timing or
//! control flow.
//!
//! The payload is always materialized, even when the validity flag is
//! false: absence is purely the flag's semantic overlay.  Combinators
//! compute the result's validity as a bitwise conjunction of the operands'
//! validities, never as a branch on them.

use vstd::prelude::*;

use crate::Choice;

verus! {

/// A value paired with a [`Choice`] marking its validity.
#[derive(Clone, Copy, Debug)]
pub struct CtOption<T> {
    value: T,
    is_some: Choice,
}

impl<T> CtOption<T> {
    /// The payload, whatever the validity flag says.
    pub closed spec fn value_spec(&self) -> T {
        self.value
    }

    /// The validity flag.
    pub closed spec fn is_some_spec(&self) -> Choice {
        self.is_some
    }

    /// Pair a value with a validity flag.
    #[inline]
    pub fn new(value: T, is_some: Choice) -> (r: Self)
        ensures
            r.value_spec() == value,
            r.is_some_spec() == is_some,
    {
        Self { value, is_some }
    }

    /// A present value.
    #[inline]
    pub fn some(value: T) -> (r: Self)
        ensures
            r.value_spec() == value,
            r.is_some_spec()@ == 1,
    {
        Self::new(value, Choice::true_value())
    }

    /// An absent value; a default payload is still materialized.
    pub fn none() -> (r: Self)
        where
            T: Default,
        ensures
            r.is_some_spec()@ == 0,
    {
        Self::new(Default::default(), Choice::false_value())
    }

    /// The payload, regardless of validity.
    #[inline]
    pub fn to_value(self) -> (r: T)
        where
            T: Copy,
        ensures
            r == self.value_spec(),
    {
        self.value
    }

    /// A reference to the payload, regardless of validity.
    #[inline]
    pub fn to_ref(&self) -> (r: &T)
        ensures
            *r == self.value_spec(),
    {
        &self.value
    }

    /// Collapse to a host optional value.  The branch on the variant is
    /// the sanctioned place where the validity's secrecy ends.
    #[inline]
    pub fn into_option(self) -> (r: Option<T>)
        ensures
            r == (if self.is_some_spec()@ != 0 {
                Some(self.value_spec())
            } else {
                None::<T>
            }),
    {
        if self.is_some.to_bool() {
            Some(self.value)
        } else {
            None
        }
    }

    /// Collapse to a host optional value without an optimization barrier.
    #[inline]
    pub fn into_option_copied(self) -> (r: Option<T>)
        where
            T: Copy,
        ensures
            r == (if self.is_some_spec()@ != 0 {
                Some(self.value_spec())
            } else {
                None::<T>
            }),
    {
        if self.is_some.vt_to_bool() {
            Some(self.value)
        } else {
            None
        }
    }

    /// The validity flag.
    #[must_use]
    #[inline]
    pub fn is_some(&self) -> (r: Choice)
        ensures
            r == self.is_some_spec(),
    {
        self.is_some
    }

    /// The negated validity flag.
    #[must_use]
    #[inline]
    pub fn is_none(&self) -> (r: Choice)
        ensures
            r@ == self.is_some_spec()@ ^ 1,
    {
        self.is_some.not()
    }

    /// Keep `opt_b`'s payload, gating its validity by `self`'s.
    #[inline]
    pub fn and<U>(self, opt_b: CtOption<U>) -> (r: CtOption<U>)
        ensures
            r.value_spec() == opt_b.value_spec(),
            r.is_some_spec()@ == (opt_b.is_some_spec()@ & self.is_some_spec()@),
    {
        let mut opt_b = opt_b;
        opt_b.is_some = opt_b.is_some.and(self.is_some);
        opt_b
    }

    /// Feed the payload to `f` and gate the produced option's validity by
    /// `self`'s; `f` runs whatever the validity says.
    #[inline]
    pub fn and_then<U, F>(self, f: F) -> (r: CtOption<U>)
        where
            F: FnOnce(T) -> CtOption<U>,
        requires
            call_requires(f, (self.value_spec(),)),
        ensures
            exists|m: CtOption<U>|
                {
                    &&& #[trigger] call_ensures(f, (self.value_spec(),), m)
                    &&& r.value_spec() == m.value_spec()
                    &&& r.is_some_spec()@ == (m.is_some_spec()@ & self.is_some_spec()@)
                },
    {
        let mut opt = f(self.value);
        opt.is_some = opt.is_some.and(self.is_some);
        opt
    }

    /// Gate the validity by a predicate on the payload; the predicate runs
    /// whatever the validity says.
    #[inline]
    pub fn filter<P>(self, predicate: P) -> (r: Self)
        where
            P: FnOnce(&T) -> Choice,
        requires
            call_requires(predicate, (&self.value_spec(),)),
        ensures
            r.value_spec() == self.value_spec(),
            exists|c: Choice|
                {
                    &&& #[trigger] call_ensures(predicate, (&self.value_spec(),), c)
                    &&& r.is_some_spec()@ == (self.is_some_spec()@ & c@)
                },
    {
        let c = predicate(&self.value);
        let mut opt = self;
        opt.is_some = opt.is_some.and(c);
        opt
    }

    /// Gate the validity by an externally supplied flag.
    #[inline]
    pub fn filter_by(self, is_some: Choice) -> (r: Self)
        ensures
            r.value_spec() == self.value_spec(),
            r.is_some_spec()@ == (self.is_some_spec()@ & is_some@),
    {
        let mut opt = self;
        opt.is_some = opt.is_some.and(is_some);
        opt
    }

    /// Transform the payload, keeping the validity unchanged; `f` runs
    /// whatever the validity says.
    #[inline]
    pub fn map<U, F>(self, f: F) -> (r: CtOption<U>)
        where
            F: FnOnce(T) -> U,
        requires
            call_requires(f, (self.value_spec(),)),
        ensures
            r.is_some_spec() == self.is_some_spec(),
            call_ensures(f, (self.value_spec(),), r.value_spec()),
    {
        CtOption::new(f(self.value), self.is_some)
    }

    /// Pair two payloads; the result is valid when both operands are.
    #[inline]
    pub fn zip<U>(self, rhs: CtOption<U>) -> (r: CtOption<(T, U)>)
        ensures
            r.value_spec() == (self.value_spec(), rhs.value_spec()),
            r.is_some_spec()@ == (self.is_some_spec()@ & rhs.is_some_spec()@),
    {
        CtOption { value: (self.value, rhs.value), is_some: self.is_some.and(rhs.is_some) }
    }

    /// Combine two payloads with `f`; the result is valid when both
    /// operands are.  `f` runs whatever the validities say.
    #[inline]
    pub fn zip_with<U, F, R>(self, rhs: CtOption<U>, f: F) -> (r: CtOption<R>)
        where
            F: FnOnce(T, U) -> R,
        requires
            call_requires(f, (self.value_spec(), rhs.value_spec())),
        ensures
            r.is_some_spec()@ == (self.is_some_spec()@ & rhs.is_some_spec()@),
            call_ensures(f, (self.value_spec(), rhs.value_spec()), r.value_spec()),
    {
        let pair = self.zip(rhs);
        let is_some = pair.is_some;
        let (a, b) = pair.value;
        CtOption::new(f(a, b), is_some)
    }

    /// The payload of a valid option.  Validity is demanded up front, so
    /// this is the one deliberately non-constant-time extraction.
    #[inline]
    pub fn expect(self, msg: &str) -> (r: T)
        requires
            self.is_some_spec()@ != 0,
        ensures
            r == self.value_spec(),
    {
        let _ = msg;
        self.value
    }

    /// A reference to the payload of a valid option.
    #[inline]
    pub fn expect_ref(&self, msg: &str) -> (r: &T)
        requires
            self.is_some_spec()@ != 0,
        ensures
            *r == self.value_spec(),
    {
        let _ = msg;
        self.to_ref()
    }

    /// A copy of the payload of a valid option.
    #[inline]
    pub fn expect_copied(self, msg: &str) -> (r: T)
        where
            T: Copy,
        requires
            self.is_some_spec()@ != 0,
        ensures
            r == self.value_spec(),
    {
        *self.expect_ref(msg)
    }

    /// Collapse to a host result, supplying `err` for an absent value.
    #[inline]
    pub fn ok_or<E>(self, err: E) -> (r: Result<T, E>)
        ensures
            r == (if self.is_some_spec()@ != 0 {
                Ok::<T, E>(self.value_spec())
            } else {
                Err::<T, E>(err)
            }),
    {
        self.into_option().ok_or(err)
    }

    /// Collapse to a host result, building the error eagerly; `err` runs
    /// whatever the validity says.
    #[inline]
    pub fn ok_or_else<E, F>(self, err: F) -> (r: Result<T, E>)
        where
            F: FnOnce() -> E,
        requires
            call_requires(err, ()),
        ensures
            exists|e: E|
                {
                    &&& #[trigger] call_ensures(err, (), e)
                    &&& r == (if self.is_some_spec()@ != 0 {
                        Ok::<T, E>(self.value_spec())
                    } else {
                        Err::<T, E>(e)
                    })
                },
    {
        self.ok_or(err())
    }

    /// Convert into the `subtle` equivalent, bit for bit.
    pub fn into_subtle(self) -> (r: subtle::CtOption<T>)
        requires
            self.is_some_spec()@ == 0 || self.is_some_spec()@ == 1,
    {
        let is_some = self.is_some.into_subtle();
        crate::adapter::subtle_ct_option_new(self.value, is_some)
    }

    /// Mutably borrow the payload without collapsing the validity.
    #[inline]
    pub fn as_mut(&mut self) -> (r: CtOption<&mut T>)
        ensures
            r.is_some_spec() == old(self).is_some_spec(),
            *r.value_spec() == old(self).value_spec(),
            final(self).value_spec() == *final(r.value_spec()),
            final(self).is_some_spec() == old(self).is_some_spec(),
    {
        CtOption { value: &mut self.value, is_some: self.is_some }
    }

    /// Borrow the payload without collapsing the validity.
    #[inline]
    pub fn as_ref(&self) -> (r: CtOption<&T>)
        ensures
            *r.value_spec() == self.value_spec(),
            r.is_some_spec() == self.is_some_spec(),
    {
        CtOption { value: &self.value, is_some: self.is_some }
    }
}

impl<T: Default> Default for CtOption<T> {
    /// The absent value.
    fn default() -> (r: Self)
        ensures
            r.is_some_spec()@ == 0,
    {
        Self::none()
    }
}

} // verus!
