//! The invoke-with-bundle capability.
//!
//! A [`Call`] takes one argument bundle — a tuple holding however many
//! arguments the underlying function wants — and yields its output. It is
//! the adapter boundary between ordinary functions of varying arity and the
//! engine, which works against the bundle abstraction alone. [`IntoCall`]
//! turns a plain function or closure into such a capability by wrapping it
//! in a [`MyCall`], one adapter per arity.

use vstd::prelude::*;
use core::marker::PhantomData;
use std::rc::Rc;
use crate::dup::share_rc;

verus! {

/// A capability invokable with one argument bundle.
pub trait Call {
    type Input;

    type Output;

    /// When the capability may be invoked on a bundle.
    spec fn pre(&self, i: Self::Input) -> bool;

    /// What holds of an invocation's outcome.
    spec fn post(&self, i: Self::Input, o: Self::Output) -> bool;

    /// Invokes the capability on one bundle.
    fn call(&self, input: Self::Input) -> (r: Self::Output)
        requires
            self.pre(input),
        ensures
            self.post(input, r),
    ;
}

/// A function or closure wrapped as a [`Call`] over the bundle type `A`.
/// The function is held behind a shared-ownership handle, so the same
/// predicate can sit in every node of a lazy tree without being cloned.
pub struct MyCall<F, A> {
    pub f: Rc<F>,
    pub _marker: PhantomData<A>,
}

impl<F, A> crate::dup::Share for MyCall<F, A> {
    fn share(&self) -> (r: Self)
        ensures
            r == *self,
    {
        MyCall { f: share_rc(&self.f), _marker: PhantomData }
    }
}

/// Whatever can be adapted into a [`Call`] over the bundle type `Args`.
pub trait IntoCall<Args>: Sized {
    type Call: Call<Input = Args>;

    /// Wraps the value as a capability over argument bundles.
    fn into_call(self) -> Self::Call;
}

impl<T, F: Fn() -> T> Call for MyCall<F, ()> {
    type Input = ();

    type Output = T;

    open spec fn pre(&self, i: ()) -> bool {
        call_requires(*self.f, ())
    }

    open spec fn post(&self, i: (), o: T) -> bool {
        call_ensures(*self.f, (), o)
    }

    fn call(&self, input: ()) -> (r: T)
        ensures
            self.post(input, r),
    {
        (&*self.f)()
    }
}

impl<T, A, F: Fn(A) -> T> Call for MyCall<F, (A,)> {
    type Input = (A,);

    type Output = T;

    open spec fn pre(&self, i: (A,)) -> bool {
        call_requires(*self.f, i)
    }

    open spec fn post(&self, i: (A,), o: T) -> bool {
        call_ensures(*self.f, i, o)
    }

    fn call(&self, input: (A,)) -> (r: T)
        ensures
            self.post(input, r),
    {
        (&*self.f)(input.0)
    }
}

impl<T, A, B, F: Fn(A, B) -> T> Call for MyCall<F, (A, B)> {
    type Input = (A, B);

    type Output = T;

    open spec fn pre(&self, i: (A, B)) -> bool {
        call_requires(*self.f, i)
    }

    open spec fn post(&self, i: (A, B), o: T) -> bool {
        call_ensures(*self.f, i, o)
    }

    fn call(&self, input: (A, B)) -> (r: T)
        ensures
            self.post(input, r),
    {
        (&*self.f)(input.0, input.1)
    }
}

impl<T, A, B, C, F: Fn(A, B, C) -> T> Call for MyCall<F, (A, B, C)> {
    type Input = (A, B, C);

    type Output = T;

    open spec fn pre(&self, i: (A, B, C)) -> bool {
        call_requires(*self.f, i)
    }

    open spec fn post(&self, i: (A, B, C), o: T) -> bool {
        call_ensures(*self.f, i, o)
    }

    fn call(&self, input: (A, B, C)) -> (r: T)
        ensures
            self.post(input, r),
    {
        (&*self.f)(input.0, input.1, input.2)
    }
}

impl<T, F: Fn() -> T> IntoCall<()> for F {
    type Call = MyCall<F, ()>;

    fn into_call(self) -> Self::Call {
        MyCall { f: Rc::new(self), _marker: PhantomData }
    }
}

impl<T, A, F: Fn(A) -> T> IntoCall<(A,)> for F {
    type Call = MyCall<F, (A,)>;

    fn into_call(self) -> Self::Call {
        MyCall { f: Rc::new(self), _marker: PhantomData }
    }
}

impl<T, A, B, F: Fn(A, B) -> T> IntoCall<(A, B)> for F {
    type Call = MyCall<F, (A, B)>;

    fn into_call(self) -> Self::Call {
        MyCall { f: Rc::new(self), _marker: PhantomData }
    }
}

impl<T, A, B, C, F: Fn(A, B, C) -> T> IntoCall<(A, B, C)> for F {
    type Call = MyCall<F, (A, B, C)>;

    fn into_call(self) -> Self::Call {
        MyCall { f: Rc::new(self), _marker: PhantomData }
    }
}

} // verus!
