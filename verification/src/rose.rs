//! The candidate tree: a value paired with a lazily produced sequence of
//! smaller candidate trees.
//!
//! A node of the tree exposes its value and can start a cursor over its
//! children; nothing below a node is computed until the cursor is asked.
//! [`GeneratedRose`] is the build combinator: its children are exactly the
//! shrink candidates of its value, each carrying the same shrinker, so the
//! whole (possibly enormous) tree exists only as a recipe. The shrink search
//! walks such a tree, paying only for the nodes it visits.

use vstd::prelude::*;
use crate::dup::{Dup, Share};
use crate::shrink::{Candidates, Shrink};

verus! {

/// An eager, fully materialized candidate tree node.
pub struct Rose<T> {
    pub value: T,
    pub kids: Vec<Rose<T>>,
}

impl<T> Rose<T> {
    /// A node with the given children.
    pub fn new(value: T, kids: Vec<Rose<T>>) -> (r: Rose<T>)
        ensures
            r.value == value,
            r.kids == kids,
    {
        Rose { value, kids }
    }

    /// A leaf: a value with no candidates at all.
    pub fn single(value: T) -> (r: Rose<T>)
        ensures
            r.value == value,
            r.kids@.len() == 0,
    {
        Rose { value, kids: Vec::new() }
    }
}

/// A node of a candidate tree over values of `T`.
pub trait RoseTrait<T: DeepView>: Sized {
    type Kids: KidsCursor<T, Node = Self>;

    /// The view of the node's value.
    spec fn val(&self) -> <T as DeepView>::V;

    /// The node's internal consistency.
    spec fn wf(&self) -> bool;

    /// How far the node's value is from minimal; every child is strictly
    /// closer, which is what makes a walk down the tree terminate.
    spec fn height(&self) -> nat;

    /// How many children the node has.
    spec fn degree(&self) -> nat;

    /// Reads the node's value.
    fn value(&self) -> (r: &T)
        ensures
            r.deep_view() == self.val(),
    ;

    /// Surrenders the node's value.
    fn into_value(self) -> (r: T)
        ensures
            r.deep_view() == self.val(),
    ;

    /// Starts a cursor over the node's children. Nothing below the node is
    /// computed before the cursor is asked.
    fn iterator(&self) -> (it: Self::Kids)
        requires
            self.wf(),
        ensures
            it.wf(),
            it.bound() <= self.height(),
            it.fuel() == self.degree(),
    ;

    /// A child node handed out by a cursor is itself a consistent node.
    proof fn child_wf(n: Self)
        requires
            <Self::Kids as KidsCursor<T>>::node_wf(n),
        ensures
            n.wf(),
    ;

    /// The measure a cursor promises of its children is the child's own
    /// height.
    proof fn child_height(n: Self)
        ensures
            <Self::Kids as KidsCursor<T>>::node_measure(n) == n.height(),
    ;
}

/// A lazy cursor over the children of a candidate tree node.
pub trait KidsCursor<T: DeepView>: Sized {
    type Node;

    /// The cursor's internal consistency.
    spec fn wf(&self) -> bool;

    /// What holds of every child node this cursor hands out.
    spec fn node_wf(n: Self::Node) -> bool;

    /// How many children are still to come.
    spec fn fuel(&self) -> nat;

    /// The measure of a child node, strictly below the cursor's bound.
    spec fn node_measure(n: Self::Node) -> nat;

    /// The strict upper bound on every child's measure.
    spec fn bound(&self) -> nat;

    /// Produces the next child node, or nothing once the children are
    /// exhausted: nothing comes back only when no child remains.
    fn next(&mut self) -> (r: Option<Self::Node>)
        requires
            old(self).wf(),
        ensures
            final(self).wf(),
            final(self).bound() == old(self).bound(),
            r matches Option::Some(n) ==> Self::node_wf(n) && final(self).fuel() + 1 == old(
                self,
            ).fuel() && Self::node_measure(n) < old(self).bound(),
            r is None ==> old(self).fuel() == 0,
    ;
}

/// The build combinator: a tree rooted at `value` whose children are the
/// shrink candidates of `value`, each again built with the same shrinker.
pub struct GeneratedRose<T, S> {
    pub value: T,
    pub shrinker: S,
}

impl<T, S> GeneratedRose<T, S> {
    /// Roots a lazy candidate tree at `value`.
    pub fn new(value: T, shrinker: S) -> (r: GeneratedRose<T, S>)
        ensures
            r.value == value,
            r.shrinker == shrinker,
    {
        GeneratedRose { value, shrinker }
    }
}

/// The cursor over a [`GeneratedRose`] node's children: one child per
/// shrink candidate, produced on demand.
#[verifier::reject_recursive_types(T)]
pub struct GeneratedKids<T, S: Shrink<Item = T>> where T: DeepView {
    pub inner: S::Iter,
    pub shrinker: S,
    pub limit: Ghost<nat>,
}

impl<T: DeepView + Dup, S: Shrink<Item = T> + Share> RoseTrait<T> for GeneratedRose<T, S> {
    type Kids = GeneratedKids<T, S>;

    open spec fn val(&self) -> <T as DeepView>::V {
        self.value.deep_view()
    }

    open spec fn wf(&self) -> bool {
        true
    }

    open spec fn height(&self) -> nat {
        self.shrinker.measure(self.value.deep_view())
    }

    open spec fn degree(&self) -> nat {
        self.shrinker.cands(self.value.deep_view()).len()
    }

    fn value(&self) -> (r: &T)
        ensures
            r.deep_view() == self.val(),
    {
        &self.value
    }

    fn into_value(self) -> (r: T)
        ensures
            r.deep_view() == self.val(),
    {
        self.value
    }

    fn iterator(&self) -> (it: Self::Kids)
        ensures
            it.wf(),
            it.bound() <= self.height(),
            it.fuel() == self.degree(),
            it.shrinker == self.shrinker,
            it.inner.remaining() == self.shrinker.cands(self.val()),
    {
        proof {
            self.shrinker.cands_decrease(self.value.deep_view());
        }
        GeneratedKids {
            inner: self.shrinker.shrink(&self.value),
            shrinker: self.shrinker.share(),
            limit: Ghost(self.shrinker.measure(self.value.deep_view())),
        }
    }

    proof fn child_wf(n: Self) {
    }

    proof fn child_height(n: Self) {
    }
}

impl<T: DeepView + Dup, S: Shrink<Item = T> + Share> KidsCursor<T> for GeneratedKids<T, S> {
    type Node = GeneratedRose<T, S>;

    open spec fn wf(&self) -> bool {
        &&& self.inner.wf()
        &&& forall|i: int|
            0 <= i < self.inner.remaining().len() ==> self.shrinker.measure(
                #[trigger] self.inner.remaining()[i],
            ) < self.limit@
    }

    open spec fn node_wf(n: GeneratedRose<T, S>) -> bool {
        true
    }

    open spec fn fuel(&self) -> nat {
        self.inner.remaining().len()
    }

    open spec fn node_measure(n: GeneratedRose<T, S>) -> nat {
        n.shrinker.measure(n.value.deep_view())
    }

    open spec fn bound(&self) -> nat {
        self.limit@
    }

    fn next(&mut self) -> (r: Option<GeneratedRose<T, S>>)
        ensures
            final(self).wf(),
            final(self).bound() == old(self).bound(),
            r matches Option::Some(n) ==> Self::node_wf(n) && final(self).fuel() + 1 == old(
                self,
            ).fuel() && Self::node_measure(n) < old(self).bound(),
            r is None ==> old(self).fuel() == 0,
            final(self).shrinker == old(self).shrinker,
            match r {
                Option::Some(n) => old(self).inner.remaining().len() > 0 && n.value.deep_view() == old(self).inner.remaining()[0] && final(self).inner.remaining() == old(self).inner.remaining().drop_first() && n.shrinker == old(self).shrinker,
                Option::None => old(self).inner.remaining().len() == 0 && final(self).inner.remaining() == old(self).inner.remaining(),
            },
    {
        match self.inner.next() {
            Option::Some(c) => {
                let n = GeneratedRose { value: c, shrinker: self.shrinker.share() };
                Option::Some(n)
            },
            Option::None => Option::None,
        }
    }
}

/// The build combinator with a threaded state: the same tree as
/// [`GeneratedRose`], except that every node also carries one shared,
/// immutable state value, so a consumer that needs that state at every
/// visited node finds it in the node itself instead of re-allocating it.
pub struct GenerateWithRose<T, St, S> {
    pub value: T,
    pub state: St,
    pub shrinker: S,
}

impl<T, St, S> GenerateWithRose<T, St, S> {
    /// Roots a lazy candidate tree at `value`, threading `state` through
    /// every node.
    pub fn new(value: T, state: St, shrinker: S) -> (r: GenerateWithRose<T, St, S>)
        ensures
            r.value == value,
            r.state == state,
            r.shrinker == shrinker,
    {
        GenerateWithRose { value, state, shrinker }
    }
}

/// The cursor over a [`GenerateWithRose`] node's children.
#[verifier::reject_recursive_types(T)]
pub struct GenerateWithKids<T, St, S: Shrink<Item = T>> where T: DeepView {
    pub inner: S::Iter,
    pub state: St,
    pub shrinker: S,
    pub limit: Ghost<nat>,
}

impl<T: DeepView + Dup, St: Share, S: Shrink<Item = T> + Share> RoseTrait<T> for GenerateWithRose<
    T,
    St,
    S,
> {
    type Kids = GenerateWithKids<T, St, S>;

    open spec fn val(&self) -> <T as DeepView>::V {
        self.value.deep_view()
    }

    open spec fn wf(&self) -> bool {
        true
    }

    open spec fn height(&self) -> nat {
        self.shrinker.measure(self.value.deep_view())
    }

    open spec fn degree(&self) -> nat {
        self.shrinker.cands(self.value.deep_view()).len()
    }

    fn value(&self) -> (r: &T)
        ensures
            r.deep_view() == self.val(),
    {
        &self.value
    }

    fn into_value(self) -> (r: T)
        ensures
            r.deep_view() == self.val(),
    {
        self.value
    }

    fn iterator(&self) -> (it: Self::Kids)
        ensures
            it.wf(),
            it.bound() <= self.height(),
            it.fuel() == self.degree(),
            it.state == self.state,
            it.shrinker == self.shrinker,
            it.inner.remaining() == self.shrinker.cands(self.val()),
    {
        proof {
            self.shrinker.cands_decrease(self.value.deep_view());
        }
        GenerateWithKids {
            inner: self.shrinker.shrink(&self.value),
            state: self.state.share(),
            shrinker: self.shrinker.share(),
            limit: Ghost(self.shrinker.measure(self.value.deep_view())),
        }
    }

    proof fn child_wf(n: Self) {
    }

    proof fn child_height(n: Self) {
    }
}

impl<T: DeepView + Dup, St: Share, S: Shrink<Item = T> + Share> KidsCursor<T> for GenerateWithKids<
    T,
    St,
    S,
> {
    type Node = GenerateWithRose<T, St, S>;

    open spec fn wf(&self) -> bool {
        &&& self.inner.wf()
        &&& forall|i: int|
            0 <= i < self.inner.remaining().len() ==> self.shrinker.measure(
                #[trigger] self.inner.remaining()[i],
            ) < self.limit@
    }

    open spec fn node_wf(n: GenerateWithRose<T, St, S>) -> bool {
        true
    }

    open spec fn fuel(&self) -> nat {
        self.inner.remaining().len()
    }

    open spec fn node_measure(n: GenerateWithRose<T, St, S>) -> nat {
        n.shrinker.measure(n.value.deep_view())
    }

    open spec fn bound(&self) -> nat {
        self.limit@
    }

    fn next(&mut self) -> (r: Option<GenerateWithRose<T, St, S>>)
        ensures
            final(self).wf(),
            final(self).bound() == old(self).bound(),
            r matches Option::Some(n) ==> Self::node_wf(n) && final(self).fuel() + 1 == old(
                self,
            ).fuel() && Self::node_measure(n) < old(self).bound(),
            r is None ==> old(self).fuel() == 0,
            final(self).state == old(self).state,
            final(self).shrinker == old(self).shrinker,
            match r {
                Option::Some(n) => old(self).inner.remaining().len() > 0 && n.value.deep_view() == old(self).inner.remaining()[0] && final(self).inner.remaining() == old(self).inner.remaining().drop_first() && n.state == old(self).state && n.shrinker == old(self).shrinker,
                Option::None => old(self).inner.remaining().len() == 0 && final(self).inner.remaining() == old(self).inner.remaining(),
            },
    {
        match self.inner.next() {
            Option::Some(c) => {
                let n = GenerateWithRose { value: c, state: self.state.share(), shrinker: self.shrinker.share() };
                Option::Some(n)
            },
            Option::None => Option::None,
        }
    }
}


/// How a mapped value relates to the source value it was computed from:
/// it is a possible output of the transform on some value with the source's
/// abstract content.
pub open spec fn map_rel<T: DeepView, R, F: Fn(&T) -> R>(
    f: F,
    tv: <T as DeepView>::V,
    r: R,
) -> bool {
    exists|t: &T| t.deep_view() == tv && #[trigger] call_ensures(f, (t,), r)
}

/// Whether a transform accepts every node value.
pub open spec fn map_callable<T: DeepView, R, F: Fn(&T) -> R>(f: F) -> bool {
    forall|t: &T| #[trigger] call_requires(f, (t,))
}

/// How a scanned value relates to the threaded state and the source value.
pub open spec fn scan_rel<T: DeepView, St, R, F: Fn(&St, &T) -> R>(
    f: F,
    st: St,
    tv: <T as DeepView>::V,
    r: R,
) -> bool {
    exists|s: &St, t: &T| *s == st && t.deep_view() == tv && #[trigger] call_ensures(f, (s, t), r)
}

/// Whether a state-threading transform accepts every state and node value.
pub open spec fn scan_callable<T: DeepView, St, R, F: Fn(&St, &T) -> R>(f: F) -> bool {
    forall|s: &St, t: &T| #[trigger] call_requires(f, (s, t))
}

/// The value-preserving structural transforms of a candidate tree. Both are
/// lazy: they apply the transform to the node at hand and leave every child
/// untouched until a cursor asks for it.
pub trait RoseTraitMap<T: DeepView>: RoseTrait<T> {
    /// A tree of the same shape with the transform applied to every value.
    fn map<R: DeepView, F: Fn(&T) -> R + Copy>(self, f: F) -> (r: MappedRose<T, R, Self, F>)
        requires
            self.wf(),
            map_callable::<T, R, F>(f),
        ensures
            r.node == self,
            r.f == f,
            map_rel(f, self.val(), r.mapped),
    ;

    /// Like `map`, but threads one shared immutable state through every
    /// node without re-allocating it per node.
    fn scan<St: Share, R: DeepView, F: Fn(&St, &T) -> R + Copy>(self, state: St, f: F) -> (r:
        ScanRose<T, St, R, Self, F>)
        requires
            self.wf(),
            scan_callable::<T, St, R, F>(f),
        ensures
            r.node == self,
            r.state == state,
            r.f == f,
            scan_rel(f, state, self.val(), r.mapped),
    ;
}

/// A lazily mapped candidate tree: this node's value is already mapped, the
/// children are mapped the moment they are produced.
pub struct MappedRose<T, R, N, F> {
    pub mapped: R,
    pub node: N,
    pub f: F,
    pub _marker: core::marker::PhantomData<T>,
}

/// The cursor over a mapped node's children.
pub struct MappedKids<T: DeepView, R, N: RoseTrait<T>, F> {
    pub inner: N::Kids,
    pub f: F,
    pub _marker: core::marker::PhantomData<R>,
}

impl<T: DeepView, R: DeepView, N: RoseTrait<T>, F: Fn(&T) -> R + Copy> RoseTrait<R> for MappedRose<
    T,
    R,
    N,
    F,
> {
    type Kids = MappedKids<T, R, N, F>;

    open spec fn val(&self) -> <R as DeepView>::V {
        self.mapped.deep_view()
    }

    open spec fn wf(&self) -> bool {
        self.node.wf() && map_callable::<T, R, F>(self.f)
    }

    open spec fn height(&self) -> nat {
        self.node.height()
    }

    open spec fn degree(&self) -> nat {
        self.node.degree()
    }

    fn value(&self) -> (r: &R)
        ensures
            r.deep_view() == self.val(),
    {
        &self.mapped
    }

    fn into_value(self) -> (r: R)
        ensures
            r.deep_view() == self.val(),
    {
        self.mapped
    }

    fn iterator(&self) -> (it: Self::Kids)
        ensures
            it.wf(),
            it.bound() <= self.height(),
            it.fuel() == self.degree(),
            it.f == self.f,
    {
        MappedKids { inner: self.node.iterator(), f: self.f, _marker: core::marker::PhantomData }
    }

    proof fn child_wf(n: Self) {
        N::child_wf(n.node);
    }

    proof fn child_height(n: Self) {
        N::child_height(n.node);
    }
}

impl<T: DeepView, R: DeepView, N: RoseTrait<T>, F: Fn(&T) -> R + Copy> KidsCursor<R> for MappedKids<
    T,
    R,
    N,
    F,
> {
    type Node = MappedRose<T, R, N, F>;

    open spec fn wf(&self) -> bool {
        self.inner.wf() && map_callable::<T, R, F>(self.f)
    }

    open spec fn node_wf(n: MappedRose<T, R, N, F>) -> bool {
        <N::Kids as KidsCursor<T>>::node_wf(n.node) && map_callable::<T, R, F>(n.f)
    }

    open spec fn fuel(&self) -> nat {
        self.inner.fuel()
    }

    open spec fn node_measure(n: MappedRose<T, R, N, F>) -> nat {
        <N::Kids as KidsCursor<T>>::node_measure(n.node)
    }

    open spec fn bound(&self) -> nat {
        self.inner.bound()
    }

    fn next(&mut self) -> (r: Option<MappedRose<T, R, N, F>>)
        ensures
            final(self).wf(),
            final(self).bound() == old(self).bound(),
            r matches Option::Some(n) ==> Self::node_wf(n) && final(self).fuel() + 1 == old(
                self,
            ).fuel() && Self::node_measure(n) < old(self).bound(),
            r is None ==> old(self).fuel() == 0,
            final(self).f == old(self).f,
            r matches Option::Some(n) ==> n.f == old(self).f && map_rel(
                old(self).f,
                n.node.val(),
                n.mapped,
            ),
    {
        match self.inner.next() {
            Option::Some(child) => {
                let mapped = (self.f)(child.value());
                let n = MappedRose {
                    mapped,
                    node: child,
                    f: self.f,
                    _marker: core::marker::PhantomData,
                };
                Option::Some(n)
            },
            Option::None => Option::None,
        }
    }
}

/// A lazily scanned candidate tree: like a mapped tree, with one shared
/// immutable state handed to the transform at every node.
pub struct ScanRose<T, St, R, N, F> {
    pub mapped: R,
    pub node: N,
    pub state: St,
    pub f: F,
    pub _marker: core::marker::PhantomData<T>,
}

/// The cursor over a scanned node's children.
pub struct ScanKids<T: DeepView, St, R, N: RoseTrait<T>, F> {
    pub inner: N::Kids,
    pub state: St,
    pub f: F,
    pub _marker: core::marker::PhantomData<R>,
}

impl<
    T: DeepView,
    St: Share,
    R: DeepView,
    N: RoseTrait<T>,
    F: Fn(&St, &T) -> R + Copy,
> RoseTrait<R> for ScanRose<T, St, R, N, F> {
    type Kids = ScanKids<T, St, R, N, F>;

    open spec fn val(&self) -> <R as DeepView>::V {
        self.mapped.deep_view()
    }

    open spec fn wf(&self) -> bool {
        self.node.wf() && scan_callable::<T, St, R, F>(self.f)
    }

    open spec fn height(&self) -> nat {
        self.node.height()
    }

    open spec fn degree(&self) -> nat {
        self.node.degree()
    }

    fn value(&self) -> (r: &R)
        ensures
            r.deep_view() == self.val(),
    {
        &self.mapped
    }

    fn into_value(self) -> (r: R)
        ensures
            r.deep_view() == self.val(),
    {
        self.mapped
    }

    fn iterator(&self) -> (it: Self::Kids)
        ensures
            it.wf(),
            it.bound() <= self.height(),
            it.fuel() == self.degree(),
            it.f == self.f,
            it.state == self.state,
    {
        ScanKids {
            inner: self.node.iterator(),
            state: self.state.share(),
            f: self.f,
            _marker: core::marker::PhantomData,
        }
    }

    proof fn child_wf(n: Self) {
        N::child_wf(n.node);
    }

    proof fn child_height(n: Self) {
        N::child_height(n.node);
    }
}

impl<
    T: DeepView,
    St: Share,
    R: DeepView,
    N: RoseTrait<T>,
    F: Fn(&St, &T) -> R + Copy,
> KidsCursor<R> for ScanKids<T, St, R, N, F> {
    type Node = ScanRose<T, St, R, N, F>;

    open spec fn wf(&self) -> bool {
        self.inner.wf() && scan_callable::<T, St, R, F>(self.f)
    }

    open spec fn node_wf(n: ScanRose<T, St, R, N, F>) -> bool {
        <N::Kids as KidsCursor<T>>::node_wf(n.node) && scan_callable::<T, St, R, F>(n.f)
    }

    open spec fn fuel(&self) -> nat {
        self.inner.fuel()
    }

    open spec fn node_measure(n: ScanRose<T, St, R, N, F>) -> nat {
        <N::Kids as KidsCursor<T>>::node_measure(n.node)
    }

    open spec fn bound(&self) -> nat {
        self.inner.bound()
    }

    fn next(&mut self) -> (r: Option<ScanRose<T, St, R, N, F>>)
        ensures
            final(self).wf(),
            final(self).bound() == old(self).bound(),
            r matches Option::Some(n) ==> Self::node_wf(n) && final(self).fuel() + 1 == old(
                self,
            ).fuel() && Self::node_measure(n) < old(self).bound(),
            r is None ==> old(self).fuel() == 0,
            final(self).f == old(self).f,
            final(self).state == old(self).state,
            r matches Option::Some(n) ==> n.f == old(self).f && n.state == old(self).state
                && scan_rel(old(self).f, old(self).state, n.node.val(), n.mapped),
    {
        match self.inner.next() {
            Option::Some(child) => {
                let mapped = (self.f)(&self.state, child.value());
                let n = ScanRose {
                    mapped,
                    node: child,
                    state: self.state.share(),
                    f: self.f,
                    _marker: core::marker::PhantomData,
                };
                Option::Some(n)
            },
            Option::None => Option::None,
        }
    }
}

impl<T: DeepView, N: RoseTrait<T>> RoseTraitMap<T> for N {
    fn map<R: DeepView, F: Fn(&T) -> R + Copy>(self, f: F) -> (r: MappedRose<T, R, Self, F>)
        ensures
            r.node == self,
            r.f == f,
            map_rel(f, self.val(), r.mapped),
    {
        let mapped = f(self.value());
        MappedRose { mapped, node: self, f, _marker: core::marker::PhantomData }
    }

    fn scan<St: Share, R: DeepView, F: Fn(&St, &T) -> R + Copy>(self, state: St, f: F) -> (r:
        ScanRose<T, St, R, Self, F>)
        ensures
            r.node == self,
            r.state == state,
            r.f == f,
            scan_rel(f, state, self.val(), r.mapped),
    {
        let mapped = f(&state, self.value());
        ScanRose { mapped, node: self, state, f, _marker: core::marker::PhantomData }
    }
}

} // verus!
