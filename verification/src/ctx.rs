//! The context wrapper: pairs a piece of shared, read-mostly context with an
//! owned data value, so leaf consumers see both without the caller threading
//! the full surrounding state. Projections here build and transform wrapped
//! values inside a larger state tree.

use vstd::prelude::*;
use core::marker::PhantomData;
use crate::lens::Projection;
use crate::lens::ReadProjection;
use crate::lens::independent;

verus! {

/// Shared context `C` (read-only from the leaf's perspective) paired with an
/// owned data value `T`.
#[derive(Debug, Clone, PartialEq, Eq)]
pub struct Ctx<C, T> {
    pub ctx: C,
    pub data: T,
}

impl<C, T> Ctx<C, T> {
    /// Wrap a data value with its context.
    pub fn new(ctx: C, data: T) -> (r: Self)
        ensures
            r == (Ctx { ctx, data }),
    {
        Ctx { ctx, data }
    }
}

/// The pairing projection that builds a context wrapper from surrounding
/// state: one component projection yields the shared context, the other the
/// data value. Lawful only when the two components are independent.
pub struct CtxMake<P, Q> {
    pub ctx_part: P,
    pub data_part: Q,
}

impl<P: Projection, Q: Projection<Root = P::Root>> Projection for CtxMake<P, Q> {
    type Root = P::Root;

    type Part = Ctx<P::Part, Q::Part>;

    open spec fn wf(&self) -> bool {
        self.ctx_part.wf() && self.data_part.wf() && independent(self.ctx_part, self.data_part)
    }

    open spec fn pget(&self, a: P::Root) -> Ctx<P::Part, Q::Part> {
        Ctx { ctx: self.ctx_part.pget(a), data: self.data_part.pget(a) }
    }

    open spec fn pput(&self, a: P::Root, b: Ctx<P::Part, Q::Part>) -> P::Root {
        self.data_part.pput(self.ctx_part.pput(a, b.ctx), b.data)
    }

    proof fn law_put_get(&self, a: P::Root, b: Ctx<P::Part, Q::Part>) {
        self.ctx_part.law_put_get(a, b.ctx);
        self.data_part.law_put_get(self.ctx_part.pput(a, b.ctx), b.data);
    }

    proof fn law_get_put(&self, a: P::Root) {
        self.ctx_part.law_get_put(a);
        self.data_part.law_get_put(a);
    }

    fn set(&self, a: &mut P::Root, b: Ctx<P::Part, Q::Part>) {
        self.ctx_part.set(a, b.ctx);
        self.data_part.set(a, b.data);
    }
}

impl<P: ReadProjection, Q: ReadProjection<Root = P::Root>> CtxMake<P, Q> {
    /// Borrow the context and the data value at once, without cloning.
    pub fn read_parts<'a>(&self, a: &'a P::Root) -> (r: Ctx<&'a P::Part, &'a Q::Part>)
        requires
            self.ctx_part.wf(),
            self.data_part.wf(),
        ensures
            *r.ctx == self.ctx_part.pget(*a),
            *r.data == self.data_part.pget(*a),
    {
        Ctx { ctx: self.ctx_part.read(a), data: self.data_part.read(a) }
    }
}

/// Lift a projection on the data value to a projection on the whole wrapper,
/// keeping the context alongside: leaf lists are built against the narrow
/// data type and still see the shared context.
pub struct CtxMap<C, L> {
    pub inner: L,
    pub marker: PhantomData<C>,
}

impl<C, L: Projection> Projection for CtxMap<C, L> {
    type Root = Ctx<C, L::Root>;

    type Part = Ctx<C, L::Part>;

    open spec fn wf(&self) -> bool {
        self.inner.wf()
    }

    open spec fn pget(&self, a: Ctx<C, L::Root>) -> Ctx<C, L::Part> {
        Ctx { ctx: a.ctx, data: self.inner.pget(a.data) }
    }

    open spec fn pput(&self, a: Ctx<C, L::Root>, b: Ctx<C, L::Part>) -> Ctx<C, L::Root> {
        Ctx { ctx: b.ctx, data: self.inner.pput(a.data, b.data) }
    }

    proof fn law_put_get(&self, a: Ctx<C, L::Root>, b: Ctx<C, L::Part>) {
        self.inner.law_put_get(a.data, b.data);
    }

    proof fn law_get_put(&self, a: Ctx<C, L::Root>) {
        self.inner.law_get_put(a.data);
    }

    fn set(&self, a: &mut Ctx<C, L::Root>, b: Ctx<C, L::Part>) {
        a.ctx = b.ctx;
        self.inner.set(&mut a.data, b.data);
    }
}

/// The plain field projection from a context wrapper to its data value.
pub struct CtxData<C, T> {
    pub marker: PhantomData<(C, T)>,
}

impl<C, T> Projection for CtxData<C, T> {
    type Root = Ctx<C, T>;

    type Part = T;

    open spec fn wf(&self) -> bool {
        true
    }

    open spec fn pget(&self, a: Ctx<C, T>) -> T {
        a.data
    }

    open spec fn pput(&self, a: Ctx<C, T>, b: T) -> Ctx<C, T> {
        Ctx { ctx: a.ctx, data: b }
    }

    proof fn law_put_get(&self, a: Ctx<C, T>, b: T) {
    }

    proof fn law_get_put(&self, a: Ctx<C, T>) {
    }

    fn set(&self, a: &mut Ctx<C, T>, b: T) {
        a.data = b;
    }
}

impl<C, T> ReadProjection for CtxData<C, T> {
    fn read<'a>(&self, a: &'a Ctx<C, T>) -> (r: &'a T) {
        &a.data
    }

    fn read_mut<'a>(&self, a: &'a mut Ctx<C, T>) -> (r: &'a mut T) {
        &mut a.data
    }
}

} // verus!
