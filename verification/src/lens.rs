//! Composable projections: pure, total get/set accessor pairs that extract
//! or replace a sub-part of a larger container, so components can be built
//! against narrow types and mounted into any larger structure.

use vstd::prelude::*;

verus! {

/// A projection (a lens): a pure, total accessor pair over a container type
/// `Root` and a sub-part type `Part`. Every implementation carries proofs of
/// the two lens laws, so anything mounted through a projection can rely on
/// reads and writes composing coherently.
pub trait Projection: Sized {
    /// The container the projection works on.
    type Root;

    /// The sub-part it extracts and replaces.
    type Part;

    /// Well-formedness of this particular projection value.
    spec fn wf(&self) -> bool;

    /// The extracted sub-part, as a mathematical function of the container.
    spec fn pget(&self, a: Self::Root) -> Self::Part;

    /// The container after replacing the sub-part.
    spec fn pput(&self, a: Self::Root, b: Self::Part) -> Self::Root;

    /// Retrieval law: writing a sub-part and then reading returns exactly
    /// the written value.
    proof fn law_put_get(&self, a: Self::Root, b: Self::Part)
        requires
            self.wf(),
        ensures
            self.pget(self.pput(a, b)) == b,
    ;

    /// Identity law: writing back an unchanged sub-part leaves the
    /// container unchanged.
    proof fn law_get_put(&self, a: Self::Root)
        requires
            self.wf(),
        ensures
            self.pput(a, self.pget(a)) == a,
    ;

    /// Replace the projected sub-part of `a` with `b`.
    fn set(&self, a: &mut Self::Root, b: Self::Part)
        requires
            self.wf(),
        ensures
            *final(a) == self.pput(*old(a), b),
    ;
}

/// A projection whose sub-part lives inside the container as one place, so
/// it can be handed out by reference, shared or mutable, without cloning.
pub trait ReadProjection: Projection {
    /// Borrow the projected sub-part of `a`.
    fn read<'a>(&self, a: &'a Self::Root) -> (r: &'a Self::Part)
        requires
            self.wf(),
        ensures
            *r == self.pget(*a),
    ;

    /// Borrow the projected sub-part of `a` mutably; writes through the
    /// returned reference land in the container exactly as `pput` says.
    fn read_mut<'a>(&self, a: &'a mut Self::Root) -> (r: &'a mut Self::Part)
        requires
            self.wf(),
        ensures
            *r == self.pget(*old(a)),
            *final(a) == self.pput(*old(a), *final(r)),
    ;
}

/// Chained composition: first project into the middle type, then into the
/// final part, yielding one projection from the outer container.
pub struct Chain<P, Q> {
    pub first: P,
    pub second: Q,
}

impl<P: ReadProjection, Q: Projection<Root = P::Part>> Projection for Chain<P, Q> {
    type Root = P::Root;

    type Part = Q::Part;

    open spec fn wf(&self) -> bool {
        self.first.wf() && self.second.wf()
    }

    open spec fn pget(&self, a: P::Root) -> Q::Part {
        self.second.pget(self.first.pget(a))
    }

    open spec fn pput(&self, a: P::Root, b: Q::Part) -> P::Root {
        self.first.pput(a, self.second.pput(self.first.pget(a), b))
    }

    proof fn law_put_get(&self, a: P::Root, b: Q::Part) {
        self.first.law_put_get(a, self.second.pput(self.first.pget(a), b));
        self.second.law_put_get(self.first.pget(a), b);
    }

    proof fn law_get_put(&self, a: P::Root) {
        self.second.law_get_put(self.first.pget(a));
        self.first.law_get_put(a);
    }

    fn set(&self, a: &mut P::Root, b: Q::Part) {
        let mid = self.first.read_mut(a);
        self.second.set(mid, b);
    }
}

impl<P: ReadProjection, Q: ReadProjection<Root = P::Part>> ReadProjection for Chain<P, Q> where
    P::Part: 'static,
 {
    fn read<'a>(&self, a: &'a P::Root) -> (r: &'a Q::Part) {
        self.second.read(self.first.read(a))
    }

    fn read_mut<'a>(&self, a: &'a mut P::Root) -> (r: &'a mut Q::Part) {
        self.second.read_mut(self.first.read_mut(a))
    }
}

/// Two projections out of the same root are independent when writing
/// through either one does not disturb what the other reads. Pairing is
/// lawful only for independent projections.
pub open spec fn independent<P: Projection, Q: Projection<Root = P::Root>>(p: P, q: Q) -> bool {
    &&& forall|a: P::Root, b: P::Part| #[trigger] q.pget(p.pput(a, b)) == q.pget(a)
    &&& forall|a: P::Root, c: Q::Part| #[trigger] p.pget(q.pput(a, c)) == p.pget(a)
}

/// Pairing: combine two independent projections from the same root into a
/// single projection yielding a pair of sub-parts.
pub struct PairOf<P, Q> {
    pub left: P,
    pub right: Q,
}

impl<P: Projection, Q: Projection<Root = P::Root>> Projection for PairOf<P, Q> {
    type Root = P::Root;

    type Part = (P::Part, Q::Part);

    open spec fn wf(&self) -> bool {
        self.left.wf() && self.right.wf() && independent(self.left, self.right)
    }

    open spec fn pget(&self, a: P::Root) -> (P::Part, Q::Part) {
        (self.left.pget(a), self.right.pget(a))
    }

    open spec fn pput(&self, a: P::Root, b: (P::Part, Q::Part)) -> P::Root {
        self.right.pput(self.left.pput(a, b.0), b.1)
    }

    proof fn law_put_get(&self, a: P::Root, b: (P::Part, Q::Part)) {
        self.left.law_put_get(a, b.0);
        self.right.law_put_get(self.left.pput(a, b.0), b.1);
    }

    proof fn law_get_put(&self, a: P::Root) {
        self.left.law_get_put(a);
        self.right.law_get_put(a);
    }

    fn set(&self, a: &mut P::Root, b: (P::Part, Q::Part)) {
        self.left.set(a, b.0);
        self.right.set(a, b.1);
    }
}

impl<P: ReadProjection, Q: ReadProjection<Root = P::Root>> PairOf<P, Q> {
    /// Borrow both sub-parts of the pair at once, without cloning.
    pub fn read_parts<'a>(&self, a: &'a P::Root) -> (r: (&'a P::Part, &'a Q::Part))
        requires
            self.left.wf(),
            self.right.wf(),
        ensures
            *r.0 == self.left.pget(*a),
            *r.1 == self.right.pget(*a),
    {
        (self.left.read(a), self.right.read(a))
    }
}

/// Composition law: a chained projection built from two lawful (total,
/// well-formed) projections is itself lawful — writing then reading returns
/// the written value, and reading then writing back leaves the root
/// unchanged.
pub proof fn lemma_chain_lawful<P: ReadProjection, Q: Projection<Root = P::Part>>(
    c: Chain<P, Q>,
    a: P::Root,
    b: Q::Part,
)
    requires
        c.wf(),
    ensures
        c.pget(c.pput(a, b)) == b,
        c.pput(a, c.pget(a)) == a,
{
    c.law_put_get(a, b);
    c.law_get_put(a);
}

} // verus!
