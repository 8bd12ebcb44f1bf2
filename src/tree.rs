use vstd::prelude::*;

verus! {

/// A binary operation on payload values, written into a result slot.
pub trait Operator<O> {
    /// The value that `call` writes, as a function of the two operands alone.
    spec fn apply(&self, op1: O, op2: O) -> O;

    fn call(&self, rop: &mut O, op1: &O, op2: &O)
        ensures
            *final(rop) == self.apply(*op1, *op2),
    ;
}

/// A node that can produce a reference to its evaluated payload value.
pub trait Fold<O> {
    /// The value that the node evaluates to.
    spec fn value(&self) -> O;

    fn fold(&mut self) -> (r: &O)
        ensures
            *r == old(self).value(),
            final(self).value() == old(self).value(),
    ;
}

/// A node whose shape is fixed by its type: two children, an operator and the slot that
/// holds the node's result once folded.
pub struct StaticTree<F, A, B, O> where A: Fold<O>, B: Fold<O>, F: Operator<O> {
    pub op1: A,
    pub op2: B,
    pub f: F,
    pub o: O,
}

impl<F, A, B, O> StaticTree<F, A, B, O> where A: Fold<O>, B: Fold<O>, F: Operator<O> {
    /// A node over the two operands; `o` is the slot that `fold` overwrites.
    pub fn new(op1: A, op2: B, f: F, o: O) -> (r: Self)
        ensures
            r == (StaticTree { op1, op2, f, o }),
    {
        StaticTree { op1, op2, f, o }
    }
}

impl<F, A, B, O> Fold<O> for StaticTree<F, A, B, O> where A: Fold<O>, B: Fold<O>, F: Operator<O> {
    open spec fn value(&self) -> O {
        self.f.apply(self.op1.value(), self.op2.value())
    }

    fn fold(&mut self) -> (r: &O) {
        let op1 = self.op1.fold();
        let op2 = self.op2.fold();
        self.f.call(&mut self.o, op1, op2);
        &self.o
    }
}

impl<'a, O> Fold<O> for &'a O {
    open spec fn value(&self) -> O {
        **self
    }

    fn fold(&mut self) -> (r: &O) {
        *self
    }
}

/// A tree whose shape is decided at run time: each node owns its two children on the heap,
/// its operator and its result slot.
pub enum DynamicTree<'a, F, O> {
    Leaf(&'a O),
    Node { op1: Box<DynamicTree<'a, F, O>>, op2: Box<DynamicTree<'a, F, O>>, f: F, o: O },
}

/// The value a run-time shaped tree evaluates to.
pub open spec fn dynamic_value<'a, F: Operator<O>, O>(t: DynamicTree<'a, F, O>) -> O
    decreases t,
{
    match t {
        DynamicTree::Leaf(x) => *x,
        DynamicTree::Node { op1, op2, f, o } => f.apply(dynamic_value(*op1), dynamic_value(*op2)),
    }
}

impl<'a, F: Operator<O>, O> DynamicTree<'a, F, O> {
    /// A node over two subtrees; `o` is the slot that `fold` overwrites.
    pub fn node(op1: DynamicTree<'a, F, O>, op2: DynamicTree<'a, F, O>, f: F, o: O) -> (r: Self)
        ensures
            r == (DynamicTree::Node { op1: Box::new(op1), op2: Box::new(op2), f, o }),
    {
        DynamicTree::Node { op1: Box::new(op1), op2: Box::new(op2), f, o }
    }
}

impl<'a, F: Operator<O>, O> Fold<O> for DynamicTree<'a, F, O> {
    open spec fn value(&self) -> O {
        dynamic_value(*self)
    }

    fn fold(&mut self) -> (r: &O)
        decreases *old(self),
    {
        match self {
            DynamicTree::Leaf(x) => *x,
            DynamicTree::Node { op1, op2, f, o } => {
                let a = op1.fold();
                let b = op2.fold();
                f.call(o, a, b);
                o
            },
        }
    }
}

/// An operation whose result does not depend on how operands are grouped.
pub open spec fn associative<O, F: Operator<O>>(f: F) -> bool {
    forall|x: O, y: O, z: O| #[trigger] f.apply(f.apply(x, y), z) == f.apply(x, f.apply(y, z))
}

/// An operation whose result does not depend on the order of its operands.
pub open spec fn commutative<O, F: Operator<O>>(f: F) -> bool {
    forall|x: O, y: O| #[trigger] f.apply(x, y) == f.apply(y, x)
}

/// Folding the tree of `(a ⊕ b) ⊖ a` gives what the two operations give when applied
/// directly: `⊖(⊕(a, b), a)`. The contents of the result slots play no part.
pub proof fn lemma_fold_is_direct<'a, O, F, G>(a: &'a O, b: &'a O, plus: F, minus: G, o1: O, o2: O)
    where F: Operator<O>, G: Operator<O>
    ensures
        (StaticTree { op1: StaticTree { op1: a, op2: b, f: plus, o: o1 }, op2: a, f: minus, o: o2 }).value()
            == minus.apply(plus.apply(*a, *b), *a),
{
}

/// For an associative operation, `(a + b) + (c + d)` and `a + (b + (c + d))` fold to the same
/// value.
pub proof fn lemma_grouping_independent<'a, O, F>(a: &'a O, b: &'a O, c: &'a O, d: &'a O, f: F, o: O)
    where F: Operator<O>
    requires
        associative(f),
    ensures
        (StaticTree {
            op1: StaticTree { op1: a, op2: b, f, o },
            op2: StaticTree { op1: c, op2: d, f, o },
            f,
            o,
        }).value() == (StaticTree {
            op1: a,
            op2: StaticTree { op1: b, op2: StaticTree { op1: c, op2: d, f, o }, f, o },
            f,
            o,
        }).value(),
{
    let cd = f.apply(*c, *d);
    assert(f.apply(f.apply(*a, *b), cd) == f.apply(*a, f.apply(*b, cd)));
}

/// For an associative and commutative operation, `a + (b + c) + a` and `(a + b) + (c + a)`
/// fold to the same value: leaves and trees mix freely as operands.
pub proof fn lemma_mixed_operands<'a, O, F>(a: &'a O, b: &'a O, c: &'a O, f: F, o: O)
    where F: Operator<O>
    requires
        associative(f),
        commutative(f),
    ensures
        (StaticTree {
            op1: StaticTree { op1: a, op2: StaticTree { op1: b, op2: c, f, o }, f, o },
            op2: a,
            f,
            o,
        }).value() == (StaticTree {
            op1: StaticTree { op1: a, op2: b, f, o },
            op2: StaticTree { op1: c, op2: a, f, o },
            f,
            o,
        }).value(),
{
    let (x, y, z) = (*a, *b, *c);
    assert(f.apply(x, f.apply(y, z)) == f.apply(f.apply(x, y), z));
    assert(f.apply(f.apply(f.apply(x, y), z), x) == f.apply(f.apply(x, y), f.apply(z, x)));
}

} // verus!
