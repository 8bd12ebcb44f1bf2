use crate::complex::Complex;
use crate::tree::Operator;
use object_pool::Pool;
use vstd::prelude::*;

verus! {

#[verifier::external_type_specification]
#[verifier::external_body]
#[verifier::reject_recursive_types(T)]
pub struct ExPool<T>(Pool<T>);

/// The free objects of a pool, in the order of its stack: the last is handed out first.
pub uninterp spec fn pool_slots(p: Pool<Complex>) -> Seq<Complex>;

/// Relies on `Pool::new`, which fills the pool with `cap` results of `init`.
#[verifier::external_body]
fn new_slot_pool(cap: usize) -> (r: Pool<Complex>)
    ensures
        pool_slots(r) == Seq::new(cap as nat, |i: int| Complex { re: 0, im: 0 }),
{
    Pool::new(cap, Complex::zero)
}

/// Relies on `Pool::try_pull`, which pops the last free object or gives `None` when there is
/// none, and on `Reusable::detach`, which hands the object out without returning it.
#[verifier::external_body]
fn take_slot(pool: &mut Pool<Complex>) -> (r: Option<Complex>)
    ensures
        pool_slots(*old(pool)).len() == 0 ==> r is None,
        pool_slots(*old(pool)).len() == 0 ==> pool_slots(*final(pool)) == pool_slots(*old(pool)),
        pool_slots(*old(pool)).len() > 0 ==> r == Some(pool_slots(*old(pool)).last()),
        pool_slots(*old(pool)).len() > 0 ==> pool_slots(*final(pool)) == pool_slots(
            *old(pool),
        ).drop_last(),
{
    match pool.try_pull() {
        Some(slot) => Some(slot.detach().1),
        None => None,
    }
}

/// Relies on `Pool::attach`, which pushes the object onto the free stack.
#[verifier::external_body]
fn return_slot(pool: &mut Pool<Complex>, slot: Complex)
    ensures
        pool_slots(*final(pool)) == pool_slots(*old(pool)).push(slot),
{
    pool.attach(slot)
}

/// A pool of `capacity` zeroed slots for pooled evaluation.
pub fn slot_pool(capacity: usize) -> (r: Pool<Complex>)
    ensures
        pool_slots(r) == Seq::new(capacity as nat, |i: int| Complex { re: 0, im: 0 }),
{
    new_slot_pool(capacity)
}

/// Evaluation needed a slot while the pool had none free.
#[derive(Debug, Clone, Copy, PartialEq, Eq, Structural)]
pub struct PoolExhausted;

/// A tree whose interior results live in slots borrowed from a pool during evaluation,
/// not in the nodes.
pub enum PooledTree<'a, F> {
    Leaf(&'a Complex),
    Node(Box<PooledTree<'a, F>>, Box<PooledTree<'a, F>>, F),
}

/// The larger of two integers.
pub open spec fn max(a: int, b: int) -> int {
    if a >= b { a } else { b }
}

impl<'a, F: Operator<Complex>> PooledTree<'a, F> {
    /// A node over two subtrees.
    pub fn node(op1: PooledTree<'a, F>, op2: PooledTree<'a, F>, f: F) -> (r: Self)
        ensures
            r == PooledTree::Node(Box::new(op1), Box::new(op2), f),
    {
        PooledTree::Node(Box::new(op1), Box::new(op2), f)
    }

    /// The value the tree evaluates to.
    pub open spec fn value(self) -> Complex
        decreases self,
    {
        match self {
            PooledTree::Leaf(x) => *x,
            PooledTree::Node(l, r, f) => f.apply(l.value(), r.value()),
        }
    }

    /// The number of levels: one for a leaf.
    pub open spec fn height(self) -> nat
        decreases self,
    {
        match self {
            PooledTree::Leaf(_) => 1,
            PooledTree::Node(l, r, _) => 1 + max(l.height() as int, r.height() as int) as nat,
        }
    }

    /// How many slots a node holds for a child's result: a leaf is read in place.
    pub open spec fn held(self) -> nat {
        if self is Node { 1 } else { 0 }
    }

    /// The most slots checked out at once while the tree is evaluated: the left child is
    /// evaluated first, then the right one while the left result is held, then the node's own
    /// result is taken while both are held.
    pub open spec fn slots_needed(self) -> nat
        decreases self,
    {
        match self {
            PooledTree::Leaf(_) => 0,
            PooledTree::Node(l, r, _) => max(
                l.slots_needed() as int,
                max((l.held() + r.slots_needed()) as int, (l.held() + r.held() + 1) as int),
            ) as nat,
        }
    }

    /// Evaluates a node into a slot taken from the pool and hands that slot out; every other
    /// slot taken is returned, also on failure.
    fn eval_node(&self, pool: &mut Pool<Complex>) -> (r: Result<Complex, PoolExhausted>)
        requires
            self is Node,
        ensures
            r is Ok <==> pool_slots(*old(pool)).len() >= self.slots_needed(),
            r is Ok ==> r->Ok_0 == self.value(),
            r is Ok ==> pool_slots(*final(pool)).len() == pool_slots(*old(pool)).len() - 1,
            r is Err ==> r->Err_0 == PoolExhausted,
            r is Err ==> pool_slots(*final(pool)).len() == pool_slots(*old(pool)).len(),
        decreases *self,
    {
        match self {
            PooledTree::Leaf(_) => Err(PoolExhausted),
            PooledTree::Node(l, r, f) => {
                let ghost need = self.slots_needed();
                assert(need >= l.slots_needed() && need >= l.held() + r.slots_needed() && need
                    >= l.held() + r.held() + 1);
                assert(need == l.slots_needed() || need == l.held() + r.slots_needed() || need
                    == l.held() + r.held() + 1);
                let a: Complex = match &**l {
                    PooledTree::Leaf(x) => **x,
                    PooledTree::Node(..) => match l.eval_node(pool) {
                        Ok(v) => v,
                        Err(e) => return Err(e),
                    },
                };
                let b: Complex = match &**r {
                    PooledTree::Leaf(x) => **x,
                    PooledTree::Node(..) => match r.eval_node(pool) {
                        Ok(v) => v,
                        Err(e) => {
                            if l.is_node() {
                                return_slot(pool, a);
                            }
                            return Err(e);
                        },
                    },
                };
                let mut out = match take_slot(pool) {
                    Some(s) => s,
                    None => {
                        if l.is_node() {
                            return_slot(pool, a);
                        }
                        if r.is_node() {
                            return_slot(pool, b);
                        }
                        return Err(PoolExhausted);
                    },
                };
                f.call(&mut out, &a, &b);
                assert(a == l.value());
                assert(b == r.value());
                assert(out == self.value());
                if l.is_node() {
                    return_slot(pool, a);
                }
                if r.is_node() {
                    return_slot(pool, b);
                }
                Ok(out)
            },
        }
    }

    /// Whether the tree is an interior node.
    pub fn is_node(&self) -> (r: bool)
        ensures
            r == (*self is Node),
    {
        match self {
            PooledTree::Leaf(_) => false,
            PooledTree::Node(..) => true,
        }
    }

    /// Evaluates the tree with interior results in slots borrowed from `pool`. It succeeds
    /// exactly when the pool has as many free slots as the tree needs at once, and it leaves
    /// the pool with as many free slots as it found, whether it succeeds or not.
    pub fn fold_pooled(&self, pool: &mut Pool<Complex>) -> (r: Result<Complex, PoolExhausted>)
        ensures
            r is Ok <==> pool_slots(*old(pool)).len() >= self.slots_needed(),
            r is Ok ==> r->Ok_0 == self.value(),
            r is Err ==> r->Err_0 == PoolExhausted,
            pool_slots(*final(pool)).len() == pool_slots(*old(pool)).len(),
    {
        match self {
            PooledTree::Leaf(x) => Ok(**x),
            PooledTree::Node(..) => match self.eval_node(pool) {
                Ok(slot) => {
                    let v = slot;
                    return_slot(pool, slot);
                    Ok(v)
                },
                Err(e) => Err(e),
            },
        }
    }
}

/// A pool with at least as many free slots as the tree has levels is always large enough:
/// at most one slot per level is checked out at once.
pub proof fn lemma_height_bounds_slots<'a, F: Operator<Complex>>(t: PooledTree<'a, F>)
    ensures
        t.slots_needed() <= t.height(),
    decreases t,
{
    if let PooledTree::Node(l, r, _) = t {
        lemma_height_bounds_slots(*l);
        lemma_height_bounds_slots(*r);
        if let PooledTree::Node(ll, lr, _) = *l {
            assert(l.height() == 1 + max(ll.height() as int, lr.height() as int));
        }
        if let PooledTree::Node(rl, rr, _) = *r {
            assert(r.height() == 1 + max(rl.height() as int, rr.height() as int));
        }
    }
}

} // verus!
