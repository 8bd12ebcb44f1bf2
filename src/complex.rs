use crate::tree::{associative, commutative, Fold, Operator, StaticTree};
use vstd::prelude::*;

verus! {

/// A complex number with integer parts; arithmetic wraps on overflow.
#[derive(Debug, Clone, Copy, PartialEq, Eq, Structural)]
pub struct Complex {
    pub re: i64,
    pub im: i64,
}

impl Complex {
    pub fn new(re: i64, im: i64) -> (r: Complex)
        ensures
            r == (Complex { re, im }),
    {
        Complex { re, im }
    }

    pub fn zero() -> (r: Complex)
        ensures
            r == (Complex { re: 0, im: 0 }),
    {
        Complex { re: 0, im: 0 }
    }
}

impl Default for Complex {
    fn default() -> (r: Complex)
        ensures
            r == (Complex { re: 0, im: 0 }),
    {
        Complex::zero()
    }
}

/// Componentwise sum, wrapping on overflow.
pub open spec fn complex_add(a: Complex, b: Complex) -> Complex {
    Complex { re: a.re.wrapping_add(b.re), im: a.im.wrapping_add(b.im) }
}

/// Componentwise difference, wrapping on overflow.
pub open spec fn complex_sub(a: Complex, b: Complex) -> Complex {
    Complex { re: a.re.wrapping_sub(b.re), im: a.im.wrapping_sub(b.im) }
}

/// Wrapping addition of complex numbers does not depend on grouping.
pub proof fn lemma_complex_add_associative(a: Complex, b: Complex, c: Complex)
    ensures
        complex_add(complex_add(a, b), c) == complex_add(a, complex_add(b, c)),
{
}

/// Wrapping addition of complex numbers does not depend on operand order.
pub proof fn lemma_complex_add_commutative(a: Complex, b: Complex)
    ensures
        complex_add(a, b) == complex_add(b, a),
{
}

/// The addition operator is associative and commutative as an operator of trees.
pub proof fn lemma_complex_add_operator()
    ensures
        associative::<Complex, ComplexAdd>(ComplexAdd()),
        commutative::<Complex, ComplexAdd>(ComplexAdd()),
{
    assert forall|x: Complex, y: Complex, z: Complex|
        #[trigger] ComplexAdd().apply(ComplexAdd().apply(x, y), z)
            == ComplexAdd().apply(x, ComplexAdd().apply(y, z)) by {
        lemma_complex_add_associative(x, y, z);
    }
    assert forall|x: Complex, y: Complex| #[trigger] ComplexAdd().apply(x, y) == ComplexAdd().apply(y, x) by {
        lemma_complex_add_commutative(x, y);
    }
}

/// The addition operator on complex numbers.
pub struct ComplexAdd();

/// The subtraction operator on complex numbers.
pub struct ComplexSub();

impl Operator<Complex> for ComplexAdd {
    open spec fn apply(&self, op1: Complex, op2: Complex) -> Complex {
        complex_add(op1, op2)
    }

    fn call(&self, rop: &mut Complex, op1: &Complex, op2: &Complex) {
        rop.re = op1.re.wrapping_add(op2.re);
        rop.im = op1.im.wrapping_add(op2.im);
    }
}

impl Operator<Complex> for ComplexSub {
    open spec fn apply(&self, op1: Complex, op2: Complex) -> Complex {
        complex_sub(op1, op2)
    }

    fn call(&self, rop: &mut Complex, op1: &Complex, op2: &Complex) {
        rop.re = op1.re.wrapping_sub(op2.re);
        rop.im = op1.im.wrapping_sub(op2.im);
    }
}

/// An operator chosen at run time, for trees whose shape is not fixed by their type.
#[derive(Debug, Clone, Copy, PartialEq, Eq, Structural)]
pub enum ComplexOp {
    Add,
    Sub,
}

impl Operator<Complex> for ComplexOp {
    open spec fn apply(&self, op1: Complex, op2: Complex) -> Complex {
        match self {
            ComplexOp::Add => complex_add(op1, op2),
            ComplexOp::Sub => complex_sub(op1, op2),
        }
    }

    fn call(&self, rop: &mut Complex, op1: &Complex, op2: &Complex) {
        match self {
            ComplexOp::Add => ComplexAdd().call(rop, op1, op2),
            ComplexOp::Sub => ComplexSub().call(rop, op1, op2),
        }
    }
}

/// A reference used as an operator ignores its operands and writes the value it refers to.
impl<'a> Operator<Complex> for &'a Complex {
    open spec fn apply(&self, op1: Complex, op2: Complex) -> Complex {
        **self
    }

    fn call(&self, rop: &mut Complex, op1: &Complex, op2: &Complex) {
        *rop = **self;
    }
}

// Composition rules for `+`: each pairing of a leaf reference or a tree with another
// makes a node whose children are the two operands.

impl<'a> core::ops::Add<&'a Complex> for &'a Complex {
    type Output = StaticTree<ComplexAdd, &'a Complex, &'a Complex, Complex>;

    fn add(self, rhs: &'a Complex) -> Self::Output {
        StaticTree::new(self, rhs, ComplexAdd(), Complex::zero())
    }
}

impl<'a> vstd::std_specs::ops::AddSpecImpl<&'a Complex> for &'a Complex {
    open spec fn obeys_add_spec() -> bool {
        true
    }

    open spec fn add_req(self, rhs: &'a Complex) -> bool {
        true
    }

    open spec fn add_spec(self, rhs: &'a Complex) -> Self::Output {
        StaticTree { op1: self, op2: rhs, f: ComplexAdd(), o: Complex { re: 0, im: 0 } }
    }
}

impl<'a, F, A, B> core::ops::Add<StaticTree<F, A, B, Complex>> for &'a Complex
    where F: Operator<Complex>, A: Fold<Complex>, B: Fold<Complex>
{
    type Output = StaticTree<ComplexAdd, &'a Complex, StaticTree<F, A, B, Complex>, Complex>;

    fn add(self, rhs: StaticTree<F, A, B, Complex>) -> Self::Output {
        StaticTree::new(self, rhs, ComplexAdd(), Complex::zero())
    }
}

impl<'a, F, A, B> vstd::std_specs::ops::AddSpecImpl<StaticTree<F, A, B, Complex>> for &'a Complex
    where F: Operator<Complex>, A: Fold<Complex>, B: Fold<Complex>
{
    open spec fn obeys_add_spec() -> bool {
        true
    }

    open spec fn add_req(self, rhs: StaticTree<F, A, B, Complex>) -> bool {
        true
    }

    open spec fn add_spec(self, rhs: StaticTree<F, A, B, Complex>) -> Self::Output {
        StaticTree { op1: self, op2: rhs, f: ComplexAdd(), o: Complex { re: 0, im: 0 } }
    }
}

impl<'a, F, A, B> core::ops::Add<&'a Complex> for StaticTree<F, A, B, Complex>
    where F: Operator<Complex>, A: Fold<Complex>, B: Fold<Complex>
{
    type Output = StaticTree<ComplexAdd, StaticTree<F, A, B, Complex>, &'a Complex, Complex>;

    fn add(self, rhs: &'a Complex) -> Self::Output {
        StaticTree::new(self, rhs, ComplexAdd(), Complex::zero())
    }
}

impl<'a, F, A, B> vstd::std_specs::ops::AddSpecImpl<&'a Complex> for StaticTree<F, A, B, Complex>
    where F: Operator<Complex>, A: Fold<Complex>, B: Fold<Complex>
{
    open spec fn obeys_add_spec() -> bool {
        true
    }

    open spec fn add_req(self, rhs: &'a Complex) -> bool {
        true
    }

    open spec fn add_spec(self, rhs: &'a Complex) -> Self::Output {
        StaticTree { op1: self, op2: rhs, f: ComplexAdd(), o: Complex { re: 0, im: 0 } }
    }
}

impl<F1, A1, B1, F2, A2, B2> core::ops::Add<StaticTree<F2, A2, B2, Complex>> for StaticTree<F1, A1, B1, Complex>
    where F1: Operator<Complex>, A1: Fold<Complex>, B1: Fold<Complex>, F2: Operator<Complex>, A2: Fold<Complex>, B2: Fold<Complex>
{
    type Output = StaticTree<ComplexAdd, StaticTree<F1, A1, B1, Complex>, StaticTree<F2, A2, B2, Complex>, Complex>;

    fn add(self, rhs: StaticTree<F2, A2, B2, Complex>) -> Self::Output {
        StaticTree::new(self, rhs, ComplexAdd(), Complex::zero())
    }
}

impl<F1, A1, B1, F2, A2, B2> vstd::std_specs::ops::AddSpecImpl<StaticTree<F2, A2, B2, Complex>> for StaticTree<F1, A1, B1, Complex>
    where F1: Operator<Complex>, A1: Fold<Complex>, B1: Fold<Complex>, F2: Operator<Complex>, A2: Fold<Complex>, B2: Fold<Complex>
{
    open spec fn obeys_add_spec() -> bool {
        true
    }

    open spec fn add_req(self, rhs: StaticTree<F2, A2, B2, Complex>) -> bool {
        true
    }

    open spec fn add_spec(self, rhs: StaticTree<F2, A2, B2, Complex>) -> Self::Output {
        StaticTree { op1: self, op2: rhs, f: ComplexAdd(), o: Complex { re: 0, im: 0 } }
    }
}

// Composition rules for `-`: each pairing of a leaf reference or a tree with another
// makes a node whose children are the two operands.

impl<'a> core::ops::Sub<&'a Complex> for &'a Complex {
    type Output = StaticTree<ComplexSub, &'a Complex, &'a Complex, Complex>;

    fn sub(self, rhs: &'a Complex) -> Self::Output {
        StaticTree::new(self, rhs, ComplexSub(), Complex::zero())
    }
}

impl<'a> vstd::std_specs::ops::SubSpecImpl<&'a Complex> for &'a Complex {
    open spec fn obeys_sub_spec() -> bool {
        true
    }

    open spec fn sub_req(self, rhs: &'a Complex) -> bool {
        true
    }

    open spec fn sub_spec(self, rhs: &'a Complex) -> Self::Output {
        StaticTree { op1: self, op2: rhs, f: ComplexSub(), o: Complex { re: 0, im: 0 } }
    }
}

impl<'a, F, A, B> core::ops::Sub<StaticTree<F, A, B, Complex>> for &'a Complex
    where F: Operator<Complex>, A: Fold<Complex>, B: Fold<Complex>
{
    type Output = StaticTree<ComplexSub, &'a Complex, StaticTree<F, A, B, Complex>, Complex>;

    fn sub(self, rhs: StaticTree<F, A, B, Complex>) -> Self::Output {
        StaticTree::new(self, rhs, ComplexSub(), Complex::zero())
    }
}

impl<'a, F, A, B> vstd::std_specs::ops::SubSpecImpl<StaticTree<F, A, B, Complex>> for &'a Complex
    where F: Operator<Complex>, A: Fold<Complex>, B: Fold<Complex>
{
    open spec fn obeys_sub_spec() -> bool {
        true
    }

    open spec fn sub_req(self, rhs: StaticTree<F, A, B, Complex>) -> bool {
        true
    }

    open spec fn sub_spec(self, rhs: StaticTree<F, A, B, Complex>) -> Self::Output {
        StaticTree { op1: self, op2: rhs, f: ComplexSub(), o: Complex { re: 0, im: 0 } }
    }
}

impl<'a, F, A, B> core::ops::Sub<&'a Complex> for StaticTree<F, A, B, Complex>
    where F: Operator<Complex>, A: Fold<Complex>, B: Fold<Complex>
{
    type Output = StaticTree<ComplexSub, StaticTree<F, A, B, Complex>, &'a Complex, Complex>;

    fn sub(self, rhs: &'a Complex) -> Self::Output {
        StaticTree::new(self, rhs, ComplexSub(), Complex::zero())
    }
}

impl<'a, F, A, B> vstd::std_specs::ops::SubSpecImpl<&'a Complex> for StaticTree<F, A, B, Complex>
    where F: Operator<Complex>, A: Fold<Complex>, B: Fold<Complex>
{
    open spec fn obeys_sub_spec() -> bool {
        true
    }

    open spec fn sub_req(self, rhs: &'a Complex) -> bool {
        true
    }

    open spec fn sub_spec(self, rhs: &'a Complex) -> Self::Output {
        StaticTree { op1: self, op2: rhs, f: ComplexSub(), o: Complex { re: 0, im: 0 } }
    }
}

impl<F1, A1, B1, F2, A2, B2> core::ops::Sub<StaticTree<F2, A2, B2, Complex>> for StaticTree<F1, A1, B1, Complex>
    where F1: Operator<Complex>, A1: Fold<Complex>, B1: Fold<Complex>, F2: Operator<Complex>, A2: Fold<Complex>, B2: Fold<Complex>
{
    type Output = StaticTree<ComplexSub, StaticTree<F1, A1, B1, Complex>, StaticTree<F2, A2, B2, Complex>, Complex>;

    fn sub(self, rhs: StaticTree<F2, A2, B2, Complex>) -> Self::Output {
        StaticTree::new(self, rhs, ComplexSub(), Complex::zero())
    }
}

impl<F1, A1, B1, F2, A2, B2> vstd::std_specs::ops::SubSpecImpl<StaticTree<F2, A2, B2, Complex>> for StaticTree<F1, A1, B1, Complex>
    where F1: Operator<Complex>, A1: Fold<Complex>, B1: Fold<Complex>, F2: Operator<Complex>, A2: Fold<Complex>, B2: Fold<Complex>
{
    open spec fn obeys_sub_spec() -> bool {
        true
    }

    open spec fn sub_req(self, rhs: StaticTree<F2, A2, B2, Complex>) -> bool {
        true
    }

    open spec fn sub_spec(self, rhs: StaticTree<F2, A2, B2, Complex>) -> Self::Output {
        StaticTree { op1: self, op2: rhs, f: ComplexSub(), o: Complex { re: 0, im: 0 } }
    }
}
} // verus!
