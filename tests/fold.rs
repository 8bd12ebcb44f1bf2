use lazy_fold::complex::{Complex, ComplexAdd, ComplexOp, ComplexSub};
use lazy_fold::pooled::{slot_pool, PoolExhausted, PooledTree};
use lazy_fold::tree::{DynamicTree, Fold, Operator, StaticTree};

fn c(re: i64, im: i64) -> Complex {
    Complex { re, im }
}

#[test]
fn test() {
    let a = c(1, 1);
    let b = c(2, 3);
    let pool = slot_pool(10);
    assert_eq!(pool.len(), 10);

    let mut t = &a + &b + (&a + &a) + &a;
    assert_eq!(t.fold(), &c(6, 7));

    let mut t = &a + &b - (&a + &a) + &a;
    assert_eq!(t.fold(), &c(2, 3));

    let mut t = &a + &b + &a - &a + &a;
    assert_eq!(t.fold(), &c(4, 5));
}

#[test]
fn fold_matches_direct_computation() {
    let a = c(5, -2);
    let b = c(7, 11);
    let mut t = (&a + &b) - &a;
    let mut direct = c(0, 0);
    let mut sum = c(0, 0);
    ComplexAdd().call(&mut sum, &a, &b);
    ComplexSub().call(&mut direct, &sum, &a);
    assert_eq!(t.fold(), &direct);
    assert_eq!(direct, c(7, 11));
}

#[test]
fn grouping_does_not_change_sum() {
    let (a, b, cc, d) = (c(1, 2), c(3, 4), c(5, 6), c(7, 8));
    let mut left = (&a + &b) + (&cc + &d);
    let mut right = &a + (&b + (&cc + &d));
    assert_eq!(left.fold(), &c(16, 20));
    assert_eq!(right.fold(), &c(16, 20));
}

#[test]
fn fold_twice_gives_same_result() {
    let a = c(3, -1);
    let b = c(-4, 9);
    let mut t = &a - &b + (&a + &b);
    let first = *t.fold();
    let second = *t.fold();
    assert_eq!(first, second);
    assert_eq!(first, c(6, -2));
}

#[test]
fn mixed_leaf_and_tree_operands() {
    let (a, b, cc) = (c(1, 10), c(2, 20), c(3, 30));
    let mut one = &a + (&b + &cc) + &a;
    let mut two = (&a + &b) + (&cc + &a);
    assert_eq!(one.fold(), &c(7, 70));
    assert_eq!(two.fold(), &c(7, 70));
}

#[test]
fn leaf_folds_to_itself() {
    let a = c(9, -9);
    let mut leaf = &a;
    assert_eq!(leaf.fold(), &c(9, -9));
}

#[test]
fn addition_wraps_on_overflow() {
    let a = c(i64::MAX, i64::MIN);
    let b = c(1, -1);
    let mut t = &a + &b;
    assert_eq!(t.fold(), &c(i64::MIN, i64::MAX));
}

#[test]
fn reference_operator_writes_its_value() {
    let k = c(42, 43);
    let mut out = c(0, 0);
    (&k).call(&mut out, &c(1, 1), &c(2, 2));
    assert_eq!(out, c(42, 43));
}

#[test]
fn static_tree_new_overwrites_slot_on_fold() {
    let a = c(1, 2);
    let b = c(3, 4);
    let mut t = StaticTree::new(&a, &b, ComplexSub(), c(100, 100));
    assert_eq!(t.fold(), &c(-2, -2));
    assert_eq!(t.o, c(-2, -2));
}

#[test]
fn dynamic_tree_folds() {
    let a = c(1, 1);
    let b = c(2, 3);
    let ab = DynamicTree::node(DynamicTree::Leaf(&a), DynamicTree::Leaf(&b), ComplexOp::Add, c(0, 0));
    let aa = DynamicTree::node(DynamicTree::Leaf(&a), DynamicTree::Leaf(&a), ComplexOp::Add, c(0, 0));
    let diff = DynamicTree::node(ab, aa, ComplexOp::Sub, c(0, 0));
    let mut t = DynamicTree::node(diff, DynamicTree::Leaf(&a), ComplexOp::Add, c(0, 0));
    assert_eq!(t.fold(), &c(2, 3));
    assert_eq!(t.fold(), &c(2, 3));
}

fn balanced<'a>(leaves: &'a [Complex; 4]) -> PooledTree<'a, ComplexOp> {
    let l = PooledTree::node(PooledTree::Leaf(&leaves[0]), PooledTree::Leaf(&leaves[1]), ComplexOp::Add);
    let r = PooledTree::node(PooledTree::Leaf(&leaves[2]), PooledTree::Leaf(&leaves[3]), ComplexOp::Sub);
    PooledTree::node(l, r, ComplexOp::Add)
}

#[test]
fn pooled_fold_succeeds_with_pool_of_tree_height() {
    let leaves = [c(1, 2), c(3, 4), c(10, 20), c(5, 6)];
    let t = balanced(&leaves);
    let mut pool = slot_pool(3);
    assert_eq!(t.fold_pooled(&mut pool), Ok(c(9, 20)));
    assert_eq!(pool.len(), 3);
}

#[test]
fn pooled_fold_fails_when_pool_too_small() {
    let leaves = [c(1, 2), c(3, 4), c(10, 20), c(5, 6)];
    let t = balanced(&leaves);
    let mut pool = slot_pool(2);
    assert_eq!(t.fold_pooled(&mut pool), Err(PoolExhausted));
    assert_eq!(pool.len(), 2);
    let mut empty = slot_pool(0);
    assert_eq!(t.fold_pooled(&mut empty), Err(PoolExhausted));
    assert_eq!(empty.len(), 0);
}

#[test]
fn pooled_fold_of_leaf_needs_no_slot() {
    let a = c(-7, 8);
    let t: PooledTree<ComplexOp> = PooledTree::Leaf(&a);
    let mut pool = slot_pool(0);
    assert_eq!(t.fold_pooled(&mut pool), Ok(c(-7, 8)));
}

#[test]
fn pooled_fold_of_deep_chain() {
    let a = c(1, 1);
    let mut t = PooledTree::node(PooledTree::Leaf(&a), PooledTree::Leaf(&a), ComplexOp::Add);
    for _ in 0..4 {
        t = PooledTree::node(t, PooledTree::Leaf(&a), ComplexOp::Add);
    }
    let mut small = slot_pool(1);
    assert_eq!(t.fold_pooled(&mut small), Err(PoolExhausted));
    let mut pool = slot_pool(2);
    assert_eq!(t.fold_pooled(&mut pool), Ok(c(6, 6)));
    assert_eq!(pool.len(), 2);
}
