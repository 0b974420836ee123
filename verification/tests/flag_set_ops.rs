use flag_set::FlagSet;

#[test]
fn it_works() {
    let flag_ap = FlagSet::new(vec![1, 2, 3], true);
    let flag_an = FlagSet::new(vec![1, 2, 3], false);
    let flag_bp = FlagSet::new(vec![2, 3, 4], true);
    let flag_bn = FlagSet::new(vec![2, 3, 4], false);

    // creating an instance
    assert!(flag_bn.equals(&FlagSet::new(vec![2, 3, 4], false)));

    // contains
    assert!(flag_an.contains(4));

    // union
    assert!(FlagSet::new(vec![1, 2, 3, 4], true).equals(&flag_ap.clone().union(flag_bp.clone())));
    assert!(FlagSet::new(vec![4], false).equals(&flag_ap.clone().union(flag_bn.clone())));
    assert!(FlagSet::new(vec![1], false).equals(&flag_an.clone().union(flag_bp.clone())));
    assert!(FlagSet::new(vec![2, 3], false).equals(&flag_an.clone().union(flag_bn.clone())));

    // intersection
    assert!(FlagSet::new(vec![2, 3], true).equals(&flag_ap.clone().intersect(flag_bp.clone())));
    assert!(FlagSet::new(vec![1], true).equals(&flag_ap.clone().intersect(flag_bn.clone())));
    assert!(FlagSet::new(vec![4], true).equals(&flag_an.clone().intersect(flag_bp.clone())));
    assert!(
        FlagSet::new(vec![1, 2, 3, 4], false).equals(&flag_an.clone().intersect(flag_bn.clone()))
    );

    // subtraction
    assert!(FlagSet::new(vec![1], true).equals(&flag_ap.clone().subtract(flag_bp.clone())));
    assert!(FlagSet::new(vec![2, 3], true).equals(&flag_ap.clone().subtract(flag_bn.clone())));
    assert!(
        FlagSet::new(vec![1, 2, 3, 4], false).equals(&flag_an.clone().subtract(flag_bp.clone()))
    );
    assert!(FlagSet::new(vec![4], true).equals(&flag_an.clone().subtract(flag_bn.clone())));

    // complement
    assert!(FlagSet::new(vec![1, 2, 3], true).equals(&flag_an.clone().complement()));

    // symmetric difference
    assert!(
        FlagSet::new(vec![1, 4], true)
            .equals(&flag_ap.clone().symmetric_difference(flag_bp.clone()))
    );
}

#[test]
fn concrete_scenarios() {
    let a_pos = || FlagSet::new(vec![1, 2, 3], true);
    let a_neg = || FlagSet::new(vec![1, 2, 3], false);
    let b_pos = || FlagSet::new(vec![2, 3, 4], true);
    let b_neg = || FlagSet::new(vec![2, 3, 4], false);

    assert!(a_pos().union(b_pos()).equals(&FlagSet::new(vec![1, 2, 3, 4], true)));
    assert!(a_pos().union(b_neg()).equals(&FlagSet::new(vec![4], false)));
    assert!(a_pos().intersect(b_pos()).equals(&FlagSet::new(vec![2, 3], true)));
    assert!(a_neg().intersect(b_neg()).equals(&FlagSet::new(vec![1, 2, 3, 4], false)));
    assert!(a_pos().subtract(b_pos()).equals(&FlagSet::new(vec![1], true)));
    assert!(a_pos().symmetric_difference(b_pos()).equals(&FlagSet::new(vec![1, 4], true)));
    assert!(a_neg().complement().equals(&FlagSet::new(vec![1, 2, 3], true)));
    assert!(a_neg().contains(4));
    assert!(!a_neg().contains(1));
}

#[test]
fn contains_both_signs() {
    let positive = FlagSet::new(vec![10, 20], true);
    assert!(positive.contains(10));
    assert!(positive.contains(20));
    assert!(!positive.contains(30));

    let negative = FlagSet::new(vec![10, 20], false);
    assert!(!negative.contains(10));
    assert!(!negative.contains(20));
    assert!(negative.contains(30));
}

#[test]
fn subtract_is_not_commutative() {
    let a = FlagSet::new(vec![1, 2, 3], true);
    let b = FlagSet::new(vec![2, 3, 4], true);
    let ab = a.clone().subtract(b.clone());
    let ba = b.subtract(a);
    assert!(ab.equals(&FlagSet::new(vec![1], true)));
    assert!(ba.equals(&FlagSet::new(vec![4], true)));
    assert!(!ab.equals(&ba));
}

#[test]
fn equality_is_structural_not_semantic() {
    // (∅, −) denotes "everything", but it is a different structure from any
    // positive encoding and from any other negative one.
    let everything = FlagSet::new(vec![], false);
    let almost = FlagSet::new(vec![1], false);
    assert!(!everything.equals(&almost));
    assert!(everything.equals(&FlagSet::new(vec![], false)));
    // Different signs over the same elements never compare equal.
    assert!(!FlagSet::new(vec![1], true).equals(&FlagSet::new(vec![1], false)));
}

#[test]
fn default_is_empty_positive() {
    let empty: FlagSet<i32> = FlagSet::default();
    assert!(!empty.contains(0));
    assert!(!empty.contains(41));
    assert!(empty.equals(&FlagSet::new(vec![], true)));

    // The complement of the empty set contains everything tested.
    let universe: FlagSet<i32> = FlagSet::default().complement();
    assert!(universe.contains(0));
    assert!(universe.contains(-7));
    assert!(universe.contains(1_000_000));
}

#[test]
fn u64_elements_work() {
    let a = FlagSet::new(vec![1u64, 2, 3], true);
    let b = FlagSet::new(vec![2u64, 3, 4], false);
    let u = a.union(b);
    assert!(u.equals(&FlagSet::new(vec![4u64], false)));
    assert!(u.contains(1));
    assert!(!u.contains(4));
}
