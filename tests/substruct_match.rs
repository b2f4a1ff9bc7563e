use rdkit::{SubstructMatchParameters, DEFAULT_MAX_MATCHES};

fn found(n: usize) -> Vec<Vec<(u32, u32)>> {
    (0..n).map(|i| vec![(0, i as u32)]).collect()
}

#[test]
fn default_parameters() {
    let p = SubstructMatchParameters::default();
    assert!(!p.get_use_chirality());
    assert!(!p.get_use_enhanced_stereo());
    assert!(!p.get_aromatic_matches_conjugated());
    assert!(!p.get_use_query_query_matches());
    assert!(!p.get_use_generic_matchers());
    assert!(p.get_recursion_possible());
    assert!(p.get_uniquify());
    assert_eq!(DEFAULT_MAX_MATCHES, 1000);
}

#[test]
fn new_equals_default() {
    let a = SubstructMatchParameters::new();
    let b = SubstructMatchParameters::default();
    assert_eq!(a.get_use_chirality(), b.get_use_chirality());
    assert_eq!(a.get_use_enhanced_stereo(), b.get_use_enhanced_stereo());
    assert_eq!(a.get_aromatic_matches_conjugated(), b.get_aromatic_matches_conjugated());
    assert_eq!(a.get_use_query_query_matches(), b.get_use_query_query_matches());
    assert_eq!(a.get_use_generic_matchers(), b.get_use_generic_matchers());
    assert_eq!(a.get_recursion_possible(), b.get_recursion_possible());
    assert_eq!(a.get_uniquify(), b.get_uniquify());
}

#[test]
fn each_setter_changes_its_own_knob() {
    let p = SubstructMatchParameters::new().use_chirality(true);
    assert!(p.get_use_chirality());
    assert!(!p.get_use_enhanced_stereo());
    assert!(p.get_uniquify());

    let p = SubstructMatchParameters::new().use_enhanced_stereo(true);
    assert!(p.get_use_enhanced_stereo());
    assert!(!p.get_use_chirality());

    let p = SubstructMatchParameters::new().aromatic_matches_conjugated(true);
    assert!(p.get_aromatic_matches_conjugated());
    assert!(!p.get_use_query_query_matches());

    let p = SubstructMatchParameters::new().use_query_query_matches(true);
    assert!(p.get_use_query_query_matches());
    assert!(!p.get_use_generic_matchers());

    let p = SubstructMatchParameters::new().use_generic_matchers(true);
    assert!(p.get_use_generic_matchers());
    assert!(p.get_recursion_possible());

    let p = SubstructMatchParameters::new().recursion_possible(false);
    assert!(!p.get_recursion_possible());
    assert!(p.get_uniquify());

    let p = SubstructMatchParameters::new().uniquify(false);
    assert!(!p.get_uniquify());
    assert!(p.get_recursion_possible());
}

#[test]
fn setters_chain() {
    let p = SubstructMatchParameters::new()
        .use_chirality(true)
        .uniquify(false)
        .use_generic_matchers(true)
        .max_matches(3)
        .use_chirality(false);
    assert!(!p.get_use_chirality());
    assert!(!p.get_uniquify());
    assert!(p.get_use_generic_matchers());
    assert!(p.get_recursion_possible());
    assert_eq!(p.limit_matches(found(10)).len(), 3);
}

#[test]
fn default_cap_keeps_a_short_list() {
    let p = SubstructMatchParameters::new();
    assert_eq!(p.limit_matches(found(3)), found(3));
    assert_eq!(p.limit_matches(found(1000)).len(), 1000);
    assert_eq!(p.limit_matches(found(1001)).len(), 1000);
}

#[test]
fn cap_keeps_the_first_matches_in_order() {
    let p = SubstructMatchParameters::new().max_matches(2);
    let kept = p.limit_matches(found(5));
    assert_eq!(kept, vec![vec![(0, 0)], vec![(0, 1)]]);
}

#[test]
fn cap_of_zero_returns_nothing() {
    let p = SubstructMatchParameters::new().max_matches(0);
    assert!(p.limit_matches(found(4)).is_empty());
}

#[test]
fn no_matches_stay_no_matches() {
    let p = SubstructMatchParameters::new();
    assert!(p.limit_matches(found(0)).is_empty());
}

#[test]
fn stereo_checks_keep_the_order_of_match_counts() {
    let base = SubstructMatchParameters::new().max_matches(2);
    let with_stereo = SubstructMatchParameters::new().max_matches(2).use_chirality(true);
    let without_stereo = base.use_chirality(false);
    for (n_with, n_without) in [(0, 0), (0, 1), (1, 1), (1, 3), (3, 5), (2, 2)] {
        let a: usize = with_stereo.limit_matches(found(n_with)).len();
        let b: usize = without_stereo.limit_matches(found(n_without)).len();
        assert!(a <= b);
    }
}
