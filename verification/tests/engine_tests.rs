use text_analysis_tool::engine::SelectionSet;
use text_analysis_tool::engine::physical_index;

#[test]
fn physical_index_forward_is_identity() {
    for i in 0..20 {
        assert_eq!(physical_index(i, false, 20), i);
    }
}

#[test]
fn physical_index_reversed_mirrors() {
    assert_eq!(physical_index(0, true, 20), 19);
    assert_eq!(physical_index(7, true, 20), 12);
    assert_eq!(physical_index(19, true, 20), 0);
    assert_eq!(physical_index(0, true, 1), 0);
}

#[test]
fn order_inverse_on_concrete_range() {
    for i in 0..20 {
        assert_eq!(physical_index(i, false, 20), 19 - physical_index(i, true, 20));
    }
}

#[test]
fn toggle_inverts_membership() {
    let mut s = SelectionSet::new();
    assert!(!s.contains(3));
    s.toggle(3);
    assert!(s.contains(3));
    s.toggle(3);
    assert!(!s.contains(3));
}

#[test]
fn toggle_twice_restores_prior_state() {
    let mut s = SelectionSet::new();
    s.toggle(11);
    assert!(s.contains(11));
    s.toggle(4);
    s.toggle(4);
    assert!(s.contains(11));
    assert!(!s.contains(4));
}

#[test]
fn toggle_leaves_other_indices_alone() {
    let mut s = SelectionSet::new();
    s.toggle(5);
    s.toggle(6);
    assert!(s.contains(5));
    assert!(s.contains(6));
    s.toggle(5);
    assert!(!s.contains(5));
    assert!(s.contains(6));
}

#[test]
fn thick_rows_are_multiples_of_six() {
    for p in 0..40 {
        assert_eq!(text_analysis_tool::log::thick_row(p), p % 6 == 0);
        assert_eq!(text_analysis_tool::filter::thick_row(p), p % 6 == 0);
    }
    assert!(text_analysis_tool::log::thick_row(0));
    assert!(text_analysis_tool::log::thick_row(6));
    assert!(!text_analysis_tool::log::thick_row(7));
}
