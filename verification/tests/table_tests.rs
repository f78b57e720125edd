use text_analysis_tool::app::TextAnalysisTool;
use text_analysis_tool::filter::FilterTable;
use text_analysis_tool::filter::NUM_MANUAL_ROWS;
use text_analysis_tool::log::LogTable;

#[test]
fn filter_forward_pass_yields_ascending_physical_indices() {
    let mut t = FilterTable::default();
    let pass = t.render();
    assert!(pass.scroll.is_none());
    assert_eq!(pass.rows.len(), NUM_MANUAL_ROWS);
    for (logical, row) in pass.rows.iter().enumerate() {
        assert_eq!(row.physical, logical);
        assert!(!row.selected);
        assert_eq!(row.thick, logical % 6 == 0);
    }
    let thick: Vec<usize> = pass.rows.iter().filter(|r| r.thick).map(|r| r.physical).collect();
    assert_eq!(thick, vec![0, 6, 12, 18]);
}

#[test]
fn filter_reversed_pass_keeps_selection_on_physical_row() {
    let mut t = FilterTable::default();
    t.toggle_row_selection(5, true);
    t.toggle_direction(true);
    let pass = t.render();
    assert_eq!(pass.rows.len(), 20);
    for (logical, row) in pass.rows.iter().enumerate() {
        assert_eq!(row.physical, 19 - logical);
        assert_eq!(row.selected, row.physical == 5);
    }
}

#[test]
fn filter_doubled_click_signal_cancels_out() {
    let mut t = FilterTable::default();
    t.toggle_row_selection(9, true);
    t.toggle_row_selection(9, true);
    let pass = t.render();
    assert!(pass.rows.iter().all(|r| !r.selected));
}

#[test]
fn unclicked_rows_change_nothing() {
    let mut t = FilterTable::default();
    t.toggle_row_selection(9, false);
    let pass = t.render();
    assert!(pass.rows.iter().all(|r| !r.selected));
}

#[test]
fn direction_toggle_without_activation_keeps_order() {
    let mut t = FilterTable::default();
    t.toggle_direction(false);
    let pass = t.render();
    assert_eq!(pass.rows[0].physical, 0);
}

#[test]
fn log_scroll_target_is_consumed_once() {
    let mut t = LogTable::default();
    t.jump_to_logical(7, 20);
    let pass = t.render(20);
    assert_eq!(pass.scroll, Some(7));
    let pass2 = t.render(20);
    assert_eq!(pass2.scroll, None);
}

#[test]
fn log_scroll_target_last_write_wins() {
    let mut t = LogTable::default();
    t.jump_to_logical(3, 20);
    t.jump_to_logical(11, 20);
    let pass = t.render(20);
    assert_eq!(pass.scroll, Some(11));
}

#[test]
fn log_jump_maps_through_row_order_policy_when_reversed() {
    let mut t = LogTable::default();
    t.toggle_direction(true);
    t.jump_to_logical(0, 20);
    let pass = t.render(20);
    assert_eq!(pass.scroll, Some(19));
}

#[test]
fn log_pass_covers_logical_one_to_total() {
    let mut t = LogTable::default();
    let pass = t.render(20);
    assert_eq!(pass.rows.len(), 19);
    for (i, row) in pass.rows.iter().enumerate() {
        assert_eq!(row.physical, 1 + i);
    }
    t.toggle_direction(true);
    let pass = t.render(20);
    assert_eq!(pass.rows.len(), 19);
    for (i, row) in pass.rows.iter().enumerate() {
        assert_eq!(row.physical, 19 - (1 + i));
    }
}

#[test]
fn singleton_backing_source_yields_zero_rows() {
    let mut t = LogTable::default();
    let pass = t.render(1);
    assert_eq!(pass.rows.len(), 0);
    let pass = t.render(0);
    assert_eq!(pass.rows.len(), 0);
}

#[test]
fn log_selection_survives_reversal() {
    let mut t = LogTable::default();
    t.toggle_row_selection(5, true);
    t.toggle_direction(true);
    let pass = t.render(20);
    let selected: Vec<usize> =
        pass.rows.iter().filter(|r| r.selected).map(|r| r.physical).collect();
    assert_eq!(selected, vec![5]);
}

#[test]
fn tool_starts_with_fresh_tables() {
    let tool = TextAnalysisTool::default();
    assert!(!tool.log_table.reversed);
    assert!(!tool.filter_table.reversed);
    assert!(tool.log_table.scroll_to_row.is_none());
    assert!(tool.filter_table.scroll_to_row.is_none());
    assert!(tool.log_table.striped && tool.log_table.resizable && tool.log_table.clickable);
    assert!(!tool.filter_table.checked);
}

#[test]
fn filter_checkbox_state_is_recorded() {
    let mut t = FilterTable::default();
    t.set_checked(true);
    assert!(t.checked);
    t.set_checked(false);
    assert!(!t.checked);
}
