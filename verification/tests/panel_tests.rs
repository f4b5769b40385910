use panelmux::panel::{Panel, PanelType, PANEL_CAPACITY};

fn lines_of(panel: &Panel) -> Vec<String> {
    (0..panel.line_count()).map(|i| panel.line(i).clone()).collect()
}

#[test]
fn new_panel_is_an_empty_inactive_note() {
    let panel = Panel::new(7, "notes".to_string());
    assert_eq!(panel.id(), 7);
    assert_eq!(panel.title(), "notes");
    assert_eq!(panel.line_count(), 0);
    assert!(!panel.is_active());
    assert_eq!(panel.cursor_line(), 0);
    assert_eq!(panel.scroll_offset(), 0);
    assert_eq!(panel.panel_type(), PanelType::Manual);
}

#[test]
fn new_binary_panel_is_an_empty_inactive_host() {
    let panel = Panel::new_binary(0, "host".to_string());
    assert_eq!(panel.id(), 0);
    assert_eq!(panel.title(), "host");
    assert_eq!(panel.line_count(), 0);
    assert!(!panel.is_active());
    assert_eq!(panel.panel_type(), PanelType::BinaryProcess);
}

#[test]
fn add_line_appends_in_order() {
    let mut panel = Panel::new(1, "t".to_string());
    panel.add_line("first".to_string());
    panel.add_line("second".to_string());
    assert_eq!(lines_of(&panel), vec!["first".to_string(), "second".to_string()]);
}

#[test]
fn capacity_is_one_thousand() {
    assert_eq!(PANEL_CAPACITY, 1000);
}

#[test]
fn exactly_capacity_lines_are_all_kept() {
    let mut panel = Panel::new(1, "t".to_string());
    for i in 0..1000 {
        panel.add_line(format!("line {}", i));
    }
    assert_eq!(panel.line_count(), 1000);
    assert_eq!(panel.line(0), "line 0");
    assert_eq!(panel.line(999), "line 999");
}

#[test]
fn one_line_past_capacity_evicts_the_oldest() {
    let mut panel = Panel::new(1, "t".to_string());
    for i in 0..1001 {
        panel.add_line(format!("line {}", i));
    }
    assert_eq!(panel.line_count(), 1000);
    let lines = lines_of(&panel);
    assert!(!lines.contains(&"line 0".to_string()));
    assert!(lines.contains(&"line 1000".to_string()));
    assert_eq!(panel.line(0), "line 1");
    assert_eq!(panel.line(999), "line 1000");
    for i in 0..1000 {
        assert_eq!(panel.line(i), &format!("line {}", i + 1));
    }
}

#[test]
fn many_lines_keep_the_newest_thousand() {
    let mut panel = Panel::new(1, "t".to_string());
    for i in 0..2500 {
        panel.add_line(format!("{}", i));
    }
    assert_eq!(panel.line_count(), 1000);
    assert_eq!(panel.line(0), "1500");
    assert_eq!(panel.line(999), "2499");
}

#[test]
fn add_line_leaves_the_rest_alone() {
    let mut panel = Panel::new_binary(4, "host".to_string());
    panel.set_active(true);
    panel.set_scroll_offset(3);
    panel.add_line("x".to_string());
    assert_eq!(panel.id(), 4);
    assert_eq!(panel.title(), "host");
    assert!(panel.is_active());
    assert_eq!(panel.scroll_offset(), 3);
    assert_eq!(panel.cursor_line(), 0);
    assert_eq!(panel.panel_type(), PanelType::BinaryProcess);
}

#[test]
fn clone_keeps_the_log() {
    let mut panel = Panel::new(2, "t".to_string());
    panel.add_line("a".to_string());
    let copy = panel.clone();
    assert_eq!(lines_of(&copy), vec!["a".to_string()]);
    assert_eq!(copy.id(), 2);
}
