use fonts_compare::panel::Panel;

fn panel_for(selected: &str, exact: &str, regular: &str) -> Panel {
    Panel {
        selected: selected.to_string(),
        exact_font: exact.to_string(),
        regular: regular.to_string(),
        ..Default::default()
    }
}

#[test]
fn default_panel_has_nothing_selected() {
    let p = Panel::default();
    assert_eq!(p.name, "box");
    assert_eq!(p.selected, "Default");
    assert_eq!(p.exact_font, "");
    assert_eq!(p.regular, "");
    assert_eq!(p.num_columns, 5);
    assert_eq!(p.num_col_use, 3);
    assert!(!p.has_selection());
}

#[test]
fn family_name_itself_counts_as_regular() {
    let p = panel_for("Alpha", "", "");
    assert!(p.is_regular("Alpha"));
}

#[test]
fn regular_suffix_counts_as_regular() {
    let p = panel_for("Alpha", "", "");
    assert!(p.is_regular("Alpha-Regular"));
}

#[test]
fn hyphenless_name_counts_as_regular() {
    let p = panel_for("Alpha", "", "");
    assert!(p.is_regular("Plain"));
}

#[test]
fn named_variant_is_not_regular() {
    let p = panel_for("Alpha", "", "");
    assert!(!p.is_regular("Alpha-Bold"));
}

#[test]
fn same_selection_compares_families() {
    let a = panel_for("Alpha", "", "");
    let b = panel_for("Alpha", "Alpha-Bold", "");
    let c = panel_for("Beta", "", "");
    assert!(a.same_selection(&b));
    assert!(!a.same_selection(&c));
}

#[test]
fn variant_grid_lays_buttons_out_round_robin() {
    let p = panel_for("Alpha", "Alpha-Bold", "Alpha-Regular");
    let names = vec![
        "Alpha-Regular".to_string(),
        "Alpha-Bold".to_string(),
        "Alpha-Italic".to_string(),
        "Plain".to_string(),
        "Alpha-BoldItalic".to_string(),
    ];
    let buttons = p.variant_buttons(&names);
    assert_eq!(buttons.len(), 4);

    assert_eq!(buttons[0].label, "Bold");
    assert_eq!(buttons[0].font_name, "Alpha-Bold");
    assert!(buttons[0].highlighted);
    assert_eq!(buttons[0].column, 1);

    assert_eq!(buttons[1].label, "Italic");
    assert_eq!(buttons[1].font_name, "Alpha-Italic");
    assert!(!buttons[1].highlighted);
    assert_eq!(buttons[1].column, 2);

    assert_eq!(buttons[2].label, "BoldItalic");
    assert_eq!(buttons[2].font_name, "Alpha-BoldItalic");
    assert!(!buttons[2].highlighted);
    assert_eq!(buttons[2].column, 3);

    assert_eq!(buttons[3].label, "Regular");
    assert_eq!(buttons[3].font_name, "Alpha-Regular");
    assert!(!buttons[3].highlighted);
    assert_eq!(buttons[3].column, 1);
}

#[test]
fn variant_grid_is_empty_when_only_regulars_exist() {
    let p = panel_for("Alpha", "Alpha-Regular", "Alpha-Regular");
    let names = vec!["Alpha-Regular".to_string(), "Plain".to_string()];
    let buttons = p.variant_buttons(&names);
    assert!(buttons.is_empty());
}

#[test]
fn variant_grid_without_regular_gets_no_regular_button() {
    let p = panel_for("Alpha", "Alpha-Bold", "");
    let names = vec!["Alpha-Bold".to_string(), "Alpha-Italic".to_string()];
    let buttons = p.variant_buttons(&names);
    assert_eq!(buttons.len(), 2);
    assert_eq!(buttons[0].label, "Bold");
    assert_eq!(buttons[1].label, "Italic");
}

#[test]
fn regular_button_highlights_when_a_regular_is_shown() {
    let p = panel_for("Alpha", "Alpha-Regular", "Alpha-Regular");
    let names = vec!["Alpha-Regular".to_string(), "Alpha-Bold".to_string()];
    let buttons = p.variant_buttons(&names);
    assert_eq!(buttons.len(), 2);
    assert_eq!(buttons[1].label, "Regular");
    assert!(buttons[1].highlighted);
}
