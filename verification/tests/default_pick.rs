use fonts_compare::panel::pick_default_font;

fn names(list: &[&str]) -> Vec<String> {
    list.iter().map(|s| s.to_string()).collect()
}

#[test]
fn regular_variant_wins() {
    let fonts = names(&["Alpha-Bold", "Alpha-Regular", "Alpha-Italic"]);
    assert_eq!(pick_default_font(&fonts), "Alpha-Regular");
}

#[test]
fn regular_beats_a_later_hyphenless_name() {
    let fonts = names(&["Alpha-Bold", "Alpha-Regular", "Plain"]);
    assert_eq!(pick_default_font(&fonts), "Alpha-Regular");
}

#[test]
fn regular_beats_an_earlier_hyphenless_name() {
    let fonts = names(&["Plain", "Alpha-Regular"]);
    assert_eq!(pick_default_font(&fonts), "Alpha-Regular");
}

#[test]
fn first_regular_name_wins() {
    let fonts = names(&["Alpha-Bold", "Alpha-Regular", "Beta-Regular"]);
    assert_eq!(pick_default_font(&fonts), "Alpha-Regular");
}

#[test]
fn first_hyphenless_name_wins_without_a_regular() {
    let fonts = names(&["Alpha-Bold", "Plain", "Mono"]);
    assert_eq!(pick_default_font(&fonts), "Plain");
}

#[test]
fn first_name_is_the_fallback() {
    let fonts = names(&["Alpha-Bold", "Alpha-Italic"]);
    assert_eq!(pick_default_font(&fonts), "Alpha-Bold");
}

#[test]
fn single_font_is_picked() {
    let fonts = names(&["Alpha-BoldItalic"]);
    assert_eq!(pick_default_font(&fonts), "Alpha-BoldItalic");
}
