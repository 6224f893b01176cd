use digital_rain::css_colors::{css_color_by_name, css_color_names, css_colors};

#[test]
fn css_color_count_is_148() {
    assert_eq!(css_colors().len(), 148);
}

#[test]
fn known_color_lookups() {
    let red = css_color_by_name("red").unwrap();
    assert_eq!((red.r, red.g, red.b), (255, 0, 0));

    let cornflower = css_color_by_name("cornflowerblue").unwrap();
    assert_eq!((cornflower.r, cornflower.g, cornflower.b), (100, 149, 237));

    let rebecca = css_color_by_name("rebeccapurple").unwrap();
    assert_eq!((rebecca.r, rebecca.g, rebecca.b), (102, 51, 153));
}

#[test]
fn case_insensitive_lookup() {
    assert!(css_color_by_name("Red").is_some());
    assert!(css_color_by_name("RED").is_some());
    assert!(css_color_by_name("CornflowerBlue").is_some());
}

#[test]
fn unknown_color_returns_none() {
    assert!(css_color_by_name("matrixgreen").is_none());
    assert!(css_color_by_name("notacolor").is_none());
}

#[test]
fn names_list_matches_count() {
    assert_eq!(css_color_names().len(), 148);
}

#[test]
fn colors_are_alphabetically_sorted() {
    let names = css_color_names();
    for i in 1..names.len() {
        assert!(
            names[i - 1] <= names[i],
            "Colors not sorted: '{}' should come before '{}'",
            names[i - 1],
            names[i]
        );
    }
}

#[test]
fn lookup_ignores_only_ascii_case() {
    assert_eq!(css_color_by_name("YellowGreen").unwrap().name, "yellowgreen");
    assert!(css_color_by_name("red ").is_none());
    assert!(css_color_by_name("").is_none());
}
