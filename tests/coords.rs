use kilo::coords::{logical_to_rendered, render_row};

#[test]
fn no_tabs_rendered_column_is_logical() {
    let line = String::from("hello world");
    for cx in 0..=line.len() {
        assert_eq!(logical_to_rendered(&line, cx), cx);
    }
}

#[test]
fn tab_at_column_three_goes_to_eight() {
    let line = String::from("abc\tx");
    assert_eq!(logical_to_rendered(&line, 3), 3);
    assert_eq!(logical_to_rendered(&line, 4), 8);
    assert_eq!(logical_to_rendered(&line, 5), 9);
}

#[test]
fn tab_at_column_eight_goes_to_sixteen() {
    let line = String::from("abcdefgh\t");
    assert_eq!(logical_to_rendered(&line, 8), 8);
    assert_eq!(logical_to_rendered(&line, 9), 16);
}

#[test]
fn leading_tabs() {
    let line = String::from("\t\tx");
    assert_eq!(logical_to_rendered(&line, 1), 8);
    assert_eq!(logical_to_rendered(&line, 2), 16);
    assert_eq!(logical_to_rendered(&line, 3), 17);
}

#[test]
fn columns_past_the_end_add_nothing() {
    let line = String::from("a\t");
    assert_eq!(logical_to_rendered(&line, 2), 8);
    assert_eq!(logical_to_rendered(&line, 10), 8);
}

#[test]
fn render_expands_tabs_to_stops() {
    assert_eq!(render_row(&String::from("a\tb")), "a       b");
    assert_eq!(render_row(&String::from("\tb")), "        b");
    assert_eq!(render_row(&String::from("abcdefgh\tc")), "abcdefgh        c");
    assert_eq!(render_row(&String::from("plain")), "plain");
    assert_eq!(render_row(&String::new()), "");
}

#[test]
fn render_keeps_multibyte_characters() {
    assert_eq!(render_row(&String::from("é\tü")), "é       ü");
    assert_eq!(logical_to_rendered(&String::from("é\tü"), 2), 8);
}

#[test]
fn render_width_matches_rendered_column() {
    let line = String::from("ab\tcd\t\te");
    let shown = render_row(&line);
    let n = line.chars().count();
    assert_eq!(shown.chars().count(), logical_to_rendered(&line, n));
}
