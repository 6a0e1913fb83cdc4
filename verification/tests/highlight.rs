use omdocker::highlight::{highlight_pieces, Highlight};

fn pieces(text: &str, search: &str) -> Vec<(String, Highlight)> {
    highlight_pieces(text, search)
}

#[test]
fn matches_ignore_case_and_keep_the_line_text() {
    assert_eq!(
        pieces("Error: disk ERROR", "error"),
        vec![
            ("Error".to_string(), Highlight::Match),
            (": disk ".to_string(), Highlight::Plain),
            ("ERROR".to_string(), Highlight::Match),
        ]
    );
}

#[test]
fn a_line_without_a_match_is_plain() {
    assert_eq!(pieces("all good", "fail"), vec![("all good".to_string(), Highlight::Plain)]);
}

#[test]
fn an_empty_line_is_marked_empty() {
    assert_eq!(pieces("", "x"), vec![(String::new(), Highlight::Empty)]);
}

#[test]
fn overlapping_matches_each_get_a_piece() {
    assert_eq!(
        pieces("aaa", "aa"),
        vec![("aa".to_string(), Highlight::Match), ("aa".to_string(), Highlight::Match)]
    );
}
