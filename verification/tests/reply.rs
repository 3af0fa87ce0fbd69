use imdb_bot::rank::Candidate;
use imdb_bot::reply::{envelope, format_log_line, format_reply};

const BASE: &str = "https://www.imdb.com/title";

fn dune() -> Candidate {
    Candidate {
        id: "tt0087182".to_string(),
        title_text: "Dune".to_string(),
        start_year: Some(1984),
        genres: "Action,Adventure,Sci-Fi".to_string(),
        rating_value: Some(format!("{}", 7.5f32)),
        rating_votes: Some(150000),
    }
}

fn bare() -> Candidate {
    Candidate {
        id: "tt1".to_string(),
        title_text: "Title".to_string(),
        start_year: None,
        genres: String::new(),
        rating_value: None,
        rating_votes: None,
    }
}

#[test]
fn reply_for_a_rated_title() {
    assert_eq!(format_reply(&dune(), BASE), "Dune (1984 - 7.5) https://www.imdb.com/title/tt0087182/");
}

#[test]
fn reply_uses_the_configured_base() {
    assert_eq!(format_reply(&dune(), "http://localhost/t"), "Dune (1984 - 7.5) http://localhost/t/tt0087182/");
    assert_eq!(format_reply(&dune(), ""), "Dune (1984 - 7.5) /tt0087182/");
}

#[test]
fn reply_without_year_and_rating() {
    assert_eq!(format_reply(&bare(), BASE), "Title (0 - 0.0) https://www.imdb.com/title/tt1/");
}

#[test]
fn reply_without_year_only() {
    let c = Candidate { start_year: None, ..dune() };
    assert_eq!(format_reply(&c, BASE), "Dune (0 - 7.5) https://www.imdb.com/title/tt0087182/");
}

#[test]
fn reply_without_rating_only() {
    let c = Candidate { rating_value: None, ..dune() };
    assert_eq!(format_reply(&c, BASE), "Dune (1984 - 0.0) https://www.imdb.com/title/tt0087182/");
}

#[test]
fn reply_keeps_the_title_verbatim() {
    let c = Candidate { title_text: "Am\u{e9}lie  (the  film) ".to_string(), start_year: Some(2001), ..bare() };
    assert_eq!(format_reply(&c, "b"), "Am\u{e9}lie  (the  film)  (2001 - 0.0) b/tt1/");
}

#[test]
fn reply_renders_large_years() {
    let c = Candidate { start_year: Some(u32::MAX), ..bare() };
    assert_eq!(format_reply(&c, "b"), "Title (4294967295 - 0.0) b/tt1/");
}

#[test]
fn envelope_has_the_wire_shape() {
    assert_eq!(envelope("hi there"), "MSG {\"data\": \"hi there\"}");
    assert_eq!(envelope(""), "MSG {\"data\": \"\"}");
}

#[test]
fn envelope_of_a_reply() {
    let line = envelope(&format_reply(&dune(), BASE));
    assert_eq!(line, "MSG {\"data\": \"Dune (1984 - 7.5) https://www.imdb.com/title/tt0087182/\"}");
}

#[test]
fn log_line_for_a_rated_title() {
    assert_eq!(
        format_log_line(&dune(), BASE),
        "7.5 Dune Action,Adventure,Sci-Fi https://www.imdb.com/title/tt0087182/"
    );
}

#[test]
fn log_line_without_rating() {
    assert_eq!(format_log_line(&bare(), BASE), "0.0 Title  https://www.imdb.com/title/tt1/");
}
