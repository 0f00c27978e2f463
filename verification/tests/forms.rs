use hyperlist::record::{from_form_submission, records_from_pairs, split_tags, ValidationError};

fn fields(pairs: &[(&str, &str)]) -> Vec<(String, String)> {
    pairs
        .iter()
        .map(|(k, v)| (String::from(*k), String::from(*v)))
        .collect()
}

#[test]
fn form_submission_ok() {
    let f = fields(&[("name", "Ann"), ("date", "2024-01-01"), ("tags", "a,b")]);
    let rec = from_form_submission(&f).unwrap();
    assert_eq!(rec.name, "Ann");
    assert_eq!(rec.date, "2024-01-01");
    assert_eq!(rec.tags, vec![String::from("a"), String::from("b")]);
}

#[test]
fn form_missing_name_is_rejected() {
    let f = fields(&[("date", "2024-01-01"), ("tags", "a")]);
    assert_eq!(from_form_submission(&f), Err(ValidationError::MissingName));
}

#[test]
fn form_missing_date_is_rejected() {
    let f = fields(&[("name", "Ann"), ("tags", "a")]);
    assert_eq!(from_form_submission(&f), Err(ValidationError::MissingDate));
}

#[test]
fn form_without_tags_gets_none() {
    let f = fields(&[("name", "Ann"), ("date", "2024-01-01")]);
    let rec = from_form_submission(&f).unwrap();
    assert!(rec.tags.is_empty());
}

#[test]
fn form_empty_values_accepted() {
    let f = fields(&[("name", ""), ("date", " ")]);
    let rec = from_form_submission(&f).unwrap();
    assert_eq!(rec.name, "");
    assert_eq!(rec.date, " ");
}

#[test]
fn form_first_occurrence_wins() {
    let f = fields(&[("name", "Ann"), ("name", "Bob"), ("date", "d")]);
    let rec = from_form_submission(&f).unwrap();
    assert_eq!(rec.name, "Ann");
}

#[test]
fn split_tags_two_segments() {
    assert_eq!(split_tags("a,b"), vec![String::from("a"), String::from("b")]);
}

#[test]
fn split_tags_empty_text() {
    assert!(split_tags("").is_empty());
}

#[test]
fn split_tags_keeps_empty_segments() {
    assert_eq!(
        split_tags("a,,b"),
        vec![String::from("a"), String::from(""), String::from("b")]
    );
}

#[test]
fn split_tags_no_comma() {
    assert_eq!(split_tags("abc"), vec![String::from("abc")]);
}

#[test]
fn split_tags_trailing_comma_adds_nothing() {
    assert_eq!(split_tags("a,"), vec![String::from("a")]);
}

#[test]
fn records_from_pairs_keeps_order() {
    let pairs = vec![
        (String::from("Ann"), String::from("2024-01-01")),
        (String::from("Bob"), String::from("2024-02-02")),
    ];
    let recs = records_from_pairs(&pairs);
    assert_eq!(recs.len(), 2);
    assert_eq!(recs[0].name, "Ann");
    assert_eq!(recs[0].date, "2024-01-01");
    assert!(recs[0].tags.is_empty());
    assert_eq!(recs[1].name, "Bob");
    assert_eq!(recs[1].date, "2024-02-02");
}
