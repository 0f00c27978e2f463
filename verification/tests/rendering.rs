use hyperlist::record::Record;
use hyperlist::render::{render_empty_form, render_list, render_page};
use hyperlist::router::handle_index;

fn record(name: &str, date: &str) -> Record {
    Record { name: String::from(name), date: String::from(date), tags: Vec::new() }
}

const FORM: &str = "<form hx-post=\"/data\" hx-target=\"this\" hx-swap=\"outerHTML\">\
<div><label>Name</label><input name=\"name\"></div>\
<div><label>Date</label><input name=\"date\"></div>\
<div><label>Tags</label><input name=\"tags\"></div>\
<button type=\"submit\">Save</button></form>";

#[test]
fn fragment_row_supplies_name_and_date() {
    let rec = record("Ann", "2024-01-01");
    let (name, date) = rec.to_fragment_row();
    assert_eq!(name, "Ann");
    assert_eq!(date, "2024-01-01");
}

#[test]
fn render_list_empty_container() {
    let out = render_list(&Vec::new());
    assert_eq!(out, "<ul></ul>");
}

#[test]
fn render_list_two_items_in_order() {
    let recs = vec![record("Ann", "2024-01-01"), record("Bob", "2024-02-02")];
    let out = render_list(&recs);
    assert_eq!(out, "<ul><li>Ann</li><li>Bob</li></ul>");
}

#[test]
fn render_list_escapes_markup() {
    let recs = vec![record("a<b>&c", "d")];
    let out = render_list(&recs);
    assert_eq!(out, "<ul><li>a&lt;b&gt;&amp;c</li></ul>");
}

#[test]
fn render_list_deterministic() {
    let recs = vec![record("Ann", "2024-01-01"), record("<x>", "&")];
    let once = render_list(&recs);
    let twice = render_list(&recs);
    assert_eq!(once.as_bytes(), twice.as_bytes());
}

#[test]
fn render_empty_form_exact() {
    assert_eq!(render_empty_form(), FORM);
}

#[test]
fn render_page_wraps_body() {
    let out = render_page("<p>x</p>");
    assert_eq!(
        out,
        "<html><head><script src=\"https://unpkg.com/htmx.org@1.9.6\"></script></head>\
<body><p>x</p></body></html>"
    );
}

#[test]
fn index_page_exact() {
    let expected = format!(
        "<html><head><script src=\"https://unpkg.com/htmx.org@1.9.6\"></script></head>\
<body><h1>Hello World</h1>\
<button hx-get=\"/data\" hx-swap=\"outerHTML\">Click Me</button>{}</body></html>",
        FORM
    );
    assert_eq!(handle_index(), expected);
}
