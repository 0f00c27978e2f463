//! The fragment renderer: pure functions from record values to the HTML
//! fragments that replace parts of an already-loaded page, and the document
//! shell for the one full-page response.

use vstd::prelude::*;
use vstd::string::StrSliceExecFns;
use vstd::string::StringExecFns;
use crate::record::{recs_view, Record, RecordV};
use crate::strings::push_char;

verus! {

/// How one character appears inside rendered text: the three HTML
/// metacharacters become entities, every other character stands as itself.
pub open spec fn escape_char(c: char) -> Seq<char> {
    if c == '&' {
        "&amp;"@
    } else if c == '<' {
        "&lt;"@
    } else if c == '>' {
        "&gt;"@
    } else {
        seq![c]
    }
}

/// A text escaped for use inside an HTML element.
pub open spec fn escape_seq(s: Seq<char>) -> Seq<char>
    decreases s.len(),
{
    if s.len() == 0 {
        Seq::empty()
    } else {
        escape_seq(s.drop_last()) + escape_char(s.last())
    }
}

/// Escapes a text for use inside an HTML element.
pub fn escape_html(s: &str) -> (r: String)
    ensures
        r@ == escape_seq(s@),
{
    let n = s.unicode_len();
    let mut r = String::new();
    let mut i: usize = 0;
    while i < n
        invariant
            n == s@.len(),
            i <= n,
            r@ == escape_seq(s@.take(i as int)),
        decreases n - i,
    {
        let c = s.get_char(i);
        if c == '&' {
            r.append("&amp;");
        } else if c == '<' {
            r.append("&lt;");
        } else if c == '>' {
            r.append("&gt;");
        } else {
            push_char(&mut r, c);
        }
        proof {
            assert(s@.take(i as int + 1).drop_last() =~= s@.take(i as int));
            assert(r@ =~= escape_seq(s@.take(i as int + 1)));
        }
        i += 1;
    }
    proof {
        assert(s@.take(n as int) =~= s@);
    }
    r
}

/// The list item for one record: its escaped name.
pub open spec fn spec_list_item(r: RecordV) -> Seq<char> {
    "<li>"@ + escape_seq(r.name) + "</li>"@
}

/// The items of the list fragment, in listing order.
pub open spec fn spec_render_items(rs: Seq<RecordV>) -> Seq<char>
    decreases rs.len(),
{
    if rs.len() == 0 {
        Seq::empty()
    } else {
        spec_render_items(rs.drop_last()) + spec_list_item(rs.last())
    }
}

/// The unordered-list fragment for a listing.
pub open spec fn spec_render_list(rs: Seq<RecordV>) -> Seq<char> {
    "<ul>"@ + spec_render_items(rs) + "</ul>"@
}

/// Renders a listing as an unordered list: one item per record, holding the
/// record's name with its text escaped; an empty listing yields an empty
/// (childless) list container, never absent output.
pub fn render_list(records: &Vec<Record>) -> (r: String)
    ensures
        r@ == spec_render_list(recs_view(records@)),
{
    let ghost rv = recs_view(records@);
    let n = records.len();
    let mut items = String::new();
    let mut i: usize = 0;
    while i < n
        invariant
            n == records@.len(),
            rv == recs_view(records@),
            i <= n,
            items@ == spec_render_items(rv.take(i as int)),
        decreases n - i,
    {
        items.append("<li>");
        let escaped = escape_html(records[i].name.as_str());
        items.append(escaped.as_str());
        items.append("</li>");
        proof {
            assert(rv.take(i as int + 1).drop_last() =~= rv.take(i as int));
            assert(rv[i as int] == records@[i as int]@);
            assert(items@ =~= spec_render_items(rv.take(i as int + 1)));
        }
        i += 1;
    }
    let mut r = String::from_str("<ul>");
    r.append(items.as_str());
    r.append("</ul>");
    proof {
        assert(rv.take(n as int) =~= rv);
        assert(r@ =~= spec_render_list(rv));
    }
    r
}

/// The static creation form: three labeled text inputs and a submit control.
pub open spec fn spec_empty_form() -> Seq<char> {
    "<form hx-post=\"/data\" hx-target=\"this\" hx-swap=\"outerHTML\"><div><label>Name</label><input name=\"name\"></div><div><label>Date</label><input name=\"date\"></div><div><label>Tags</label><input name=\"tags\"></div><button type=\"submit\">Save</button></form>"@
}

/// Renders the static creation form: a fragment with no data dependency.
pub fn render_empty_form() -> (r: String)
    ensures
        r@ == spec_empty_form(),
{
    String::from_str(
        "<form hx-post=\"/data\" hx-target=\"this\" hx-swap=\"outerHTML\"><div><label>Name</label><input name=\"name\"></div><div><label>Date</label><input name=\"date\"></div><div><label>Tags</label><input name=\"tags\"></div><button type=\"submit\">Save</button></form>",
    )
}

/// The document shell around a page body: the head references the hypermedia
/// exchange script served from a third-party origin.
pub open spec fn spec_page(body: Seq<char>) -> Seq<char> {
    "<html><head><script src=\"https://unpkg.com/htmx.org@1.9.6\"></script></head><body>"@ + body
        + "</body></html>"@
}

/// Composes the full document shell around an already-rendered body.
pub fn render_page(body: &str) -> (r: String)
    ensures
        r@ == spec_page(body@),
{
    let mut r = String::from_str(
        "<html><head><script src=\"https://unpkg.com/htmx.org@1.9.6\"></script></head><body>",
    );
    r.append(body);
    r.append("</body></html>");
    r
}

/// The body of the index page: a greeting, the control that fetches the
/// listing fragment, and the creation form.
pub open spec fn spec_index_body() -> Seq<char> {
    "<h1>Hello World</h1><button hx-get=\"/data\" hx-swap=\"outerHTML\">Click Me</button>"@
        + spec_empty_form()
}

/// Renders the body of the index page.
pub fn render_index_body() -> (r: String)
    ensures
        r@ == spec_index_body(),
{
    let mut r = String::from_str(
        "<h1>Hello World</h1><button hx-get=\"/data\" hx-swap=\"outerHTML\">Click Me</button>",
    );
    let form = render_empty_form();
    r.append(form.as_str());
    r
}

/// Rendering determinism: the list fragment is a function of the record
/// values alone, so two renderings of the same listing are identical.
pub proof fn lemma_render_list_deterministic(rs: Seq<RecordV>, out1: Seq<char>, out2: Seq<char>)
    requires
        out1 == spec_render_list(rs),
        out2 == spec_render_list(rs),
    ensures
        out1 == out2,
{
}

/// An empty listing renders as the childless list container.
pub proof fn lemma_render_list_empty()
    ensures
        spec_render_list(Seq::empty()) == "<ul>"@ + "</ul>"@,
{
    assert(spec_render_items(Seq::<RecordV>::empty()) =~= Seq::<char>::empty());
    assert(spec_render_list(Seq::empty()) =~= "<ul>"@ + "</ul>"@);
}

} // verus!
