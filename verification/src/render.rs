//! The rendering layer: stored entries and the static home page become
//! HTML text for the boundary to emit verbatim. An entry is rendered as a
//! fixed two-field markup fragment with both fields HTML-escaped; a
//! listing is the concatenation of the fragments in the order received.
//! Rendering is total: applied to any sequence of entries it never fails,
//! and the contracts pin the exact text produced.

use vstd::prelude::*;

use crate::entry::{Entry, EntryV, entry_views};
use crate::error::Error;

verus! {

/// How one character appears in escaped HTML text: the five markup
/// characters become their character references, every other character
/// stands as itself.
pub open spec fn escaped_char(c: char) -> Seq<char> {
    if c == '&' {
        "&amp;"@
    } else if c == '<' {
        "&lt;"@
    } else if c == '>' {
        "&gt;"@
    } else if c == '"' {
        "&quot;"@
    } else if c == '\'' {
        "&#x27;"@
    } else {
        seq![c]
    }
}

/// A text with every character escaped for HTML, in order.
pub open spec fn escaped(s: Seq<char>) -> Seq<char>
    decreases s.len(),
{
    if s.len() == 0 {
        Seq::empty()
    } else {
        escaped_char(s[0]) + escaped(s.skip(1))
    }
}

proof fn lemma_escaped_snoc(s: Seq<char>, c: char)
    ensures
        escaped(s.push(c)) == escaped(s) + escaped_char(c),
    decreases s.len(),
{
    if s.len() == 0 {
        assert(s.push(c)[0] == c);
        assert(s.push(c).skip(1) =~= s);
        assert(escaped(s.push(c)) == escaped_char(c) + escaped(s));
        assert(escaped_char(c) + escaped(s) =~= escaped(s) + escaped_char(c));
    } else {
        lemma_escaped_snoc(s.skip(1), c);
        assert(s.push(c)[0] == s[0]);
        assert(s.push(c).skip(1) =~= s.skip(1).push(c));
        assert(escaped(s.push(c)) == escaped_char(s[0]) + (escaped(s.skip(1)) + escaped_char(c)));
        assert(escaped_char(s[0]) + (escaped(s.skip(1)) + escaped_char(c)) =~= (escaped_char(s[0])
            + escaped(s.skip(1))) + escaped_char(c));
    }
}

/// Relies on String::push: appends the given character to the end of the
/// string, changing nothing else.
#[verifier::external_body]
fn push_char(s: &mut String, c: char)
    ensures
        final(s)@ == old(s)@.push(c),
{
    s.push(c);
}

/// Escapes a text for inclusion in HTML, character by character.
pub fn escape_html(s: &str) -> (r: String)
    ensures
        r@ == escaped(s@),
{
    let mut out = String::new();
    let n = s.unicode_len();
    let mut i: usize = 0;
    while i < n
        invariant
            n == s@.len(),
            i <= n,
            out@ == escaped(s@.take(i as int)),
        decreases n - i,
    {
        let c = s.get_char(i);
        proof {
            lemma_escaped_snoc(s@.take(i as int), c);
            assert(s@.take(i as int + 1) =~= s@.take(i as int).push(s@[i as int]));
        }
        if c == '&' {
            out.append("&amp;");
        } else if c == '<' {
            out.append("&lt;");
        } else if c == '>' {
            out.append("&gt;");
        } else if c == '"' {
            out.append("&quot;");
        } else if c == '\'' {
            out.append("&#x27;");
        } else {
            push_char(&mut out, c);
            proof {
                assert(out@ =~= escaped(s@.take(i as int)) + escaped_char(c));
            }
        }
        i = i + 1;
    }
    proof {
        assert(s@.take(n as int) =~= s@);
    }
    out
}

/// The fragment one entry renders to: the escaped author, a fixed
/// connective, the escaped message, in a paragraph.
pub open spec fn rendered_entry(e: EntryV) -> Seq<char> {
    "<p>"@ + escaped(e.who) + " said: "@ + escaped(e.message) + "</p>"@
}

/// The text a sequence of entries renders to: each entry's fragment,
/// concatenated in the order received.
pub open spec fn rendered_entries(es: Seq<EntryV>) -> Seq<char>
    decreases es.len(),
{
    if es.len() == 0 {
        Seq::empty()
    } else {
        rendered_entry(es[0]) + rendered_entries(es.skip(1))
    }
}

proof fn lemma_rendered_entries_snoc(es: Seq<EntryV>, e: EntryV)
    ensures
        rendered_entries(es.push(e)) == rendered_entries(es) + rendered_entry(e),
    decreases es.len(),
{
    if es.len() == 0 {
        assert(es.push(e)[0] == e);
        assert(es.push(e).skip(1) =~= es);
        assert(rendered_entries(es.push(e)) == rendered_entry(e) + rendered_entries(es));
        assert(rendered_entry(e) + rendered_entries(es) =~= rendered_entries(es) + rendered_entry(
            e,
        ));
    } else {
        lemma_rendered_entries_snoc(es.skip(1), e);
        assert(es.push(e)[0] == es[0]);
        assert(es.push(e).skip(1) =~= es.skip(1).push(e));
        assert(rendered_entries(es.push(e)) == rendered_entry(es[0]) + (rendered_entries(
            es.skip(1),
        ) + rendered_entry(e)));
        assert(rendered_entry(es[0]) + (rendered_entries(es.skip(1)) + rendered_entry(e)) =~= (
        rendered_entry(es[0]) + rendered_entries(es.skip(1))) + rendered_entry(e));
    }
}

fn entry_fragment(e: &Entry) -> (s: String)
    ensures
        s@ == rendered_entry(e@),
{
    let mut out = String::from_str("<p>");
    let who = escape_html(e.who.as_str());
    out.append(who.as_str());
    out.append(" said: ");
    let message = escape_html(e.message.as_str());
    out.append(message.as_str());
    out.append("</p>");
    proof {
        assert(out@ =~= rendered_entry(e@));
    }
    out
}

/// Renders one entry to its HTML fragment. Total: it never fails, and the
/// text produced is exactly the entry's fragment.
pub fn render_entry(e: &Entry) -> (r: Result<String, Error>)
    ensures
        r matches Ok(s) && s@ == rendered_entry(e@),
{
    Ok(entry_fragment(e))
}

/// Renders a listing: each entry's fragment, concatenated in the order
/// received. Total: applied to any sequence of entries it never fails,
/// and the text produced is exactly the concatenation.
pub fn render_entry_list(entries: &Vec<Entry>) -> (r: Result<String, Error>)
    ensures
        r matches Ok(s) && s@ == rendered_entries(entry_views(entries@)),
{
    let mut out = String::new();
    let n = entries.len();
    let mut i: usize = 0;
    while i < n
        invariant
            n == entries@.len(),
            i <= n,
            out@ == rendered_entries(entry_views(entries@).take(i as int)),
        decreases n - i,
    {
        proof {
            lemma_rendered_entries_snoc(
                entry_views(entries@).take(i as int),
                entries@[i as int]@,
            );
            assert(entry_views(entries@).take(i as int + 1) =~= entry_views(entries@).take(
                i as int,
            ).push(entries@[i as int]@));
        }
        let fragment = entry_fragment(&entries[i]);
        out.append(fragment.as_str());
        i = i + 1;
    }
    proof {
        assert(entry_views(entries@).take(n as int) =~= entry_views(entries@));
    }
    Ok(out)
}

/// The fixed, data-independent home page.
pub open spec fn home_page_text() -> Seq<char> {
    "<!DOCTYPE html><html><head><title>Guestbook</title></head><body><h1>Guestbook</h1><form action=\"/api/message\" method=\"post\"><input name=\"who\" placeholder=\"who\"><input name=\"message\" placeholder=\"message\"><button type=\"submit\">Sign</button></form></body></html>"@
}

/// Renders the home page. Total and data-independent: it never fails, and
/// the text produced is exactly the fixed page.
pub fn render_home() -> (r: Result<String, Error>)
    ensures
        r matches Ok(s) && s@ == home_page_text(),
{
    Ok(
        String::from_str(
            "<!DOCTYPE html><html><head><title>Guestbook</title></head><body><h1>Guestbook</h1><form action=\"/api/message\" method=\"post\"><input name=\"who\" placeholder=\"who\"><input name=\"message\" placeholder=\"message\"><button type=\"submit\">Sign</button></form></body></html>",
        ),
    )
}

} // verus!
