//! Normalization of a fetched chapter's markup.
//!
//! A chapter body arrives as a fragment of markup. Normalization rewrites
//! every self-closing line break `<br>` into `<br />` and wraps the result,
//! together with the chapter title, in a minimal fixed page template that
//! references the shared stylesheet.

use vstd::prelude::*;
use vstd::string::StrSliceExecFns;
use vstd::string::StringExecFns;

verus! {

/// `s` with every occurrence of `<br>` rewritten to `<br />`, scanning left
/// to right over non-overlapping occurrences.
pub open spec fn br_rewritten(s: Seq<char>) -> Seq<char>
    decreases s.len(),
{
    if s.len() == 0 {
        Seq::empty()
    } else if s.len() >= 4 && s.subrange(0, 4) == seq!['<', 'b', 'r', '>'] {
        seq!['<', 'b', 'r', ' ', '/', '>'] + br_rewritten(s.skip(4))
    } else {
        seq![s[0]] + br_rewritten(s.skip(1))
    }
}

/// Everything of the page template that precedes the title.
pub open spec fn page_head_text() -> Seq<char> {
    "<?xml version=\"1.0\" encoding=\"utf-8\"?> 
            <html xmlns=\"http://www.w3.org/1999/xhtml\" xmlns:epub=\"http://www.idpf.org/2007/ops\" xml:lang=\"zh-CN\" xmlns:xml=\"http://www.w3.org/XML/1998/namespace\">
            <head><link href=\"stylesheet.css\" type=\"text/css\" rel=\"stylesheet\" /></head>
            <body><h2>"@
}

/// What stands between the title and the body.
pub open spec fn page_mid_text() -> Seq<char> {
    "</h2>"@
}

/// Everything of the page template that follows the body.
pub open spec fn page_tail_text() -> Seq<char> {
    "</body>
            </html>"@
}

/// The complete page: the fixed template around the title and the rewritten
/// body.
pub open spec fn rendered_page(title: Seq<char>, body: Seq<char>) -> Seq<char> {
    page_head_text() + title + page_mid_text() + br_rewritten(body) + page_tail_text()
}

/// The opening part of the page template, for callers that assemble or check
/// pages outside this crate.
pub fn page_head() -> (r: &'static str)
    ensures
        r@ == page_head_text(),
{
    "<?xml version=\"1.0\" encoding=\"utf-8\"?> 
            <html xmlns=\"http://www.w3.org/1999/xhtml\" xmlns:epub=\"http://www.idpf.org/2007/ops\" xml:lang=\"zh-CN\" xmlns:xml=\"http://www.w3.org/XML/1998/namespace\">
            <head><link href=\"stylesheet.css\" type=\"text/css\" rel=\"stylesheet\" /></head>
            <body><h2>"
}

/// The part of the page template between title and body.
pub fn page_mid() -> (r: &'static str)
    ensures
        r@ == page_mid_text(),
{
    "</h2>"
}

/// The closing part of the page template.
pub fn page_tail() -> (r: &'static str)
    ensures
        r@ == page_tail_text(),
{
    "</body>
            </html>"
}

/// The fixed stylesheet text.
pub open spec fn stylesheet_text() -> Seq<char> {
    "
body{padding: 0%;margin-top: 0%;margin-bottom: 0%;margin-left: 1%;margin-right: 1%;line-height:1.2;text-align: justify;}
p {text-indent:2em;display:block;line-height:1.3;margin-top:0.6em;margin-bottom:0.6em;}
"@
}

/// The fixed stylesheet handed to the packaging collaborator alongside the
/// assembled work.
pub fn stylesheet() -> (r: &'static str)
    ensures
        r@ == stylesheet_text(),
{
    "
body{padding: 0%;margin-top: 0%;margin-bottom: 0%;margin-left: 1%;margin-right: 1%;line-height:1.2;text-align: justify;}
p {text-indent:2em;display:block;line-height:1.3;margin-top:0.6em;margin-bottom:0.6em;}
"
}

/// Relies on `String::push`: appends exactly the one character to the end.
#[verifier::external_body]
fn push_char(s: &mut String, c: char)
    ensures
        final(s)@ == old(s)@.push(c),
{
    s.push(c);
}

/// The characters of `s`, in order, as a vector.
fn to_char_vec(s: &str) -> (r: Vec<char>)
    ensures
        r@ == s@,
{
    let n = s.unicode_len();
    let mut out: Vec<char> = Vec::new();
    let mut i: usize = 0;
    while i < n
        invariant
            i <= n,
            n == s@.len(),
            out@ =~= s@.subrange(0, i as int),
        decreases n - i,
    {
        out.push(s.get_char(i));
        i = i + 1;
    }
    proof {
        assert(out@ =~= s@);
    }
    out
}

/// Append `s` with every `<br>` rewritten to `<br />` onto `out`.
fn append_rewritten(out: &mut String, s: &str)
    ensures
        final(out)@ == old(out)@ + br_rewritten(s@),
{
    let chars = to_char_vec(s);
    let n = chars.len();
    let mut i: usize = 0;
    proof {
        assert(chars@.skip(0) =~= chars@);
    }
    while i < n
        invariant
            i <= n,
            n == chars@.len(),
            chars@ == s@,
            out@ + br_rewritten(chars@.skip(i as int)) == old(out)@ + br_rewritten(s@),
        decreases n - i,
    {
        let ghost rest = chars@.skip(i as int);
        if n - i >= 4 && chars[i] == '<' && chars[i + 1] == 'b' && chars[i + 2] == 'r'
            && chars[i + 3] == '>' {
            proof {
                assert(rest.subrange(0, 4) =~= seq!['<', 'b', 'r', '>']);
                assert(rest.skip(4) =~= chars@.skip(i + 4));
                reveal_strlit("<br />");
                assert("<br />"@ =~= seq!['<', 'b', 'r', ' ', '/', '>']);
            }
            out.append("<br />");
            proof {
                assert(out@ + br_rewritten(chars@.skip(i + 4)) =~= old(out)@ + br_rewritten(s@));
            }
            i = i + 4;
        } else {
            proof {
                if rest.len() >= 4 && rest.subrange(0, 4) == seq!['<', 'b', 'r', '>'] {
                    assert(rest.subrange(0, 4)[0] == chars@[i as int]);
                    assert(rest.subrange(0, 4)[1] == chars@[i + 1]);
                    assert(rest.subrange(0, 4)[2] == chars@[i + 2]);
                    assert(rest.subrange(0, 4)[3] == chars@[i + 3]);
                    assert(false);
                }
                assert(rest[0] == chars@[i as int]);
                assert(rest.skip(1) =~= chars@.skip(i + 1));
            }
            let c = chars[i];
            push_char(out, c);
            proof {
                assert(out@ + br_rewritten(chars@.skip(i + 1)) =~= old(out)@ + br_rewritten(s@));
            }
            i = i + 1;
        }
    }
    proof {
        assert(chars@.skip(n as int) =~= Seq::<char>::empty());
        assert(out@ =~= old(out)@ + br_rewritten(s@));
    }
}

/// Normalize one fetched chapter into a full page: rewrite the self-closing
/// line breaks of `content` and wrap the result, with `title` as heading, in
/// the fixed template referencing the shared stylesheet.
pub fn _make_content(content: String, title: String) -> (r: String)
    ensures
        r@ == rendered_page(title@, content@),
{
    let mut out = String::new();
    out.append(page_head());
    out.append(title.as_str());
    out.append(page_mid());
    append_rewritten(&mut out, content.as_str());
    out.append(page_tail());
    proof {
        assert(out@ =~= rendered_page(title@, content@));
    }
    out
}

} // verus!
