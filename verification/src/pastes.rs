//! Pastes: the checks on a new or edited paste, and how its text is shown.
use vstd::prelude::*;
use crate::model::WebError;
use crate::settings::RuntimeSettings;
use crate::text::{append_str, is_blank, opt_str_view, opt_view, trim};

verus! {

/// Text escaped for use in HTML: `&`, `<` and `>` become entities.
pub open spec fn html_text(s: Seq<char>) -> Seq<char>
    decreases s.len(),
{
    if s.len() == 0 {
        Seq::empty()
    } else {
        let c = s.last();
        html_text(s.drop_last()) + if c == '&' {
            "&amp;"@
        } else if c == '<' {
            "&lt;"@
        } else if c == '>' {
            "&gt;"@
        } else {
            seq![c]
        }
    }
}

/// Escapes text with `html_escape::encode_text`, which replaces `&`, `<` and
/// `>` by their entities and leaves every other character as it is.
#[verifier::external_body]
fn encode_text(content: &str) -> (r: String)
    ensures
        r@ == html_text(content@),
{
    html_escape::encode_text(content).into_owned()
}

/// The HTML that `syntect` makes of a text highlighted as the syntax named by
/// `syntax` (plain text when it knows no such syntax), with its default
/// syntaxes and the `base16-ocean.dark` theme; `None` when highlighting fails.
pub uninterp spec fn highlighted_html(content: Seq<char>, syntax: Seq<char>) -> Option<Seq<char>>;

/// Highlights with `syntect` (`SyntaxSet::load_defaults_newlines`,
/// `find_syntax_by_token`, `highlighted_html_for_string`); the result is the
/// name `highlighted_html` of the text and the syntax name.
#[verifier::external_body]
fn highlight(content: &str, syntax: &str) -> (r: Option<String>)
    ensures
        opt_view(r) == highlighted_html(content@, syntax@),
{
    let syntax_set = syntect::parsing::SyntaxSet::load_defaults_newlines();
    let theme_set = syntect::highlighting::ThemeSet::load_defaults();
    let found = syntax_set.find_syntax_by_token(syntax);
    let syntax_ref = found.unwrap_or(syntax_set.find_syntax_plain_text());
    let theme = &theme_set.themes["base16-ocean.dark"];
    syntect::html::highlighted_html_for_string(content, &syntax_set, syntax_ref, theme).ok()
}

/// The plain rendering: the escaped text in a preformatted block.
pub open spec fn plain_paste_html(content: Seq<char>) -> Seq<char> {
    "<pre class=\"paste-body\"><code>"@ + html_text(content) + "</code></pre>"@
}

/// How a paste is shown: highlighted when it names a syntax and highlighting
/// works, plain otherwise.
pub open spec fn spec_render_paste(content: Seq<char>, syntax: Option<Seq<char>>) -> Seq<char> {
    match syntax {
        Some(s) => if trim(s).len() == 0 {
            plain_paste_html(content)
        } else {
            match highlighted_html(content, s) {
                Some(h) => h,
                None => plain_paste_html(content),
            }
        },
        None => plain_paste_html(content),
    }
}

fn plain_paste(content: &str) -> (r: String)
    ensures
        r@ == plain_paste_html(content@),
{
    let mut s = "<pre class=\"paste-body\"><code>".to_owned();
    let escaped = encode_text(content);
    append_str(&mut s, escaped.as_str());
    append_str(&mut s, "</code></pre>");
    s
}

pub fn render_paste_content(content: &str, syntax: Option<&str>) -> (r: String)
    ensures
        r@ == spec_render_paste(content@, opt_str_view(syntax)),
{
    let s = match syntax {
        Some(s) => s,
        None => return plain_paste(content),
    };
    if is_blank(s) {
        return plain_paste(content);
    }
    match highlight(content, s) {
        Some(h) => h,
        None => plain_paste(content),
    }
}

/// A paste's text may hold at most the configured number of bytes.
pub fn check_paste_size(settings: &RuntimeSettings, content: &str) -> (r: Result<(), WebError>)
    ensures
        vstd::utf8::encode_utf8(content@).len() > settings.limits.max_paste_bytes ==> r matches Err(
            WebError::PayloadTooLarge,
        ),
        vstd::utf8::encode_utf8(content@).len() <= settings.limits.max_paste_bytes ==> r is Ok,
{
    let n = content.as_bytes().len();
    if settings.limits.max_paste_bytes < 0 || (n as u64) > (settings.limits.max_paste_bytes as u64) {
        Err(WebError::PayloadTooLarge)
    } else {
        Ok(())
    }
}

/// The title a new paste is stored with: the given one, unless it is blank.
pub fn new_paste_title(title: Option<&str>) -> (r: Option<String>)
    ensures
        opt_view(r) == match opt_str_view(title) {
            Some(t) => if trim(t).len() == 0 {
                None
            } else {
                Some(t)
            },
            None => None,
        },
{
    match title {
        Some(t) => if is_blank(t) {
            None
        } else {
            Some(t.to_owned())
        },
        None => None,
    }
}

} // verus!
