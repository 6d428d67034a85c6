use vstd::prelude::*;
use vstd::string::StringExecFns;

verus! {

/// The status of a served page.
pub const OK_STATUS: u16 = 200;

/// The status of a request that matched no route.
pub const NOT_FOUND_STATUS: u16 = 404;

/// The status of a page that could not be produced.
pub const INTERNAL_ERROR_STATUS: u16 = 500;

/// The kind of a response body.
pub enum ContentType {
    /// `text/html`
    Html,
    /// `text/plain`
    PlainText,
}

/// A response: its status, the kind of its body, and the body.
pub struct Page {
    pub status: u16,
    pub content_type: ContentType,
    pub body: String,
}

/// Why the index page could not be produced.
pub enum IndexFailure {
    /// The project list could not be read.
    Projects,
    /// The index template could not be rendered.
    Template,
}

/// The character of a decimal digit.
pub open spec fn digit_char(d: int) -> char {
    ((d + 48) as u8) as char
}

/// The three decimal digits of a status code.
pub open spec fn status_digits(code: u16) -> Seq<char> {
    seq![
        digit_char(code as int / 100),
        digit_char((code as int / 10) % 10),
        digit_char(code as int % 10),
    ]
}

/// A status code as text, such as `404`. Status codes have three digits.
pub fn status_text(code: u16) -> (r: String)
    requires
        100 <= code <= 999,
    ensures
        r@ == status_digits(code),
{
    let s = String::from_str(digit_str((code / 100) as u8 + 48));
    let s = s.concat(digit_str(((code / 10) % 10) as u8 + 48));
    let s = s.concat(digit_str((code % 10) as u8 + 48));
    proof {
        assert(s@ =~= status_digits(code));
    }
    s
}

/// The one-character text of an ASCII digit.
fn digit_str(b: u8) -> (r: &'static str)
    requires
        48 <= b <= 57,
    ensures
        r@ == seq![b as char],
{
    proof {
        reveal_strlit("0");
        reveal_strlit("1");
        reveal_strlit("2");
        reveal_strlit("3");
        reveal_strlit("4");
        reveal_strlit("5");
        reveal_strlit("6");
        reveal_strlit("7");
        reveal_strlit("8");
        reveal_strlit("9");
    }
    match b {
        48 => "0",
        49 => "1",
        50 => "2",
        51 => "3",
        52 => "4",
        53 => "5",
        54 => "6",
        55 => "7",
        56 => "8",
        _ => "9",
    }
}

/// The error page for a render outcome: the rendered HTML where rendering
/// succeeded, else the message itself as plain text; the status either way.
pub fn error_page_from(status: u16, message: &str, rendered: Option<String>) -> (r: Page)
    ensures
        r.status == status,
        rendered matches Some(html) ==> r.content_type is Html && r.body@ == html@,
        rendered is None ==> r.content_type is PlainText && r.body@ == message@,
{
    match rendered {
        Some(html) => Page { status, content_type: ContentType::Html, body: html },
        None => Page { status, content_type: ContentType::PlainText, body: String::from_str(message) },
    }
}

/// What an error page binds: `error` to the message, then `status_code` to
/// the status as three digits.
pub fn error_bindings(status: u16, message: &str) -> (r: Vec<(String, String)>)
    requires
        100 <= status <= 999,
    ensures
        r@.len() == 2,
        r@[0].0@ == "error"@,
        r@[0].1@ == message@,
        r@[1].0@ == "status_code"@,
        r@[1].1@ == status_digits(status),
{
    let mut bindings: Vec<(String, String)> = Vec::new();
    bindings.push((String::from_str("error"), String::from_str(message)));
    bindings.push((String::from_str("status_code"), status_text(status)));
    bindings
}

/// What the not-found page binds: `error_bindings` for status 404 and the
/// message "Page not found".
pub fn not_found_bindings() -> (r: Vec<(String, String)>)
    ensures
        r@.len() == 2,
        r@[0].0@ == "error"@,
        r@[0].1@ == "Page not found"@,
        r@[1].0@ == "status_code"@,
        r@[1].1@ == status_digits(NOT_FOUND_STATUS),
{
    error_bindings(NOT_FOUND_STATUS, "Page not found")
}

/// The page for a request that matched no route: `error_page_from` with
/// status 404 and the message "Page not found", given the outcome of
/// rendering `error.html` with `not_found_bindings()`.
pub fn not_found_page(rendered: Option<String>) -> (r: Page)
    ensures
        r.status == NOT_FOUND_STATUS,
        rendered matches Some(html) ==> r.content_type is Html && r.body@ == html@,
        rendered is None ==> r.content_type is PlainText && r.body@ == "Page not found"@,
{
    error_page_from(NOT_FOUND_STATUS, "Page not found", rendered)
}

/// The index page: the rendered HTML with status 200, or status 500 with a
/// short plain-text message naming what failed.
pub fn index_page(rendered: Result<String, IndexFailure>) -> (r: Page)
    ensures
        rendered matches Ok(html) ==> r.status == OK_STATUS && r.content_type is Html && r.body@
            == html@,
        rendered matches Err(IndexFailure::Template) ==> r.status == INTERNAL_ERROR_STATUS
            && r.content_type is PlainText && r.body@ == "Template error"@,
        rendered matches Err(IndexFailure::Projects) ==> r.status == INTERNAL_ERROR_STATUS
            && r.content_type is PlainText && r.body@ == "Project list unavailable"@,
{
    match rendered {
        Ok(html) => Page { status: OK_STATUS, content_type: ContentType::Html, body: html },
        Err(IndexFailure::Template) => Page {
            status: INTERNAL_ERROR_STATUS,
            content_type: ContentType::PlainText,
            body: String::from_str("Template error"),
        },
        Err(IndexFailure::Projects) => Page {
            status: INTERNAL_ERROR_STATUS,
            content_type: ContentType::PlainText,
            body: String::from_str("Project list unavailable"),
        },
    }
}

} // verus!
