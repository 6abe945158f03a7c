//! The responder: maps a request path and the configured greeting name to
//! a complete reply (status, content type and body).
//!
//! The name is placed into the page as it is, without HTML escaping: the
//! page is meant for a local, single-user demo, and a greeting that holds
//! markup is shown as markup. Every name therefore appears verbatim after
//! `Hello, ` in the page.

use vstd::prelude::*;
use vstd::string::StringExecFns;
use crate::text::same_text;

verus! {

/// The path of the greeting page.
pub const ROOT_PATH: &'static str = "/";

/// The path of the stylesheet.
pub const CSS_PATH: &'static str = "/css";

/// The name greeted when none is given at startup.
pub const DEFAULT_NAME: &'static str = "world";

/// `Content-Type` of the greeting page.
pub const HTML_TYPE: &'static str = "text/html;charset=utf-8";

/// `Content-Type` of the stylesheet.
pub const CSS_TYPE: &'static str = "text/css";

/// Body of the reply to an unknown path.
pub const NOT_FOUND_BODY: &'static str = "Not Found";

/// HTTP status of a served page or stylesheet.
pub const STATUS_OK: u16 = 200;

/// HTTP status of the reply to an unknown path.
pub const STATUS_NOT_FOUND: u16 = 404;

/// The words that precede the name in the page.
pub const GREETING: &'static str = "Hello, ";

/// The page up to the element that holds the greeting.
pub const PAGE_OPEN: &'static str = r#"
        <!DOCTYPE html>
        <html>
        <head>
            <title>Hello</title>
            <meta http-equiv="Content-Type" content="text/html; charset=utf-8">
            <link href="https://fonts.googleapis.com/css?family=Abril+Fatface" rel="stylesheet">
            <link href='/css' rel='stylesheet' type='text/css'>
        </head>
        <body>
            <div>"#;

/// The page after the greeted name.
pub const PAGE_CLOSE: &'static str = r#"</div>
        </body>
        </html>
    "#;

/// The stylesheet up to its background declaration: large display-font
/// text, centred over the whole viewport.
pub const STYLE_OPEN: &'static str = r#"
        body {
            position: absolute;
            top: 0; left: 0; right: 0; bottom: 0;
            font-family: 'Abril Fatface', cursive;
            font-size: 72pt;
            text-align: center;
            display: flex;
            justify-content: center;
            align-items: center;
            "#;

/// The stylesheet's background declaration: orange.
pub const BACKGROUND_RULE: &'static str = "background-color: #ef4723";

/// The rest of the stylesheet: white text.
pub const STYLE_CLOSE: &'static str = r#";
            color: #fff;
        }
    "#;

/// A reply to one request. A reply without a content type leaves the header
/// to the server's default.
pub struct Reply {
    pub status: u16,
    pub content_type: Option<String>,
    pub body: String,
}

/// What a [`Reply`] is, as text.
pub struct ReplyView {
    pub status: u16,
    pub content_type: Option<Seq<char>>,
    pub body: Seq<char>,
}

impl View for Reply {
    type V = ReplyView;

    open spec fn view(&self) -> ReplyView {
        ReplyView {
            status: self.status,
            content_type: match self.content_type {
                Some(t) => Some(t@),
                None => None,
            },
            body: self.body@,
        }
    }
}

/// The greeting page for `name`.
pub open spec fn hello_page(name: Seq<char>) -> Seq<char> {
    PAGE_OPEN@ + GREETING@ + name + PAGE_CLOSE@
}

/// The reply at the root path.
pub open spec fn hello_reply(name: Seq<char>) -> ReplyView {
    ReplyView { status: STATUS_OK, content_type: Some(HTML_TYPE@), body: hello_page(name) }
}

/// The stylesheet.
pub open spec fn stylesheet() -> Seq<char> {
    STYLE_OPEN@ + BACKGROUND_RULE@ + STYLE_CLOSE@
}

/// The reply at the stylesheet path.
pub open spec fn css_reply() -> ReplyView {
    ReplyView { status: STATUS_OK, content_type: Some(CSS_TYPE@), body: stylesheet() }
}

/// The reply at any other path.
pub open spec fn not_found_reply() -> ReplyView {
    ReplyView { status: STATUS_NOT_FOUND, content_type: None, body: NOT_FOUND_BODY@ }
}

/// The reply to a request for `path` when `name` is greeted: dispatch is an
/// exact match on the whole path.
pub open spec fn reply_for(path: Seq<char>, name: Seq<char>) -> ReplyView {
    if path == ROOT_PATH@ {
        hello_reply(name)
    } else if path == CSS_PATH@ {
        css_reply()
    } else {
        not_found_reply()
    }
}

/// The greeted name, given the optional startup argument.
pub open spec fn name_from_arg(arg: Option<Seq<char>>) -> Seq<char> {
    match arg {
        Some(a) => a,
        None => DEFAULT_NAME@,
    }
}

/// The name to greet: the startup argument when there is one, else
/// [`DEFAULT_NAME`].
pub fn greeting_name(arg: Option<String>) -> (r: String)
    ensures
        r@ == name_from_arg(
            match arg {
                Some(a) => Some(a@),
                None => None,
            },
        ),
{
    match arg {
        Some(a) => a,
        None => DEFAULT_NAME.to_owned(),
    }
}

/// The greeting page, served as HTML.
pub fn serve_hello(name: &str) -> (r: Reply)
    ensures
        r@ == hello_reply(name@),
{
    let mut body = PAGE_OPEN.to_owned();
    body.append(GREETING);
    body.append(name);
    body.append(PAGE_CLOSE);
    Reply { status: STATUS_OK, content_type: Some(HTML_TYPE.to_owned()), body }
}

/// The stylesheet, served as CSS.
pub fn serve_css() -> (r: Reply)
    ensures
        r@ == css_reply(),
{
    let mut body = STYLE_OPEN.to_owned();
    body.append(BACKGROUND_RULE);
    body.append(STYLE_CLOSE);
    Reply { status: STATUS_OK, content_type: Some(CSS_TYPE.to_owned()), body }
}

/// The reply to a request for `path`, greeting `name` on the page.
pub fn serve_content(path: &str, name: &str) -> (r: Reply)
    ensures
        r@ == reply_for(path@, name@),
        path@ == ROOT_PATH@ ==> r@ == hello_reply(name@),
        path@ == CSS_PATH@ ==> r@ == css_reply(),
        path@ != ROOT_PATH@ && path@ != CSS_PATH@ ==> r@ == not_found_reply(),
{
    proof {
        reveal_strlit("/");
        reveal_strlit("/css");
        assert(ROOT_PATH@.len() != CSS_PATH@.len());
    }
    if same_text(path, ROOT_PATH) {
        serve_hello(name)
    } else if same_text(path, CSS_PATH) {
        serve_css()
    } else {
        Reply {
            status: STATUS_NOT_FOUND,
            content_type: None,
            body: NOT_FOUND_BODY.to_owned(),
        }
    }
}

} // verus!
