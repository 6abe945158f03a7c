//! Laws of the responder, stated over its model `reply_for`, which
//! `serve_content` meets exactly (its reply's view is `reply_for` of the
//! request path and the greeted name).

use vstd::prelude::*;
use vstd::utf8::encode_utf8;
use crate::responder::{
    css_reply, hello_page, name_from_arg, reply_for, ReplyView, BACKGROUND_RULE, CSS_PATH,
    DEFAULT_NAME, GREETING, PAGE_OPEN, ROOT_PATH, STYLE_OPEN,
};
use crate::text::contains;

verus! {

/// The paths `/` and `/css` are distinct.
proof fn lemma_paths_differ()
    ensures
        ROOT_PATH@ != CSS_PATH@,
{
    reveal_strlit("/");
    reveal_strlit("/css");
    assert(ROOT_PATH@.len() != CSS_PATH@.len());
}

/// Whatever name is greeted, the root path is served with status 200 and
/// the page holds `Hello, ` followed by the name, verbatim.
pub proof fn lemma_root_greets_name(name: Seq<char>)
    ensures
        reply_for("/"@, name).status == 200,
        contains(reply_for("/"@, name).body, "Hello, "@ + name),
{
    let page = hello_page(name);
    let i = PAGE_OPEN@.len() as int;
    let needle = GREETING@ + name;
    assert(page.subrange(i, i + needle.len()) =~= needle);
}

/// Without a startup argument the root page greets the world:
/// it holds `Hello, world`.
pub proof fn lemma_default_greets_world()
    ensures
        contains(reply_for("/"@, name_from_arg(None)).body, "Hello, world"@),
{
    lemma_root_greets_name(DEFAULT_NAME@);
    reveal_strlit("Hello, ");
    reveal_strlit("world");
    reveal_strlit("Hello, world");
    assert(GREETING@ + DEFAULT_NAME@ =~= "Hello, world"@);
}

/// Whatever name is greeted, `/css` is served with status 200, content
/// type `text/css`, and a body that sets the background to `#ef4723`.
pub proof fn lemma_css_served(name: Seq<char>)
    ensures
        reply_for("/css"@, name).status == 200,
        reply_for("/css"@, name).content_type == Some("text/css"@),
        contains(reply_for("/css"@, name).body, "background-color: #ef4723"@),
{
    lemma_paths_differ();
    let body = css_reply().body;
    let i = STYLE_OPEN@.len() as int;
    assert(body.subrange(i, i + BACKGROUND_RULE@.len()) =~= BACKGROUND_RULE@);
}

/// Every path other than `/` and `/css`, compared exactly (so `/css/` and
/// `/Css` too), gets status 404 and the body `Not Found`, whatever name is
/// greeted.
pub proof fn lemma_other_paths_not_found(path: Seq<char>, name: Seq<char>)
    requires
        path != "/"@,
        path != "/css"@,
    ensures
        reply_for(path, name).status == 404,
        reply_for(path, name).body == "Not Found"@,
{
}

/// Replies are a function of the path and the name alone: two replies to
/// the same path under the same name are equal, down to the bytes of
/// their bodies.
pub proof fn lemma_reply_deterministic(
    path: Seq<char>,
    name: Seq<char>,
    a: ReplyView,
    b: ReplyView,
)
    requires
        a == reply_for(path, name),
        b == reply_for(path, name),
    ensures
        a == b,
        encode_utf8(a.body) == encode_utf8(b.body),
{
}

} // verus!
