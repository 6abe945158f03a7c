use hello::responder::{greeting_name, serve_content, serve_css, serve_hello, Reply};
use hello::text::same_text;

const ADA_PAGE: &str = r###"
        <!DOCTYPE html>
        <html>
        <head>
            <title>Hello</title>
            <meta http-equiv="Content-Type" content="text/html; charset=utf-8">
            <link href="https://fonts.googleapis.com/css?family=Abril+Fatface" rel="stylesheet">
            <link href='/css' rel='stylesheet' type='text/css'>
        </head>
        <body>
            <div>Hello, Ada</div>
        </body>
        </html>
    "###;

const STYLESHEET: &str = r###"
        body {
            position: absolute;
            top: 0; left: 0; right: 0; bottom: 0;
            font-family: 'Abril Fatface', cursive;
            font-size: 72pt;
            text-align: center;
            display: flex;
            justify-content: center;
            align-items: center;
            background-color: #ef4723;
            color: #fff;
        }
    "###;

fn assert_not_found(r: &Reply) {
    assert_eq!(r.status, 404);
    assert_eq!(r.body, "Not Found");
    assert_eq!(r.content_type, None);
}

#[test]
fn root_greets_any_name() {
    for name in ["Ada", "", "world", "<b>Bob</b>", "Zoë 🦀", "a b\nc"] {
        let r = serve_content("/", name);
        assert_eq!(r.status, 200);
        assert!(r.body.contains(&format!("Hello, {}", name)));
        assert_eq!(r.content_type.as_deref(), Some("text/html;charset=utf-8"));
    }
}

#[test]
fn name_is_not_escaped() {
    let r = serve_content("/", "<script>x</script>");
    assert!(r.body.contains("<div>Hello, <script>x</script></div>"));
}

#[test]
fn default_name_is_world() {
    let name = greeting_name(None);
    assert_eq!(name, "world");
    let r = serve_content("/", &name);
    assert_eq!(r.status, 200);
    assert!(r.body.contains("Hello, world"));
}

#[test]
fn argument_overrides_default_name() {
    assert_eq!(greeting_name(Some("Ada".to_string())), "Ada");
    assert_eq!(greeting_name(Some(String::new())), "");
}

#[test]
fn css_is_served_whatever_the_name() {
    for name in ["Ada", "world", ""] {
        let r = serve_content("/css", name);
        assert_eq!(r.status, 200);
        assert_eq!(r.content_type.as_deref(), Some("text/css"));
        assert!(r.body.contains("background-color: #ef4723"));
    }
}

#[test]
fn other_paths_are_not_found() {
    for path in ["/foo", "/css/", "/Css", "", "//", "/?x=1", "/css?x", " /", "/missing"] {
        assert_not_found(&serve_content(path, "Ada"));
    }
}

#[test]
fn replies_are_deterministic() {
    for path in ["/", "/css", "/foo"] {
        let a = serve_content(path, "Ada");
        let b = serve_content(path, "Ada");
        assert_eq!(a.status, b.status);
        assert_eq!(a.content_type, b.content_type);
        assert_eq!(a.body.as_bytes(), b.body.as_bytes());
    }
}

#[test]
fn scenario_ada() {
    let name = greeting_name(Some("Ada".to_string()));
    let r = serve_content("/", &name);
    assert_eq!(r.status, 200);
    assert!(r.body.contains("Hello, Ada"));
    let r = serve_content("/css", &name);
    assert_eq!(r.status, 200);
    assert!(r.body.contains("font-family: 'Abril Fatface', cursive"));
    let r = serve_content("/missing", &name);
    assert_eq!(r.status, 404);
    assert_eq!(r.body, "Not Found");
}

#[test]
fn page_text_is_exact() {
    let r = serve_hello("Ada");
    assert_eq!(r.status, 200);
    assert_eq!(r.body, ADA_PAGE);
    assert_eq!(serve_content("/", "Ada").body, ADA_PAGE);
}

#[test]
fn stylesheet_text_is_exact() {
    let r = serve_css();
    assert_eq!(r.status, 200);
    assert_eq!(r.content_type.as_deref(), Some("text/css"));
    assert_eq!(r.body, STYLESHEET);
}

#[test]
fn same_text_compares_exactly() {
    assert!(same_text("", ""));
    assert!(same_text("/css", "/css"));
    assert!(!same_text("/css", "/Css"));
    assert!(!same_text("/css", "/css/"));
    assert!(!same_text("/", ""));
    assert!(same_text("Zoë", "Zoë"));
    assert!(!same_text("Zoë", "Zoe"));
}
