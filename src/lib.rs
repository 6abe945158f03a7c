//! Request handling for a small greeting web server: a page at `/` that
//! greets a configured name, a stylesheet at `/css`, and `404 Not Found`
//! for every other path.

pub mod lemmas;
pub mod responder;
pub mod text;
