//! Method override adapter for HTTP requests.
//!
//! HTML forms can only submit GET and POST requests, while a
//! semantically-correct backend expects the fuller verb vocabulary
//! (PUT, PATCH, DELETE). This library rewrites the method of an
//! incoming POST request when the request's query string carries a
//! `_method` parameter naming one of those three verbs; every other
//! request passes through unchanged.
//!
//! The `_method` parameter can be supplied by an HTML form like so:
//!
//! ```text
//! <form method="POST" action="/item/1?_method=DELETE">
//!   <button type="submit">Delete item</button>
//! </form>
//! ```

pub mod adapter;
pub mod laws;
pub mod method;
pub mod query;
