//! Request routing core of a server-side-rendering web server: a pure route
//! classifier, the static-asset routing beside it, the readiness-gated
//! dispatcher that multiplexes a page renderer and a static-file server, the
//! blog catalogue, and the assembly of the rendered HTML page.
pub mod assets;
pub mod blog;
pub mod dispatch;
pub mod page;
pub mod routes;
pub mod text;
