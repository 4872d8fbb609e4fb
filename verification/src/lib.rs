//! The core of an on-demand development server for JavaScript modules.
//!
//! A browser can fetch `./b.js` or `/lib/c.js` by itself, but not
//! `left-pad`: a bare specifier names a package, and where the package lies
//! is known on the server alone. So each script is compiled as it is asked
//! for: it is parsed, every bare specifier in it is resolved to a file and
//! rewritten into the URL path of that file, and the result is emitted as
//! text of the configured language level.
//!
//! - `specifier` tells relative, absolute and bare specifiers apart.
//! - `resolve` puts a bare specifier to the package lookup and says what its
//!   answers mean.
//! - `url_path` rewrites the path of a file into its URL path below the root.
//! - `rewrite` is the pass that rewrites the specifiers of a module.
//! - `compiler` parses and emits modules.
//! - `transpile` ties the steps together and names their failures.
//! - `serve` decides what to answer to a request.

pub mod compiler;
pub mod resolve;
pub mod rewrite;
pub mod serve;
pub mod specifier;
mod text;
pub mod transpile;
pub mod url_path;
