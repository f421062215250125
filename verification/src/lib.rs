//! Backend-agnostic access layer for a source-code indexing and
//! cross-reference search engine.
//!
//! The crate provides the unified error taxonomy that every backend reports
//! failures in, the plain result data model returned by search operations,
//! and the capability contract that any backend (local on-disk index,
//! remote index server, in-memory test fixture) must satisfy.

pub mod errors;
pub mod results;
pub mod ident;
pub mod json;
pub mod regexp;
pub mod contract;
pub mod laws;
pub mod fixture;

pub use contract::AbstractServer;
pub use contract::HtmlFileRoot;
pub use contract::SearchfoxIndexRoot;
pub use errors::ErrorDetails;
pub use errors::ErrorLayer;
pub use errors::ServerError;
pub use results::FileMatch;
pub use results::FileMatches;
pub use results::TextBounds;
pub use results::TextMatchInFile;
pub use results::TextMatches;
pub use results::TextMatchesByFile;
pub use results::TreeInfo;
