//! Read-only Opto Sync MCP diagnostics: the catalogs, documents, limits and
//! lifecycle decisions of the server, each with its contract.

pub mod document_laws;
pub mod json;
pub mod knowledge;
pub mod observability;
pub mod parity;
pub mod runtime;
pub mod server;
pub mod text;
