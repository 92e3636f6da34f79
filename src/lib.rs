//! Language-server glue for the mtlog analyzer: locating the `mtlog-lsp`
//! binary on a developer machine and turning editor settings into the
//! analyzer's initialization options.

pub mod options;
pub mod resolver;
