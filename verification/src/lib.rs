//! Recovers a native executable from a binary that embeds an
//! intermediate-representation bundle: locates the bundle section,
//! folds the bundle's manifest into a compile/link plan, resolves the
//! platform SDK and toolchain, and synthesizes the compiler and linker
//! command lines.  External tools (archive dump/extract, code
//! generator, linker, filesystem search) are driven by a thin host
//! around the pipeline state machine in `pipeline`.

pub mod context;
pub mod errors;
pub mod macho;
pub mod pipeline;
pub mod plan;
pub mod strutil;
pub mod xmlio;
