//! Verified core of a bridge between a host application and the Typst engine.
//!
//! A host hands over markup and gets back a rendering, or the diagnostics of
//! the failure with lines and columns in its own text. This crate holds what
//! is decided on the way: the preamble put in front of the markup, the
//! remapping of the engine's positions, the summary of a failure, and the
//! rules around the working directory. Compiling, rendering the document,
//! and touching the process, is left to the caller.

pub mod compilation;
pub mod decimal;
pub mod diagnostic;
pub mod engine;
pub mod preamble;
pub mod source_map;
pub mod text;
pub mod working_directory;

pub use compilation::{get_rendered_document, TypstCompilationError, PAGE_MARGIN_PT};
pub use diagnostic::{
    EngineDiagnostic, EngineSeverity, SourceDiagnosticResult, SourceDiagnosticResultSeverity,
};
pub use preamble::add_fallback_font;
pub use source_map::SourceMap;
pub use working_directory::{
    get_working_directory, has_well_formed_escapes, set_working_directory, DirectoryChange,
    DirectoryLookup, FailedToGetWorkingDirectory, FailedToSetWorkingDirectory,
};
