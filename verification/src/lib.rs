//! Classification of enum variants for error-level reporting, and generation
//! of the dispatch code that maps each variant to its severity.
//!
//! Given a description of an enumerated type (its name, its variants, each
//! variant's attributes and field shape), the library sorts every variant into
//! one of three groups: explicitly leveled through a `level(...)` attribute,
//! delegating to a single wrapped named type, or invalid. From the groups it
//! emits the text of an `ErrorLevel` impl together with a diagnostic for every
//! invalid variant.

pub mod classify;
pub mod dispatch;
pub mod emit;
pub mod laws;
pub mod level;
pub mod model;

pub use level::Level;
