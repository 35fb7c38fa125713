//! A safe, verified core for a bridge to an embedded production-rule
//! inference engine.
//!
//! The engine itself lives behind a C ABI and owns a mutable runtime graph
//! of facts, instances and slots.  Everything the bridge decides — how a
//! set of admissible value kinds is rendered into the engine's type-
//! constraint string, how the engine's tagged-union values are converted
//! to and from safe host values, how engine status codes are mapped to
//! typed errors, how the registry of user-defined functions is kept
//! consistent, and when a cursor walk over an engine-owned list stops —
//! is implemented and specified here.  The raw calls into the engine are
//! confined to an unverified shell that feeds plain values (status codes,
//! handles, tagged payloads) into these functions and carries their
//! results back to the engine.

pub mod cursor;
pub mod env;
pub mod error;
pub mod slots;
pub mod types;
pub mod value;

pub use cursor::Cursor;
pub use env::create_environment;
pub use env::Environment;
pub use env::SaveScope;
pub use env::UdfDecl;
pub use error::ClipsError;
pub use error::ClipsErrorKind;
pub use slots::InstanceSlot;
pub use types::Type;
pub use value::ClipsValue;
pub use value::ExternalAddress;
pub use value::Fact;
pub use value::Instance;
pub use value::RawValue;
