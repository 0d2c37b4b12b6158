//! Runtime introspection and hooking for an embedded entity-component
//! simulation engine: resolving a target function's relocation-independent
//! offset from its debug symbols, bookkeeping an inline hook on the live
//! image, deciding when an observed call triggers a snapshot, and
//! rendering byte-faithful text dumps of the world's resources,
//! archetypes, schedule graph and systems.


pub mod dump;
pub mod gate;
pub mod hook;
pub mod offsets;
pub mod runtime;
pub mod text;
pub mod world;

pub use offsets::exe_space;
