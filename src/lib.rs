//! Layout of the object and value pools that a dispatch benchmark walks:
//! which kind of operation stands at each position, how many values a pool
//! of objects needs, and which two values each object consumes.
pub mod layout;
pub mod pool;
