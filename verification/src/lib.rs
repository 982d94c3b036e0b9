//! Small verified utilities: integer arithmetic, a generic maximum scan,
//! linear search, string helpers, simple geometry, and a summary trait.

pub mod arith;
pub mod geometry;
pub mod my_module;
pub mod search;
pub mod summary;
pub mod text;
