//! Block parameters that ABCI messages refer to.

pub mod height;
pub mod size;

pub use height::Height;
pub use size::Size;
