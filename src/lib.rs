pub mod bound;
pub mod bounds;
pub mod comparison;
pub mod laws;
pub mod scalar;
pub mod sign_bounds;

pub use crate::bound::{Bound, BoundType};
pub use crate::bounds::Bounds;
pub use crate::comparison::Comparison;
pub use crate::scalar::Scalar;
pub use crate::sign_bounds::SignBounds;
