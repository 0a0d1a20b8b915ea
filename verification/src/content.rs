//! What the generator writes for one resource.

pub mod model;
pub mod prisma;
