//! What holds of the operations when they are driven against the model world.

pub mod conceal;
pub mod extract;
pub mod install;
pub mod presence;
