//! The resume data, the selection lists that hold it, and the payload that is
//! derived from both.

pub mod resume;
pub mod selection;
pub mod selection_laws;
pub mod types;
