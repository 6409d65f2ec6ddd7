//! A guided, screen-by-screen resume builder.
//!
//! The crate holds the wizard's state machine and its selection model: the
//! screens, the key-driven transitions between them, the cursor and inclusion
//! flags of each list, the projection of the curated data into the payload
//! that a document renderer consumes, and that payload as the dictionary of
//! inputs of a document template. Reading files, drawing the terminal and
//! compiling the document are left to the caller.

pub mod app;
pub mod app_laws;
pub mod inputs;
pub mod inputs_laws;
pub mod models;
pub mod ui;
