//! Core state machine of a small file manager: directory listing order,
//! preview classification, modal-dialog coordination, selection and
//! clipboard tracking, and the decisions behind create / rename / delete /
//! copy / paste. Filesystem access itself is delegated to the host through
//! an effect protocol: every transition returns the next state together
//! with at most one filesystem request, and the host feeds the outcome
//! back in.

pub mod entry;
pub mod laws;
pub mod listing;
pub mod machine;
pub mod model;
pub mod paths;
pub mod protocol;
pub mod state;
pub mod text;
