//! Fills missing credential fields of annotated key/value resources with
//! random values that meet per-field character constraints.
pub mod charset;
pub mod constraints;
pub mod draw;
pub mod settings;
pub mod decode;
pub mod yaml;
pub mod reconcile;
pub mod laws;
