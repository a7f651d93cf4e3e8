//! Verified core of an HTTP Windows imaging tool: settings lookup, text
//! handling, system-information selection and the installation procedure.

pub mod text;
pub mod settings;
pub mod imaging;
pub mod system;
pub mod procedure;
