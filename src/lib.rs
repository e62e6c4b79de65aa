//! Model selection and layered options for a chat-completion backend.
//!
//! [`Model`] names the model an invocation targets: one of the well-known
//! models, or any other name carried verbatim. [`PerInvocation`] and
//! [`PerExecutor`] are the two option records built around it.
pub mod model;
pub mod options;

pub use model::{Model, ModelView};
pub use options::{PerExecutor, PerInvocation};
