//! Newsletter subscription core: validated subscriber identities, the
//! email-dispatch request builder, and the subscription workflow state
//! machine, with machine-checked contracts.

pub mod domain;
pub mod email_client;
pub mod subscription;
pub mod text;
