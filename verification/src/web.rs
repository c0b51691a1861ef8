//! What the webhook endpoints decide.

pub mod github;
