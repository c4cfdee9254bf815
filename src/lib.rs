//! Newsletter subscriptions: validated subscriber identity, the confirmation
//! workflow, outbound email requests and the newsletter fan-out.

pub mod admin;
pub mod configuration;
pub mod domain;
pub mod email_client;
pub mod intake;
pub mod newsletters;
pub mod secret;
pub mod subscription;
