//! The two services, the shapes of their requests and replies, and the
//! statuses they answer with.

pub mod cm;
pub mod status;
pub mod subscription;
pub mod cm_token;
pub mod cm_message;
