//! Publishing local files as a gist: request building, selective staging,
//! commit construction and the authenticated push.

pub mod commit;
pub mod credential;
pub mod error;
pub mod gist;
pub mod git;
pub mod remote;
pub mod request;
pub mod status;
