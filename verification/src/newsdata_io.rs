//! The credential, the request that is sent, and the classification of the
//! answer.

pub mod auth;
pub mod json;
pub mod requests;
pub mod response;

pub use auth::Auth;
pub use requests::Request;
pub use response::{deal_response, dispatch, TransportOutcome};
