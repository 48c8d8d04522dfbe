//! Sends one question to one of three conversational providers and turns
//! whatever comes back into a single, classified result.
pub mod dispatch;
pub mod json;
pub mod provider;
pub mod request;
pub mod response;
