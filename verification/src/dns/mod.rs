//! The resolver's DNS logic: names, the parts of a response that steer a
//! resolution, the resolution itself, and the reply to a client.

pub mod name;
pub mod response;
pub mod wire;
pub mod resolve;
pub mod reply;
