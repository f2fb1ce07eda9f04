//! Client-side core of the eNet gateway control protocol: length-delimited
//! JSON framing, typed requests and responses, the command correlator, the
//! event-subscription state machine, and the device inventory model.

pub mod client;
pub mod cmd;
pub mod con;
pub mod dev;
pub mod enc;
pub mod inventory;
pub mod json;
pub mod proj;
pub mod req;
pub mod room;
pub mod res;
pub mod evt;
pub mod text;
pub mod update;
pub mod ver;
