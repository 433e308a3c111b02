//! Request/response calls to a robot controller over a publish/subscribe bus.
//!
//! The bus offers no request/response primitive of its own: each call carries a
//! fresh correlation id, is published on a request topic, and is resolved by the
//! first reply on the shared response topic that echoes that id with a final
//! (non-pending) status, or by its deadline.

pub mod ai;
pub mod b1;
pub mod call;
pub mod commands;
pub mod coded;
pub mod discovery;
pub mod dispatcher;
pub mod envelope;
pub mod json;
pub mod light_control;
pub mod low_level;
pub mod motor;
pub mod options;
pub mod robot;
pub mod status;
pub mod text;
pub mod topic;
pub mod vision;
pub mod x5_camera;
