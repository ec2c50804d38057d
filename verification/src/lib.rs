//! Verified core of a bridge that calls script functions from a host program.
//!
//! The host owns a script engine. This library holds what the bridge decides:
//! how arguments are encoded, which snippet makes a call, what is done on the
//! engine and in which order, and what a call returns.

pub mod call_args;
pub mod call_compiler;
pub mod exposed_func;
pub mod js_error;
pub mod js_value;
pub mod module_load;
pub mod script;
pub mod timeout;

pub use call_args::{encode_args, join_arg_fragments};
pub use js_error::JsError;
pub use js_value::JsValue;
pub use script::{CallAction, CallEvent, CallProgress, PendingCall, Script};
pub use timeout::Timeout;
