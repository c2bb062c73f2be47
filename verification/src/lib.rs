//! Verified core of the Avix gateway and kernel: access-control rules,
//! protocol types, event scoping, framing, job and approval state machines.

pub mod text;
pub mod types;
pub mod json;
pub mod atp;
pub mod acl;
pub mod event_bus;
pub mod translator;
pub mod error;
pub mod ipc_frame;
pub mod platform;
pub mod ipc_message;
pub mod validator;
pub mod handlers;
pub mod test_router;
pub mod ids;
pub mod jobs;
pub mod kernel_ipc;
pub mod signals;
pub mod capability;
pub mod token;
pub mod spawn;
pub mod resource;
pub mod seqs;
pub mod keyed;
pub mod approvals;
pub mod hil;
pub mod invocation;
pub mod conversation;
pub mod history;
pub mod agents;
pub mod recovery;
pub mod session_manager;
pub mod connection;
