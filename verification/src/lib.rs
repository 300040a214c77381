//! A leader-based uniform consensus engine.
//!
//! Several processes, each running a copy of this library, decide on a single
//! integer value per consensus instance in the presence of crash faults. The
//! engine is the classical modular stack: an eventually perfect failure
//! detector feeding an eventual leader detector, an epoch-change oracle, a
//! read/write epoch-consensus instance per epoch, and a uniform-consensus
//! controller on top, all exchanging events over an in-process bus and
//! messages over point-to-point links.
//!
//! Every module is a pure state machine: a handler consumes one event and
//! returns the events and outputs it produces. The surrounding binary owns
//! the sockets and timers; it feeds inbound messages and timer fires into a
//! [`process::Process`] and performs the outputs the process hands back.

pub mod app;
pub mod beb;
pub mod ec;
pub mod eld;
pub mod ep;
pub mod epfd;
pub mod event;
pub mod message;
pub mod node;
pub mod pl;
pub mod process;
pub mod sys;
pub mod uc;

pub use node::Node;
pub use node::NodeId;
pub use node::NodeInfo;
