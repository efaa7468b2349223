//! An embeddable WebSocket server engine, without the sockets.
//!
//! The crate holds the decisions of the engine and the bridge through which a
//! host application drives it: the payload model, the per-connection and
//! accept-loop state machines, the lock-protected state registry with its
//! best-effort error slot, and the synchronous control surface that works on
//! the channel endpoints stored in the registry.  Binding a listener, the
//! WebSocket handshake and every await are left to the program around it.

pub mod channels;
pub mod collector;
pub mod errors;
pub mod forwarder;
pub mod locks;
pub mod message;
pub mod registry;
pub mod server;
pub mod supervisor;

pub use errors::try_get_last_error;
pub use errors::weakly_record_error;
pub use errors::ErrorSlot;
pub use message::Frame;
pub use message::MessagePayload;
pub use registry::mutate;
pub use registry::read;
pub use registry::set_value;
pub use registry::StateCell;
pub use server::drain_client_messages;
pub use server::drain_new_client_events;
pub use server::get_last_error_string;
pub use server::is_server_running;
pub use server::shutdown_server;
pub use server::start;
pub use server::start_server;
pub use server::try_send_messages;
pub use server::ConsumerState;
pub use server::EngineEndpoints;
pub use server::ServerContext;
