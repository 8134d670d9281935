//! An in-process actor runtime: a typed message bus over which independently
//! scheduled components communicate through fire-and-forget broadcasts and
//! request/response calls, routed by a supervisor that owns the component
//! registry and the callback-ownership table.

pub mod app;
pub mod channels;
pub mod component;
pub mod editor;
pub mod errors;
pub mod events;
pub mod message;
pub mod payload;
pub mod text;

pub use app::App;
pub use app::Buffer;
pub use app::DispatchReport;
pub use component::ComponentHandler;
pub use component::ComponentId;
pub use component::Context;
pub use component::PendingCall;
pub use errors::BusError;
pub use events::TerminalEvent;
pub use message::CallResponse;
pub use message::Message;
pub use message::ResponseSender;
pub use payload::TypedValue;
