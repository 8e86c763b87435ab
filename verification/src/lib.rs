//! A notification-banner library: transient, positioned, styleable "toast"
//! messages, managed through a broadcast channel, per-corner ordered
//! collections with monotonic id assignment, and a per-notification
//! animation lifecycle state machine.

pub mod agent;
pub mod collection;
pub mod consumer;
pub mod notification;
pub mod properties;
pub mod service;

pub use agent::NotificationAgent;
pub use agent::NotificationAgentInput;
pub use agent::NotificationAgentOutput;
pub use consumer::NotificationConsumer;
pub use notification::Notification;
pub use notification::NotificationProps;
pub use properties::Color;
pub use properties::Position;
pub use properties::Size;
pub use service::NotificationService;
