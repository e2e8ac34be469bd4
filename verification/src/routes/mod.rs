pub mod subscriptions;

pub use subscriptions::{stored_reply, subscribe_step, FormData, HttpReply, SubscribeStep};
