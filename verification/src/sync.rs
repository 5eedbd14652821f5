pub mod channels;
pub mod coordinator;
pub mod distributed;
pub mod pubsub;
