pub mod messages;
pub mod stream;
