pub mod cli;
pub mod client;
pub mod commons;
pub mod httptools;
pub mod management;
pub mod protocol;
pub mod server;
pub mod sync;
