pub mod server_state;
