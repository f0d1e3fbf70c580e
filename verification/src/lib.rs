pub mod command;
pub mod db;
pub mod echo;
pub mod frame;
pub mod laws;
pub mod server;
pub mod ws;
