pub mod address;
pub mod attributes;
pub mod failure;
pub mod laws;
pub mod list;
pub mod machine;
pub mod mkdir;
pub mod path;
pub mod presence;
pub mod probe;
pub mod read;
pub mod remote;
pub mod rename;
pub mod request;
pub mod rm;
pub mod stat;
pub mod stats;
pub mod status;
pub mod text;
pub mod time;
pub mod write;
