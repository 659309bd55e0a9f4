pub mod codec;
pub mod error;
pub mod handler;
pub mod health;
pub mod ingest;
pub mod mime;
pub mod text;
