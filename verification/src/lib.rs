pub mod models;
pub mod wire;
pub mod decode;
pub mod queries;
pub mod table;
pub mod store;
pub mod session;
pub mod ingest;
pub mod push;
pub mod hashing;
pub mod cleaner;
