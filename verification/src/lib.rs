//! Server start-up of a database frontend, the TLS configuration of its
//! protocol servers, and the procedure that alters logical tables.
pub mod alter_logical_tables;
pub mod sequences;
pub mod services;
pub mod tls;
