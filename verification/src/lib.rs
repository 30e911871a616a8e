//! Asset management core: classification of uploads, object keys and
//! public URLs, the upload and deletion workflows as verified state
//! machines, and the mapping of failures to client replies.

pub mod text;
pub mod domain;
pub mod imaging;
pub mod ids;
pub mod layout;
pub mod ingest;
pub mod media;
pub mod publish;
pub mod intake;
pub mod service;
pub mod config;
