//! Credential lifecycle management and streamed-response decoding for a
//! terminal command assistant.
//!
//! The library holds the verified core: the credential store document and its
//! read-merge-write discipline, the device-authorization poll classification,
//! the token-exchange decision machine, the event-stream proposal decoder,
//! and the prompt construction. Network and file I/O live outside and hand
//! these functions plain values.

pub mod decode;
pub mod device;
pub mod prompt;
pub mod store;
pub mod text;
pub mod token;
