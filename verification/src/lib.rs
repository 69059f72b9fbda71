//! Retrieval-augmented question answering for a rug-domain chat assistant.
//!
//! The library holds the verified logic of the pipeline: building the JSON
//! bodies sent to the embedding endpoint and to the vector store's scroll
//! endpoint, extracting the embedding vector and the retrieved context from
//! the responses, rendering role-tagged prompt messages from templates, and
//! the step-by-step decisions of the two user-facing handlers. The HTTP
//! calls themselves, and the decoding of response bytes into plain values,
//! live outside the library in the application shell.

pub mod database;
pub mod embedding;
pub mod handlers;
pub mod json;
pub mod prompt;
pub mod text;
