//! The operations of the service, one module each.

pub mod audio;
pub mod common;
pub mod embeddings;
pub mod file;
pub mod generation;
pub mod image2image;
pub mod multi_modal_conversation;
pub mod multimodal_generation;
pub mod request;
pub mod task;
pub mod text2image;
pub mod validate;
pub mod ws_client;
