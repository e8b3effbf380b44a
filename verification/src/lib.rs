pub mod buffer;
pub mod error;
pub mod processor;
pub mod text;

pub use buffer::SentencePieceBuffer;
pub use error::SentencePieceError;
pub use processor::SentencePieceProcessor;
