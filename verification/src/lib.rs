pub mod combiner;
pub mod codec;
