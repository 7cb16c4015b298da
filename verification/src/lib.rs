//! A synthetic traffic generator core: a pull-based producer of pseudorandom
//! byte streams of a caller-chosen length, and a bounded sink that drains an
//! inbound byte stream up to a configured cap, reporting whether the stream
//! was consumed completely, truncated at the cap, or failed mid-stream.

pub mod decimal;
pub mod http;
pub mod producer;
pub mod sink;

pub use http::put;
pub use http::upload;
pub use http::upload_reply;
pub use producer::RandomByteProducer;
pub use sink::BoundedSink;
pub use sink::ConsumeOutcome;
pub use sink::DEFAULT_BYTE_CAP;
