//! The sampling engine: the ring buffer that the kernel fills, the records
//! in it, and the session that drains it.

pub mod cursor;
pub mod decode;
pub mod driver;
pub mod encode;
pub mod header;
pub mod layout;
pub mod record;
pub mod ring_buffer;
pub mod stream;
