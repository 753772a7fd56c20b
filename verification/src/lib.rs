//! A codec for the records of a message broker's log: the record itself, its
//! length-prefixed wire format, and the zigzag varints that the format is
//! made of.

pub mod buf;
pub mod record;
pub mod util;
pub mod varint;

pub use record::Headers;
pub use record::Record;
pub use record::RecordView;
pub use util::PutError;
pub use util::VarintPut;
pub use util::VarintSize;
