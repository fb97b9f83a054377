//! Conversion between record streams and the Arrow columnar layout.
//!
//! - `tracer` and `from_type` infer a schema from sample values or from a
//!   self-description of a type;
//! - `builder` writes records into columns, `deserializer` and `reader`
//!   read columns back;
//! - `bit_buffer` and `offsets` are the validity and offset buffers under
//!   both;
//! - `laws` states what holds of every column and schema produced.

pub mod error;
pub mod bit_buffer;
pub mod offsets;
pub mod reader;
pub mod schema;
pub mod dates;
pub mod tracer;
pub mod from_type;
pub mod builder;
pub mod deserializer;
pub mod laws;
