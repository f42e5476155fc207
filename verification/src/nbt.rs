pub mod buffers;
pub mod cesu8;
pub mod compound;
pub mod deserialize;
pub mod error;
pub mod laws;
pub mod order;
pub mod ordering;
pub mod reading;
pub mod roundtrip;
pub mod snbt;
pub mod tag;
pub mod uuid;
