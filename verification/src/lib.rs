//! Named Binary Tag (NBT) values: their binary form, written and read back, their order, and
//! the reading of their text form, SNBT.
pub mod error;
pub mod nbt;
