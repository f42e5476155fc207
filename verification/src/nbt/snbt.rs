pub mod de;
pub mod reread;
pub mod ser;
