pub mod arrays;
pub mod integers;
pub mod names;
pub mod numbers;
pub mod strings;
pub mod utils;
pub mod values;
