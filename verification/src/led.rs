pub mod interface;
pub mod pixel;
pub mod test_pattern;
pub mod row_major;
