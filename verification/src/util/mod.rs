pub mod decimal;
pub mod json;
pub mod key_str;
pub mod num;
pub mod str_map;
pub mod text;
