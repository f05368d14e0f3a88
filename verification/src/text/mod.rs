//! Text helpers over UTF-8 byte offsets: cursor navigation, newline
//! normalization, splicing between char boundaries, and the small ASCII
//! encodings used for names and paths.

pub mod encoding;
pub mod navigation;
pub mod path_key;
pub mod splice;
