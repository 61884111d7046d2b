//! Domain types of an Android device-analysis toolkit: a three-valued boolean,
//! Java/smali class names, device paths with their squashed file-name form,
//! and the rows of the device and call-graph databases.

pub mod db;
pub mod text;
pub mod unknownbool;
pub mod utils;

pub use unknownbool::UnknownBool;
