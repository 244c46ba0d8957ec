pub mod catalog;
pub mod data;
pub mod filesys;
pub mod text;
