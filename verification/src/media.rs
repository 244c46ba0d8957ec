pub mod laws;
pub mod library;
pub mod navigation;
pub mod session;
pub mod source;
