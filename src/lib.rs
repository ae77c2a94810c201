pub mod clipboard;
pub mod dnd;
pub mod extraction;
pub mod feed;
pub mod json;
pub mod pages;
