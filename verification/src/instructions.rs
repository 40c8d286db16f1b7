pub mod delist;
pub mod list;
pub mod purchase;
