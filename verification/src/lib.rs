pub mod address;
pub mod address_book;
pub mod fees;
pub mod manager;
pub mod pro;
pub mod text;
pub mod user_profile;
