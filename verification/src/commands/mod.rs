pub mod help;
pub mod layout;
pub mod member;
pub mod project;
pub mod registry;
