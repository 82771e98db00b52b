pub mod attribute_value;
pub mod error;
pub mod index_allocation;
pub mod index_record;
pub mod index_root;
pub mod laws;
