pub mod codec;
pub mod condition;
pub mod context;
pub mod error;
pub mod float;
pub mod record;
pub mod registry;
pub mod value;
