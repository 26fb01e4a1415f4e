//! The list type of a small language runtime: index normalization, the
//! native list methods (`append`, `clear`, `__len__`, `reverse`, item
//! assignment), and the method table that binds them on the list type.

pub mod index;
pub mod laws;
pub mod methods;
pub mod object;
pub mod objlist;

pub use methods::{init, PyContext};
pub use objlist::set_item;
