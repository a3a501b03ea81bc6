//! Closures that capture nothing, handled as values of a callable type.
//!
//! A closure without captures occupies no storage: its type alone says what
//! code runs. This crate gives such a callable a witness, [`IsFnItem`], that
//! can only be built for a type that holds no data, the capability trait
//! [`FnItem`] with a call that needs no receiver, and the pieces from which
//! the triple of witness, pointer-type marker and callable is put together.
pub mod capability;
pub mod dispatch;
pub mod storage;
pub mod token;
pub mod witness;

pub use capability::FnItem;
pub use storage::holds_no_data;
pub use storage::is_stateless;
pub use token::coerce_to_fn_ptr;
pub use token::fix_types;
pub use token::ImplFnItem;
pub use witness::assert_is_fn_item;
pub use witness::IsFnItem;
