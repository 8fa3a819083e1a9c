//! A reference-counted handle for capability objects in the style of the
//! Component Object Model, and the translation of their status codes.
pub mod com_ptr;
pub mod hresult;
pub mod refcount;

pub use com_ptr::ComPtr;
pub use hresult::{hresult, HResult};
pub use refcount::RefCount;
