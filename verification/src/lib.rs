//! Type-erased ownership and reference handles.
//!
//! The handles in this crate store a value whose shape is no longer known to
//! the type system: the value's bytes live in an allocation of a single
//! process-wide allocator, and the only surviving description of the value is
//! a small shape descriptor (element count, dispatch table) together with a
//! finalizer chosen when the value was erased.  A caller who independently
//! knows the original shape can reify a handle back into a typed pointer or
//! into the owned value; destroying a handle instead runs its finalizer, which
//! releases exactly the allocations the handle owns.
//!
//! The allocator is threaded through every operation as an explicit
//! [`Heap`](heap::Heap) capability, which keeps allocation accounting visible
//! in every contract: each operation states which allocations it creates and
//! releases, and that all other allocations are untouched.

pub mod ebox;
pub mod eptr;
pub mod eref;
pub mod heap;
pub mod laws;
pub mod layout;
pub mod shape;
pub mod thin_ebox;
pub mod value;

pub use ebox::ErasedBox;
pub use eptr::{ErasedNonNull, ErasedPtr};
pub use eref::{ErasedMut, ErasedRef};
pub use heap::Heap;
pub use shape::{Fin, Shape};
pub use thin_ebox::{InnerData, ThinErasedBox};
pub use value::{DataPtr, TypedPtr, ValueModel, ValueRepr};
