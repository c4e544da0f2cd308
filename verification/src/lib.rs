//! A uniform, read-only byte-buffer abstraction.
//!
//! [`ByteView`] hides whether its bytes come from a borrowed slice, an owned
//! buffer, or a read-only memory mapping, and offers bounds-checked sub-range
//! access over all of them. [`ByteViewBacking`] packages a [`ByteView`]
//! together with a value computed from its bytes, so the two travel and die
//! together.

mod backing;
mod error;
mod view;

pub use backing::transform_callable_on;
pub use backing::transform_may_return;
pub use backing::ByteViewBacking;
pub use error::Error;
pub use view::lemma_empty_tail_read;
pub use view::lemma_equal_bytes_equal_reads;
pub use view::sub_range;
pub use view::ByteView;
