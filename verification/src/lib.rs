//! A playground of small verified components: a length-prefixed framed
//! channel with a binary payload codec, a deterministic two-arm multiplexer,
//! trait-object construction helpers, and a boxed recursive list.

pub mod channel;
pub mod codec;
pub mod dispatch;
pub mod dispatch_box;
pub mod dispatch_ref;
pub mod frame;
pub mod list;
pub mod select;
