//! The codes by which a caller names the kind of content of a message.

use vstd::prelude::*;

verus! {

/// A text.
pub const TEXT: u8 = 0;

/// An event between the two clients.
pub const INTERNAL: u8 = 1;

/// A voice recording.
pub const VOICE: u8 = 2;

/// A picture.
pub const PICTURE: u8 = 3;

/// Media that lies elsewhere.
pub const LINKED_MEDIA: u8 = 4;

} // verus!
