//! Every stable refusal code, in one place, so a typo is a compile error on
//! both sides of a match.
use vstd::prelude::*;

verus! {

/// A second `hello` on a connection that already said it.
pub const DUPLICATE_HELLO: &'static str = "duplicate_hello";
/// Another agent already holds the agent channel.
pub const AGENT_EXISTS: &'static str = "agent_exists";
/// Nothing is on the agent channel, so there is nobody to carry this to.
pub const AGENT_UNAVAILABLE: &'static str = "agent_unavailable";
/// The attachment store is not running, or would not answer.
pub const ATTACHMENTS_UNAVAILABLE: &'static str = "attachments_unavailable";
/// The attachment is past what the store will hold.
pub const ATTACHMENT_TOO_LARGE: &'static str = "attachment_too_large";
/// The attachment is not a readable regular file with a usable name.
pub const INVALID_ATTACHMENT: &'static str = "invalid_attachment";
/// The upload stopped before the attachment was whole.
pub const ATTACHMENT_INCOMPLETE: &'static str = "attachment_incomplete";
/// No attachment is stored under that identifier.
pub const ATTACHMENT_NOT_FOUND: &'static str = "attachment_not_found";
/// Attachment storage is full.
pub const ATTACHMENT_QUOTA: &'static str = "attachment_quota";
/// Attachment storage would not answer.
pub const ATTACHMENT_UNAVAILABLE: &'static str = "attachment_unavailable";
/// The byte range asked for is not a range this content has.
pub const INVALID_RANGE: &'static str = "invalid_range";
/// The widget calls in a response are not calls this can carry.
pub const INVALID_WIDGETS: &'static str = "invalid_widgets";
/// No widget by that name is installed.
pub const WIDGET_NOT_FOUND: &'static str = "widget_not_found";
/// The surface named is not open.
pub const SURFACE_NOT_FOUND: &'static str = "surface_not_found";
/// Every instrument slot is taken.
pub const NO_FREE_SLOT: &'static str = "no_free_slot";
/// The window opened for a widget never reached the screen.
pub const NOT_SHOWN: &'static str = "not_shown";
/// The offer pressed has been taken already, or is no longer in the replay.
pub const OFFER_UNAVAILABLE: &'static str = "offer_unavailable";

} // verus!
