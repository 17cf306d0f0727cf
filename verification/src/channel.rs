//! The stream of window events and the channel that carries it.
//!
//! The platform publishes window events into a `shrev::EventChannel`; a
//! consumer holds a `shrev::ReaderId` and reads what was published since its
//! last read. Neither type is verified here. This module states what the
//! camera system relies on: the channel is an append-only log, and a reader is
//! a position in the log of the channel that registered it.

use crate::fit::WindowSize;
use shrev::EventChannel;
use shrev::ReaderId;
use vstd::prelude::*;

verus! {

/// A window event, as far as the camera is concerned.
#[derive(Clone, Copy, Debug, PartialEq, Eq, Structural)]
pub enum WindowEvent {
    /// The window was resized to the given physical size.
    Resized(WindowSize),
    /// Any other notification (close, focus, input, ...).
    Other,
}

impl WindowEvent {
    /// The size that the event announces, where it is a resize to a window
    /// with an aspect ratio.
    pub open spec fn usable_size(self) -> Option<WindowSize> {
        match self {
            WindowEvent::Resized(size) => if size.usable() {
                Some(size)
            } else {
                None
            },
            WindowEvent::Other => None,
        }
    }

    /// The new size, for a resize to a window with no zero dimension; `None`
    /// for every other event.
    pub fn resized_to(&self) -> (size: Option<WindowSize>)
        ensures
            size == self.usable_size(),
    {
        match self {
            WindowEvent::Resized(size) => if size.is_usable() {
                Some(*size)
            } else {
                None
            },
            WindowEvent::Other => None,
        }
    }
}

#[verifier::external_type_specification]
#[verifier::external_body]
#[verifier::reject_recursive_types(E)]
pub struct ExEventChannel<E>(EventChannel<E>);

#[verifier::external_type_specification]
#[verifier::external_body]
#[verifier::reject_recursive_types(T)]
pub struct ExReaderId<T: 'static>(ReaderId<T>);

/// Every event that was written to the channel since it was made, oldest
/// first.
pub uninterp spec fn channel_events(channel: EventChannel<WindowEvent>) -> Seq<WindowEvent>;

/// The identity that the channel was made with. It hands this identity to
/// each reader that it registers, and keeps it for life.
pub uninterp spec fn channel_id(channel: EventChannel<WindowEvent>) -> int;

/// How many of its channel's events lie behind the reader: those written
/// before it was registered, and those it has read.
pub uninterp spec fn reader_position(reader: ReaderId<WindowEvent>) -> nat;

/// The identity of the channel that registered the reader.
pub uninterp spec fn reader_channel(reader: ReaderId<WindowEvent>) -> int;

/// Registers a new reader: `shrev::EventChannel::register_reader`.
///
/// Trusted: the channel's events and identity stay as they are; the reader
/// belongs to this channel and stands at the end of its log, so that it will
/// see only what is written from now on.
#[verifier::external_body]
pub(crate) fn register_reader(channel: &mut EventChannel<WindowEvent>) -> (reader: ReaderId<
    WindowEvent,
>)
    ensures
        channel_events(*final(channel)) == channel_events(*old(channel)),
        channel_id(*final(channel)) == channel_id(*old(channel)),
        reader_channel(reader) == channel_id(*old(channel)),
        reader_position(reader) == channel_events(*old(channel)).len(),
{
    channel.register_reader()
}

/// Reads what the reader has not seen yet: `shrev::EventChannel::read`, its
/// iterator copied out into a vector.
///
/// Trusted: the call hands out the events of the log from the reader's
/// position to the end, in the order in which they were written, and moves the
/// reader to the end. The reader stays with its channel. `read` panics on a
/// reader of another channel, which `requires` excludes.
#[verifier::external_body]
pub(crate) fn read_events(
    channel: &EventChannel<WindowEvent>,
    reader: &mut ReaderId<WindowEvent>,
) -> (events: Vec<WindowEvent>)
    requires
        reader_channel(*old(reader)) == channel_id(*channel),
    ensures
        reader_position(*old(reader)) + events@.len() == channel_events(*channel).len(),
        events@ == channel_events(*channel).skip(reader_position(*old(reader)) as int),
        reader_position(*final(reader)) == channel_events(*channel).len(),
        reader_channel(*final(reader)) == reader_channel(*old(reader)),
{
    channel.read(reader).copied().collect()
}

} // verus!
