//! The video producer as a state machine.
//!
//! The producer decides; whoever drives it talks to the capture device. Each
//! call of `VideoProducer::step` takes what happened at the device, moves the
//! producer to its next state and returns what to do next. Every action
//! except `Halt` is answered by exactly one event.
//!
//! The producer enumerates the devices, opens the first, picks the preferred
//! capture mode once and then turns every captured frame into an event. Any
//! failure stops it for good: a lost device is not retried.

use vstd::prelude::*;
use crate::event::{Event, EventView};
use crate::frame::{raw_len, transform, transformed};
use crate::stream::{
    is_preferred, lemma_preferred_exists, preferred, select_index, StreamDescriptor,
};

verus! {

/// Why the producer stopped.
#[derive(Clone, Copy, Debug, PartialEq, Eq, Structural)]
pub enum VideoError {
    /// The enumeration failed or found no capture device.
    NoDeviceFound,
    /// The device could not be opened, offers no capture mode, or did not
    /// start to stream.
    DeviceOpenError,
    /// The device failed while streaming, or delivered less than a frame.
    DeviceLost,
}

/// Where the producer stands.
#[derive(Clone, Copy, Debug, PartialEq, Eq, Structural)]
pub enum VideoState {
    /// Nothing has happened yet.
    Idle,
    /// The devices are being enumerated.
    Enumerating,
    /// The first device is being opened.
    Opening,
    /// The stream of the chosen mode is being started.
    Starting { descriptor: StreamDescriptor },
    /// Frames of the chosen mode are being captured.
    Streaming { descriptor: StreamDescriptor },
    /// The producer has ended.
    Stopped { error: VideoError },
}

/// What happened at the device since the producer last returned an action.
#[derive(Clone, Copy, Debug)]
pub enum VideoEvent<'a> {
    /// What the producer asked for is done.
    Done,
    /// The enumeration found this many devices.
    Devices { count: usize },
    /// The device is open and offers these capture modes.
    Opened { offered: &'a [StreamDescriptor] },
    /// The device delivered a frame.
    Frame { raw: &'a [u8] },
    /// What the producer asked for failed.
    Failed,
}

/// An event as a mathematical value.
pub enum VideoEventView {
    Done,
    Devices { count: nat },
    Opened { offered: Seq<StreamDescriptor> },
    Frame { raw: Seq<u8> },
    Failed,
}

impl<'a> View for VideoEvent<'a> {
    type V = VideoEventView;

    open spec fn view(&self) -> VideoEventView {
        match *self {
            VideoEvent::Done => VideoEventView::Done,
            VideoEvent::Devices { count } => VideoEventView::Devices { count: count as nat },
            VideoEvent::Opened { offered } => VideoEventView::Opened { offered: offered@ },
            VideoEvent::Frame { raw } => VideoEventView::Frame { raw: raw@ },
            VideoEvent::Failed => VideoEventView::Failed,
        }
    }
}

/// What the producer asks its driver to do next.
#[derive(Clone, Debug, PartialEq, Eq)]
pub enum VideoAction {
    /// Enumerate the capture devices. Answer `Devices` or `Failed`.
    Enumerate,
    /// Open the device at this position of the enumeration and ask for its
    /// capture modes. Answer `Opened` or `Failed`.
    Open { device: usize },
    /// Start the stream of the capture mode at this position of the list
    /// that the device offered. `degraded` says that the mode is not 8-bit
    /// RGB, which deserves a warning. Answer `Done` or `Failed`.
    Start { stream: usize, degraded: bool },
    /// Wait for the next frame. Answer `Frame` or `Failed`.
    Capture,
    /// Hand `event` to the event channel. Answer `Done` or `Failed`.
    Submit { event: Event },
    /// Stop driving the producer and report the error.
    Halt { error: VideoError },
}

/// An action as a mathematical value.
pub enum VideoActionView {
    Enumerate,
    Open { device: nat },
    Start { stream: nat, degraded: bool },
    Capture,
    Submit { event: EventView },
    Halt { error: VideoError },
}

impl View for VideoAction {
    type V = VideoActionView;

    open spec fn view(&self) -> VideoActionView {
        match *self {
            VideoAction::Enumerate => VideoActionView::Enumerate,
            VideoAction::Open { device } => VideoActionView::Open { device: device as nat },
            VideoAction::Start { stream, degraded } => VideoActionView::Start {
                stream: stream as nat,
                degraded,
            },
            VideoAction::Capture => VideoActionView::Capture,
            VideoAction::Submit { event } => VideoActionView::Submit { event: event@ },
            VideoAction::Halt { error } => VideoActionView::Halt { error },
        }
    }
}

/// Whether `raw` holds a whole frame of the mode `descriptor`.
pub open spec fn holds_frame(raw: Seq<u8>, descriptor: StreamDescriptor) -> bool {
    raw.len() >= raw_len(descriptor.width as nat, descriptor.height as nat)
}

/// Whether a producer in `state` goes on when `event` arrives.
pub open spec fn continues(state: VideoState, event: VideoEventView) -> bool {
    match (state, event) {
        (VideoState::Idle, VideoEventView::Done) => true,
        (VideoState::Enumerating, VideoEventView::Devices { count }) => count > 0,
        (VideoState::Opening, VideoEventView::Opened { offered }) => offered.len() > 0,
        (VideoState::Starting { .. }, VideoEventView::Done) => true,
        (VideoState::Streaming { .. }, VideoEventView::Done) => true,
        (VideoState::Streaming { descriptor }, VideoEventView::Frame { raw }) => holds_frame(
            raw,
            descriptor,
        ),
        _ => false,
    }
}

/// The error with which a producer stops that does not go on in `state`.
pub open spec fn failure(state: VideoState) -> VideoError {
    match state {
        VideoState::Idle => VideoError::NoDeviceFound,
        VideoState::Enumerating => VideoError::NoDeviceFound,
        VideoState::Opening => VideoError::DeviceOpenError,
        VideoState::Starting { .. } => VideoError::DeviceOpenError,
        VideoState::Streaming { .. } => VideoError::DeviceLost,
        VideoState::Stopped { error } => error,
    }
}

/// The state that follows `state` on `event`.
pub open spec fn next_state(state: VideoState, event: VideoEventView) -> VideoState {
    if !continues(state, event) {
        VideoState::Stopped { error: failure(state) }
    } else {
        match (state, event) {
            (VideoState::Idle, _) => VideoState::Enumerating,
            (VideoState::Enumerating, _) => VideoState::Opening,
            (_, VideoEventView::Opened { offered }) => VideoState::Starting {
                descriptor: offered[preferred(offered)],
            },
            (VideoState::Starting { descriptor }, _) => VideoState::Streaming { descriptor },
            _ => state,
        }
    }
}

/// The action that a producer in `state` returns on `event`.
pub open spec fn next_action(state: VideoState, event: VideoEventView) -> VideoActionView {
    if !continues(state, event) {
        VideoActionView::Halt { error: failure(state) }
    } else {
        match (state, event) {
            (VideoState::Idle, _) => VideoActionView::Enumerate,
            (VideoState::Enumerating, _) => VideoActionView::Open { device: 0 },
            (_, VideoEventView::Opened { offered }) => VideoActionView::Start {
                stream: preferred(offered) as nat,
                degraded: !offered[preferred(offered)].pixel_format.is_rgb8(),
            },
            (VideoState::Streaming { descriptor }, VideoEventView::Frame { raw }) => VideoActionView::Submit {
                event: EventView::CameraFeed {
                    frame: transformed(raw, descriptor.width as nat, descriptor.height as nat),
                },
            },
            _ => VideoActionView::Capture,
        }
    }
}

/// Whether `raw` holds a whole frame of the mode `descriptor`.
pub fn is_whole_frame(raw: &[u8], descriptor: &StreamDescriptor) -> (whole: bool)
    ensures
        whole == holds_frame(raw@, *descriptor),
{
    let width = descriptor.width as u128;
    let height = descriptor.height as u128;
    assert(width * height <= 0xFFFF_FFFF * 0xFFFF_FFFF) by (nonlinear_arith)
        requires
            width <= 0xFFFF_FFFF,
            height <= 0xFFFF_FFFF,
    ;
    raw.len() as u128 >= width * height * 3
}

/// The video producer.
pub struct VideoProducer {
    state: VideoState,
}

impl VideoProducer {
    /// Where the producer stands.
    pub closed spec fn spec_state(&self) -> VideoState {
        self.state
    }

    /// A producer that has not begun. The first event to give it is `Done`.
    pub fn new() -> (producer: VideoProducer)
        ensures
            producer.spec_state() == VideoState::Idle,
    {
        VideoProducer { state: VideoState::Idle }
    }

    /// Where the producer stands.
    #[verifier::when_used_as_spec(spec_state)]
    pub fn state(&self) -> (state: VideoState)
        ensures
            state == self.spec_state(),
    {
        self.state
    }

    /// Takes `event`, moves to the next state and returns what to do next.
    pub fn step(&mut self, event: VideoEvent<'_>) -> (action: VideoAction)
        ensures
            final(self).spec_state() == next_state(old(self).spec_state(), event@),
            action@ == next_action(old(self).spec_state(), event@),
    {
        let stop = VideoAction::Halt { error: Self::failure_of(self.state) };
        let stopped = VideoState::Stopped { error: Self::failure_of(self.state) };
        let (state, action) = match (self.state, event) {
            (VideoState::Idle, VideoEvent::Done) => (VideoState::Enumerating, VideoAction::Enumerate),
            (VideoState::Enumerating, VideoEvent::Devices { count }) => if count > 0 {
                (VideoState::Opening, VideoAction::Open { device: 0 })
            } else {
                (stopped, stop)
            },
            (VideoState::Opening, VideoEvent::Opened { offered }) => match select_index(offered) {
                Some(stream) => {
                    let descriptor = offered[stream];
                    let degraded = !descriptor.pixel_format.is_rgb8();
                    (VideoState::Starting { descriptor }, VideoAction::Start { stream, degraded })
                },
                None => (stopped, stop),
            },
            (VideoState::Starting { descriptor }, VideoEvent::Done) => (
                VideoState::Streaming { descriptor },
                VideoAction::Capture,
            ),
            (VideoState::Streaming { descriptor }, VideoEvent::Done) => (
                VideoState::Streaming { descriptor },
                VideoAction::Capture,
            ),
            (VideoState::Streaming { descriptor }, VideoEvent::Frame { raw }) => if is_whole_frame(
                raw,
                &descriptor,
            ) {
                let frame = transform(raw, &descriptor);
                (
                    VideoState::Streaming { descriptor },
                    VideoAction::Submit { event: Event::CameraFeed { frame } },
                )
            } else {
                (stopped, stop)
            },
            _ => (stopped, stop),
        };
        self.state = state;
        action
    }

    /// The error with which a producer stops that does not go on in `state`.
    fn failure_of(state: VideoState) -> (error: VideoError)
        ensures
            error == failure(state),
    {
        match state {
            VideoState::Idle => VideoError::NoDeviceFound,
            VideoState::Enumerating => VideoError::NoDeviceFound,
            VideoState::Opening => VideoError::DeviceOpenError,
            VideoState::Starting { .. } => VideoError::DeviceOpenError,
            VideoState::Streaming { .. } => VideoError::DeviceLost,
            VideoState::Stopped { error } => error,
        }
    }
}

/// A stopped producer stays stopped, with the error it stopped with, and
/// asks for nothing but to halt.
pub proof fn lemma_stopped_is_final(error: VideoError, event: VideoEventView)
    ensures
        next_state(VideoState::Stopped { error }, event) == (VideoState::Stopped { error }),
        next_action(VideoState::Stopped { error }, event) == (VideoActionView::Halt { error }),
{
}

/// The capture mode is chosen once: while the producer streams, no event
/// changes it.
pub proof fn lemma_mode_is_kept(descriptor: StreamDescriptor, event: VideoEventView)
    ensures
        next_state(VideoState::Streaming { descriptor }, event) == (VideoState::Streaming {
            descriptor,
        }) || next_state(VideoState::Streaming { descriptor }, event) is Stopped,
{
}

/// The mode with which the producer starts is the preferred one of those
/// that the device offers.
pub proof fn lemma_starts_preferred(offered: Seq<StreamDescriptor>)
    requires
        offered.len() > 0,
    ensures
        next_state(VideoState::Opening, VideoEventView::Opened { offered }) matches VideoState::Starting {
            descriptor,
        } && is_preferred(offered, preferred(offered)) && descriptor == offered[preferred(offered)],
{
    lemma_preferred_exists(offered);
}

} // verus!
