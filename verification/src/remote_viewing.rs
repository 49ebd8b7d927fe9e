//! The remote-viewing stream: the description of the pipeline that captures,
//! encodes and sends the video, and the decisions of its supervisor.
//!
//! The multimedia engine itself is driven by the caller. This module says
//! what to hand to it and what each of its answers means.

use vstd::prelude::*;
use vstd::string::StringExecFns;
use crate::decimal::{append_decimal, decimal_digits, lemma_decimal_round_trip};

verus! {

/// What the engine answered when it was asked to set the pipeline up.
#[derive(Clone, Copy, Debug, PartialEq, Eq, Structural)]
pub enum Launch {
    /// The engine could not build a pipeline from the description.
    ParseFailed,
    /// The pipeline was built but offers no message bus.
    NoBus,
    /// The pipeline was built and its message bus is watched.
    Ready,
}

/// A state that the supervisor asks the pipeline to go to.
#[derive(Clone, Copy, Debug, PartialEq, Eq, Structural)]
pub enum PipelineState {
    /// Shut down, all resources released.
    Null,
    /// Set up but not streaming.
    Paused,
    /// Streaming.
    Playing,
}

/// Why a request to the remote-viewing stream failed.
#[derive(Clone, Copy, Debug, PartialEq, Eq, Structural)]
pub enum RemoteViewingError {
    /// The pipeline refused to go to [`PipelineState::Playing`].
    StartFailed,
    /// The pipeline refused to go to [`PipelineState::Paused`].
    StopFailed,
}

/// The kinds of bus message that the supervisor tells apart.
#[derive(Clone, Copy, Debug, PartialEq, Eq, Structural)]
pub enum MessageKind {
    /// An element of the pipeline reported an error.
    Error,
    /// The stream came to its end.
    Eos,
    /// Any other message.
    Other,
}

/// What the bus watch does after a message.
#[derive(Clone, Copy, Debug, PartialEq, Eq, Structural)]
pub enum WatchAction {
    /// Keep the watch installed and wait for the next message.
    Continue,
    /// Give up: a pipeline error has no handling yet.
    AbortOnError,
    /// Give up: the stream must never end by itself.
    AbortOnEndOfStream,
}

/// The text of the pipeline description in front of the destination host.
pub open spec fn description_head() -> Seq<char> {
    "v4l2src device=\"/dev/video0\" ! video/x-raw,width=320,height=240 ! videoscale ! videoconvert ! x264enc tune=zerolatency bitrate=500 speed-preset=superfast ! rtph264pay config-interval=10 pt=96 ! udpsink host="@
}

/// The text of the pipeline description between the destination host and the
/// destination port.
pub open spec fn description_port_key() -> Seq<char> {
    " port="@
}

/// The description of the pipeline that streams the camera to `host`, at
/// UDP port `port`: the fixed chain of elements, ending in a sink whose
/// `host` property is `host` as given and whose `port` property is the
/// decimal numeral of `port`.
pub open spec fn description_of(host: Seq<char>, port: u16) -> Seq<char> {
    description_head() + host + description_port_key() + decimal_digits(port as nat)
}

/// Two descriptions for one host are the same only where the ports are.
pub proof fn lemma_description_tells_port(host: Seq<char>, first: u16, second: u16)
    requires
        description_of(host, first) == description_of(host, second),
    ensures
        first == second,
{
    let front = description_head() + host + description_port_key();
    let one = decimal_digits(first as nat);
    let other = decimal_digits(second as nat);
    assert((front + one).subrange(front.len() as int, (front + one).len() as int) =~= one);
    assert((front + other).subrange(front.len() as int, (front + other).len() as int) =~= other);
    assert(one.len() == other.len()) by {
        assert((front + one).len() == (front + other).len());
    }
    assert(one == other);
    lemma_decimal_round_trip(first as nat);
    lemma_decimal_round_trip(second as nat);
}

/// What the bus watch does after a message of the given kind.
pub open spec fn watch_action(kind: MessageKind) -> WatchAction {
    match kind {
        MessageKind::Error => WatchAction::AbortOnError,
        MessageKind::Eos => WatchAction::AbortOnEndOfStream,
        MessageKind::Other => WatchAction::Continue,
    }
}

/// Builds the pipeline description for the given destination.
pub fn pipeline_description(host: &str, port: u16) -> (description: String)
    ensures
        description@ == description_of(host@, port),
{
    let mut description = String::from_str(
        "v4l2src device=\"/dev/video0\" ! video/x-raw,width=320,height=240 ! videoscale ! videoconvert ! x264enc tune=zerolatency bitrate=500 speed-preset=superfast ! rtph264pay config-interval=10 pt=96 ! udpsink host=",
    );
    description.append(host);
    description.append(" port=");
    append_decimal(&mut description, port);
    description
}

/// The supervisor of one remote-viewing pipeline.
#[derive(Debug)]
pub struct RemoteViewing {
    description: String,
}

impl RemoteViewing {
    /// The description that the pipeline was built from.
    pub closed spec fn description_view(&self) -> Seq<char> {
        self.description@
    }

    /// Decides on a bus message: an error or the end of the stream ends the
    /// supervision, anything else is passed over.
    pub fn pipeline_watch(kind: MessageKind) -> (action: WatchAction)
        ensures
            action == watch_action(kind),
    {
        match kind {
            MessageKind::Error => WatchAction::AbortOnError,
            MessageKind::Eos => WatchAction::AbortOnEndOfStream,
            MessageKind::Other => WatchAction::Continue,
        }
    }

    /// The supervisor of the pipeline that streams to `host` at `port`, once
    /// the engine has answered the launch of
    /// [`pipeline_description`]`(host, port)` with `launch`. There is a
    /// supervisor exactly when the pipeline is ready.
    pub fn new(host: &str, port: u16, launch: Launch) -> (viewing: Option<RemoteViewing>)
        ensures
            viewing is Some <==> launch == Launch::Ready,
            viewing is Some ==> viewing.unwrap().description_view() == description_of(host@, port),
    {
        match launch {
            Launch::ParseFailed => None,
            Launch::NoBus => None,
            Launch::Ready => Some(RemoteViewing { description: pipeline_description(host, port) }),
        }
    }

    /// The description that the pipeline was built from.
    pub fn description(&self) -> (description: &str)
        ensures
            description@ == self.description_view(),
    {
        self.description.as_str()
    }

    /// The state to ask the pipeline for in order to start streaming.
    pub fn start(&self) -> (target: PipelineState)
        ensures
            target == PipelineState::Playing,
    {
        PipelineState::Playing
    }

    /// The result of a start, given whether the pipeline took the state
    /// change.
    pub fn started(&self, changed: bool) -> (result: Result<(), RemoteViewingError>)
        ensures
            changed ==> result == Ok::<(), RemoteViewingError>(()),
            !changed ==> result == Err::<(), RemoteViewingError>(RemoteViewingError::StartFailed),
    {
        if changed {
            Ok(())
        } else {
            Err(RemoteViewingError::StartFailed)
        }
    }

    /// The state to ask the pipeline for in order to stop streaming.
    pub fn stop(&self) -> (target: PipelineState)
        ensures
            target == PipelineState::Paused,
    {
        PipelineState::Paused
    }

    /// The result of a stop, given whether the pipeline took the state
    /// change.
    pub fn stopped(&self, changed: bool) -> (result: Result<(), RemoteViewingError>)
        ensures
            changed ==> result == Ok::<(), RemoteViewingError>(()),
            !changed ==> result == Err::<(), RemoteViewingError>(RemoteViewingError::StopFailed),
    {
        if changed {
            Ok(())
        } else {
            Err(RemoteViewingError::StopFailed)
        }
    }

    /// The state to leave the pipeline in when the supervisor goes away.
    pub fn release(&self) -> (target: PipelineState)
        ensures
            target == PipelineState::Null,
    {
        PipelineState::Null
    }
}

impl RemoteViewingError {
    /// The message that describes the error.
    pub open spec fn message_view(self) -> Seq<char> {
        match self {
            RemoteViewingError::StartFailed => "could not start remote viewing"@,
            RemoteViewingError::StopFailed => "could not stop remote viewing"@,
        }
    }

    /// The message that describes the error.
    pub fn message(&self) -> (text: &'static str)
        ensures
            text@ == self.message_view(),
    {
        match self {
            RemoteViewingError::StartFailed => "could not start remote viewing",
            RemoteViewingError::StopFailed => "could not stop remote viewing",
        }
    }
}

} // verus!
