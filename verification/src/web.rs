//! The web control plane's request and reply envelope.
//!
//! Each HTTP endpoint of the operator interface carries one typed request
//! body; the body becomes a [`UserRequest`] for the event handler, and the
//! handler's [`WebReply`] becomes a JSON response whose status code
//! depends only on the reply. The deserializing, routing and channel
//! plumbing live with the caller; the conversions and decisions are here.

use vstd::prelude::*;
use vstd::arithmetic::div_mod::lemma_fundamental_div_mod;
use crate::item::ItemId;
use crate::item::ItemPair;

verus! {

/// Nanoseconds per second.
pub const NANOS_PER_SEC: u64 = 1_000_000_000;

/// A span of time as whole seconds and a sub-second remainder, kept
/// normalized: the remainder is always below one second.
#[derive(Copy, Clone, PartialEq, Eq, Structural, Debug)]
pub struct TimeSpan {
    pub secs: u64,
    pub nanos: u32,
}

impl TimeSpan {
    /// The span is normalized.
    pub open spec fn wf(&self) -> bool {
        self.nanos < NANOS_PER_SEC
    }

    /// The whole span in nanoseconds.
    pub open spec fn spec_total_nanos(&self) -> int {
        self.secs * NANOS_PER_SEC + self.nanos
    }

    /// A normalized span from seconds and any number of nanoseconds.
    pub fn from_parts(secs: u64, nanos: u64) -> (r: TimeSpan)
        requires
            secs + nanos / NANOS_PER_SEC <= u64::MAX,
        ensures
            r.wf(),
            r.spec_total_nanos() == secs * NANOS_PER_SEC + nanos,
    {
        let extra = nanos / NANOS_PER_SEC;
        let rem = (nanos % NANOS_PER_SEC) as u32;
        proof {
            lemma_fundamental_div_mod(nanos as int, NANOS_PER_SEC as int);
        }
        TimeSpan { secs: secs + extra, nanos: rem }
    }
}

/// A point in civil time, as seconds from an epoch and a sub-second
/// remainder. It is carried through the request envelope untouched.
#[derive(Copy, Clone, PartialEq, Eq, Structural, Debug)]
pub struct TimeStamp {
    pub secs: i64,
    pub nanos: u32,
}

/// An optional delay paired with the event it cues.
#[derive(Copy, Clone, PartialEq, Eq, Structural, Debug)]
pub struct EventDelay {
    pub delay: Option<TimeSpan>,
    pub event_id: ItemId,
}

impl EventDelay {
    /// An event delay from its parts.
    pub fn new(delay: Option<TimeSpan>, event_id: ItemId) -> (r: EventDelay)
        ensures
            r.delay == delay,
            r.event_id == event_id,
    {
        EventDelay { delay, event_id }
    }
}

/// A typed operator request, as the web layer hands it to the event
/// handler.
#[derive(Clone, PartialEq, Debug)]
pub enum UserRequest {
    /// Adjust the delay of every queued event.
    AllEventChange { adjustment: TimeSpan, is_negative: bool },
    /// Stop every active process.
    AllStop,
    /// Broadcast an event to the system connections.
    BroadcastEvent { event_id: ItemId, data: Option<u32> },
    /// Clear the queue of upcoming events.
    ClearQueue,
    /// Close the program.
    Close,
    /// Load a configuration file, or none to start empty.
    ConfigFile { filepath: Option<String> },
    /// Cue an event, now or after a delay.
    CueEvent { event_delay: EventDelay },
    /// Switch debug mode on or off.
    DebugMode(bool),
    /// Log errors to the given file.
    ErrorLog { filepath: String },
    /// Change the start time or delay of one queued event.
    EventChange { event_id: ItemId, start_time: TimeStamp, new_delay: Option<TimeSpan> },
    /// Log game play to the given file.
    GameLog { filepath: String },
    /// Process an event directly.
    ProcessEvent { event: ItemId, check_scene: bool, broadcast: bool },
    /// Redraw the operator interface.
    Redraw,
    /// Save the configuration to the given file.
    SaveConfig { filepath: String },
    /// Change the current scene.
    SceneChange { scene: ItemId },
    /// Change the state of a status.
    StatusChange { status: ItemId, state: ItemId },
}

/// The body of an all-event-change request.
#[derive(Clone, PartialEq, Eq, Structural, Debug)]
pub struct AllEventChange {
    pub adjustment_secs: u64,
    pub adjustment_nanos: u64,
    pub is_negative: bool,
}

impl AllEventChange {
    /// The request this body stands for: the two parts become one
    /// normalized adjustment span.
    pub fn into_request(self) -> (r: UserRequest)
        requires
            self.adjustment_secs + self.adjustment_nanos / NANOS_PER_SEC <= u64::MAX,
        ensures
            r matches UserRequest::AllEventChange { adjustment, is_negative } && adjustment.wf()
                && adjustment.spec_total_nanos() == self.adjustment_secs * NANOS_PER_SEC
                + self.adjustment_nanos && is_negative == self.is_negative,
    {
        let adjustment = TimeSpan::from_parts(self.adjustment_secs, self.adjustment_nanos);
        UserRequest::AllEventChange { adjustment, is_negative: self.is_negative }
    }
}

/// The body of a broadcast-event request.
#[derive(Clone, PartialEq, Eq, Structural, Debug)]
pub struct BroadcastEvent {
    pub id: u32,
    pub data: Option<u32>,
}

impl BroadcastEvent {
    /// The request this body stands for. The id is taken as given: the
    /// event handler decides what to do with an unknown one.
    pub fn into_request(self) -> (r: UserRequest)
        ensures
            r matches UserRequest::BroadcastEvent { event_id, data } && event_id.spec_id()
                == self.id && data == self.data,
    {
        UserRequest::BroadcastEvent { event_id: ItemId::new_unchecked(self.id), data: self.data }
    }
}

/// The body of a config-file request.
#[derive(Clone, PartialEq, Eq, Debug)]
pub struct ConfigFile {
    pub filename: String,
}

impl ConfigFile {
    /// The request this body stands for.
    pub fn into_request(self) -> (r: UserRequest)
        ensures
            r matches UserRequest::ConfigFile { filepath } && filepath matches Some(path) && path@
                == self.filename@,
    {
        UserRequest::ConfigFile { filepath: Some(self.filename) }
    }
}

/// The body of a cue-event request.
#[derive(Clone, PartialEq, Eq, Structural, Debug)]
pub struct CueEvent {
    pub id: u32,
    pub secs: u64,
    pub nanos: u64,
}

impl CueEvent {
    /// The request this body stands for: a zero delay means the event is
    /// cued immediately.
    pub fn into_request(self) -> (r: UserRequest)
        requires
            self.secs + self.nanos / NANOS_PER_SEC <= u64::MAX,
        ensures
            r matches UserRequest::CueEvent { event_delay } && event_delay.event_id.spec_id()
                == self.id && (if self.secs == 0 && self.nanos == 0 {
                event_delay.delay is None
            } else {
                event_delay.delay matches Some(span) && span.wf() && span.spec_total_nanos()
                    == self.secs * NANOS_PER_SEC + self.nanos
            }),
    {
        let delay = if self.secs != 0 || self.nanos != 0 {
            Some(TimeSpan::from_parts(self.secs, self.nanos))
        } else {
            None
        };
        UserRequest::CueEvent {
            event_delay: EventDelay::new(delay, ItemId::new_unchecked(self.id)),
        }
    }
}

/// The body of a debug-mode request.
#[derive(Clone, PartialEq, Eq, Structural, Debug)]
pub struct DebugMode {
    pub is_debug: bool,
}

impl DebugMode {
    /// The request this body stands for.
    pub fn into_request(self) -> (r: UserRequest)
        ensures
            r == UserRequest::DebugMode(self.is_debug),
    {
        UserRequest::DebugMode(self.is_debug)
    }
}

/// The body of an error-log request.
#[derive(Clone, PartialEq, Eq, Debug)]
pub struct ErrorLog {
    pub filename: String,
}

impl ErrorLog {
    /// The request this body stands for.
    pub fn into_request(self) -> (r: UserRequest)
        ensures
            r matches UserRequest::ErrorLog { filepath } && filepath@ == self.filename@,
    {
        UserRequest::ErrorLog { filepath: self.filename }
    }
}

/// The body of an event-change request.
#[derive(Copy, Clone, PartialEq, Eq, Structural, Debug)]
pub struct EventChange {
    pub event_id: ItemId,
    pub start_time: TimeStamp,
    pub new_delay: Option<TimeSpan>,
}

impl EventChange {
    /// The request this body stands for, unchanged.
    pub fn into_request(self) -> (r: UserRequest)
        ensures
            r matches UserRequest::EventChange { event_id, start_time, new_delay } && event_id
                == self.event_id && start_time == self.start_time && new_delay == self.new_delay,
    {
        UserRequest::EventChange {
            event_id: self.event_id,
            start_time: self.start_time,
            new_delay: self.new_delay,
        }
    }
}

/// The body of a game-log request.
#[derive(Clone, PartialEq, Eq, Debug)]
pub struct GameLog {
    pub filename: String,
}

impl GameLog {
    /// The request this body stands for.
    pub fn into_request(self) -> (r: UserRequest)
        ensures
            r matches UserRequest::GameLog { filepath } && filepath@ == self.filename@,
    {
        UserRequest::GameLog { filepath: self.filename }
    }
}

/// The body of a process-event request.
#[derive(Clone, PartialEq, Eq, Structural, Debug)]
pub struct ProcessEvent {
    pub event_id: u32,
    pub check_scene: bool,
    pub broadcast: bool,
}

impl ProcessEvent {
    /// The request this body stands for.
    pub fn into_request(self) -> (r: UserRequest)
        ensures
            r matches UserRequest::ProcessEvent { event, check_scene, broadcast } && event.spec_id()
                == self.event_id && check_scene == self.check_scene && broadcast == self.broadcast,
    {
        UserRequest::ProcessEvent {
            event: ItemId::new_unchecked(self.event_id),
            check_scene: self.check_scene,
            broadcast: self.broadcast,
        }
    }
}

/// The body of a save-config request.
#[derive(Clone, PartialEq, Eq, Debug)]
pub struct SaveConfig {
    pub filename: String,
}

impl SaveConfig {
    /// The request this body stands for.
    pub fn into_request(self) -> (r: UserRequest)
        ensures
            r matches UserRequest::SaveConfig { filepath } && filepath@ == self.filename@,
    {
        UserRequest::SaveConfig { filepath: self.filename }
    }
}

/// The body of a scene-change request.
#[derive(Clone, PartialEq, Eq, Structural, Debug)]
pub struct SceneChange {
    pub scene_id: u32,
}

impl SceneChange {
    /// The request this body stands for.
    pub fn into_request(self) -> (r: UserRequest)
        ensures
            r matches UserRequest::SceneChange { scene } && scene.spec_id() == self.scene_id,
    {
        UserRequest::SceneChange { scene: ItemId::new_unchecked(self.scene_id) }
    }
}

/// The body of a status-change request.
#[derive(Clone, PartialEq, Eq, Structural, Debug)]
pub struct StatusChange {
    pub status_id: u32,
    pub state_id: u32,
}

impl StatusChange {
    /// The request this body stands for.
    pub fn into_request(self) -> (r: UserRequest)
        ensures
            r matches UserRequest::StatusChange { status, state } && status.spec_id()
                == self.status_id && state.spec_id() == self.state_id,
    {
        UserRequest::StatusChange {
            status: ItemId::new_unchecked(self.status_id),
            state: ItemId::new_unchecked(self.state_id),
        }
    }
}

/// The path parameter of an item-lookup request.
#[derive(Copy, Clone, PartialEq, Eq, Structural, Debug)]
pub struct GetItem {
    pub id: u32,
}

impl core::str::FromStr for GetItem {
    type Err = crate::text::ParseError;

    /// Parses the id from the request path.
    fn from_str(s: &str) -> Result<GetItem, crate::text::ParseError> {
        match crate::text::parse_u32(s) {
            Ok(id) => Ok(GetItem { id }),
            Err(e) => Err(e),
        }
    }
}

/// The web interface: the handle on the item index and the send line to
/// the event handler, whatever carries them. The routing that serves the
/// endpoints runs outside this crate and borrows the two handles from
/// here.
pub struct WebInterface<I, S> {
    pub index_access: I,
    pub web_send: S,
}

impl<I, S> WebInterface<I, S> {
    /// A new web interface. The send line should connect directly to the
    /// event handler.
    pub fn new(index_access: I, web_send: S) -> (r: WebInterface<I, S>)
        ensures
            r.index_access == index_access,
            r.web_send == web_send,
    {
        WebInterface { index_access, web_send }
    }
}

/// The reply the event handler returns to the web layer.
#[derive(Clone, PartialEq, Debug)]
pub enum WebReply {
    /// The request succeeded.
    Success { message: String },
    /// The request failed for the given reason.
    Failure { reason: String },
    /// The reply of the item-lookup path.
    Item { is_valid: bool, item_pair: ItemPair },
}

impl WebReply {
    /// Whether the reply reports success.
    pub open spec fn spec_is_success(&self) -> bool {
        !(self is Failure)
    }

    /// A success reply with the given message.
    pub fn success(message: &str) -> (r: WebReply)
        ensures
            r matches WebReply::Success { message: m } && m@ == message@,
    {
        WebReply::Success { message: message.to_owned() }
    }

    /// A failure reply with the given reason.
    pub fn failure(reason: &str) -> (r: WebReply)
        ensures
            r matches WebReply::Failure { reason: m } && m@ == reason@,
    {
        WebReply::Failure { reason: reason.to_owned() }
    }

    /// Whether the reply reports success.
    pub fn is_success(&self) -> (r: bool)
        ensures
            r == self.spec_is_success(),
    {
        match self {
            WebReply::Failure { .. } => false,
            _ => true,
        }
    }
}

/// The reply of the item-lookup path: the pair is returned as valid even
/// when it is only the index's default for an unknown id.
pub fn item_reply(item_pair: ItemPair) -> (r: WebReply)
    ensures
        r == (WebReply::Item { is_valid: true, item_pair }),
{
    WebReply::Item { is_valid: true, item_pair }
}

/// The body of the response sent when the reply channel fails.
pub fn failed_request_reply() -> (r: WebReply)
    ensures
        r matches WebReply::Failure { reason } && reason@ == "Unable to process request."@,
{
    WebReply::failure("Unable to process request.")
}

/// The HTTP status for a reply that arrived: success is 200, a typed
/// failure is 400.
pub fn reply_status(reply: &WebReply) -> (r: u16)
    ensures
        reply.spec_is_success() ==> r == 200,
        !reply.spec_is_success() ==> r == 400,
{
    if reply.is_success() {
        200
    } else {
        400
    }
}

/// The HTTP status for the outcome of a request: 200 or 400 by the reply
/// when one arrived, 500 when the reply channel failed.
pub fn response_status(outcome: &Option<WebReply>) -> (r: u16)
    ensures
        match outcome {
            Some(reply) => (reply.spec_is_success() ==> r == 200) && (!reply.spec_is_success()
                ==> r == 400),
            None => r == 500,
        },
{
    match outcome {
        Some(reply) => reply_status(reply),
        None => 500,
    }
}

} // verus!
