use vstd::prelude::*;

use crate::error::{result_of_status, Error, Status};
use crate::object::{Kv, KvMap, Object};

verus! {

/// Deepest nesting of values that the runtime accepts.
pub const MAX_OBJECT_DEPTH: usize = 15;

/// Most segments a configuration key path may have.
pub const MAX_KEY_PATH_LEN: usize = MAX_OBJECT_DEPTH - 1;

/// MQTT quality of service level.
#[derive(Debug, Clone, Copy, PartialEq, Eq, Structural)]
pub enum Qos {
    /// At most once delivery (QoS 0).
    AtMostOnce,
    /// At least once delivery (QoS 1).
    AtLeastOnce,
}

impl Qos {
    /// The QoS level as it is sent to the runtime.
    pub fn level(self) -> (r: u8)
        ensures
            r == (if self == Qos::AtMostOnce { 0u8 } else { 1u8 }),
    {
        match self {
            Qos::AtMostOnce => 0,
            Qos::AtLeastOnce => 1,
        }
    }
}

/// Component lifecycle state.
#[derive(Debug, Clone, Copy, PartialEq, Eq, Structural)]
pub enum ComponentState {
    /// The component is running.
    Running,
    /// The component encountered an error.
    Errored,
}

/// An application error reported by the peer.
#[derive(Debug, Clone, Copy)]
pub struct IpcError<'a> {
    /// The peer's error code.
    pub error_code: &'a str,
    /// The peer's message.
    pub message: &'a str,
}

/// A time for conflict resolution of configuration updates, as seconds and
/// nanoseconds since the Unix epoch.
#[derive(Debug, Clone, Copy, PartialEq, Eq, Structural)]
pub struct Timestamp {
    /// Whole seconds.
    pub tv_sec: i64,
    /// Nanoseconds within the second.
    pub tv_nsec: i64,
}

/// A configuration key path of at most `MAX_KEY_PATH_LEN` segments.
#[derive(Debug)]
pub struct KeyPath<'a> {
    /// The segments, outermost first.
    pub segments: Vec<&'a str>,
}

/// Copies `key_path` into a key path, or fails with `Range` where it has more
/// than `MAX_KEY_PATH_LEN` segments.
pub fn key_path_to_buf_list<'a>(key_path: &[&'a str]) -> (r: Result<KeyPath<'a>, Error>)
    ensures
        key_path@.len() > MAX_KEY_PATH_LEN <==> r == Err::<KeyPath<'a>, Error>(Error::Range),
        key_path@.len() <= MAX_KEY_PATH_LEN ==> r is Ok,
        r is Ok ==> r->Ok_0.segments@ == key_path@,
{
    if key_path.len() > MAX_KEY_PATH_LEN {
        return Err(Error::Range);
    }
    let mut segments: Vec<&'a str> = Vec::new();
    let mut i: usize = 0;
    while i < key_path.len()
        invariant
            i <= key_path@.len(),
            segments@ == key_path@.subrange(0, i as int),
        decreases key_path@.len() - i,
    {
        segments.push(key_path[i]);
        i = i + 1;
    }
    assert(segments@ =~= key_path@);
    Ok(KeyPath { segments })
}

/// A request for the transport to carry out on the client's behalf.
#[derive(Debug)]
pub enum Request<'a> {
    /// Open the connection to the runtime.
    Connect { socket_path: &'a str, auth_token: &'a str },
    /// Publish a JSON-shaped message to a local topic.
    PublishToTopicJson { topic: &'a str, payload: &'a [Kv] },
    /// Publish a binary message to a local topic.
    PublishToTopicBinary { topic: &'a str, payload: &'a [u8] },
    /// Subscribe to a local topic.
    SubscribeToTopic { topic: &'a str },
    /// Publish an MQTT message to the cloud bridge.
    PublishToIotCore { topic: &'a str, payload: &'a [u8], qos: Qos },
    /// Subscribe to MQTT messages from the cloud bridge.
    SubscribeToIotCore { topic_filter: &'a str, qos: Qos },
    /// Read a configuration value.
    GetConfig { key_path: KeyPath<'a>, component_name: Option<&'a str> },
    /// Read a configuration value that is text.
    GetConfigStr { key_path: KeyPath<'a>, component_name: Option<&'a str> },
    /// Merge a value into the configuration.
    UpdateConfig { key_path: KeyPath<'a>, timestamp: Option<Timestamp>, value: &'a Object },
    /// Report the component's lifecycle state.
    UpdateState { state: ComponentState },
    /// Restart a component.
    RestartComponent { component_name: &'a str },
    /// Subscribe to configuration changes.
    SubscribeToConfigurationUpdate { component_name: Option<&'a str>, key_path: KeyPath<'a> },
    /// Invoke an operation and receive one response.
    Call { operation: &'a str, service_model_type: &'a str, params: &'a [Kv] },
    /// Invoke an operation and receive a stream of messages.
    Subscribe {
        operation: &'a str,
        service_model_type: &'a str,
        params: &'a [Kv],
        aux_ctx: usize,
    },
}

/// The client: decides what each operation asks of the transport and keeps
/// the connection state, which moves from disconnected to connected once.
#[derive(Debug)]
pub struct Sdk {
    connected: bool,
}

impl View for Sdk {
    /// Whether a connection has been established.
    type V = bool;

    closed spec fn view(&self) -> bool {
        self.connected
    }
}

/// What an attempt to connect in state `connected` yields before the
/// transport is involved: `None` where the attempt may go ahead.
pub open spec fn connect_refusal(connected: bool) -> Option<Error> {
    if connected {
        Some(Error::Failure)
    } else {
        None
    }
}

/// The state and result after the transport answered a connection attempt
/// made in state `connected` with `status`.
pub open spec fn connect_step(connected: bool, status: Status) -> (bool, Result<(), Error>) {
    if connected {
        (true, Err(Error::Failure))
    } else {
        (status == Status::Success, result_of_status(status))
    }
}

impl Sdk {
    /// A client that is not yet connected.
    pub fn init() -> (r: Sdk)
        ensures
            !r@,
    {
        Sdk { connected: false }
    }

    /// Whether a connection has been established.
    pub fn is_connected(&self) -> (r: bool)
        ensures
            r == self@,
    {
        self.connected
    }

    /// Starts connecting with the endpoint and credential that the process
    /// was given, `None` where one is missing: fails with `Config` where
    /// either is missing, else as `connect_with_token` does.
    pub fn connect<'a>(&self, auth_token: Option<&'a str>, socket_path: Option<&'a str>) -> (r:
        Result<Request<'a>, Error>)
        ensures
            auth_token is None || socket_path is None ==> r == Err::<Request<'a>, Error>(
                Error::Config,
            ),
            auth_token is Some && socket_path is Some && self@ ==> r == Err::<Request<'a>, Error>(
                Error::Failure,
            ),
            auth_token is Some && socket_path is Some && !self@ ==> r == Ok::<Request<'a>, Error>(
                (Request::Connect {
                    socket_path: socket_path->Some_0,
                    auth_token: auth_token->Some_0,
                }),
            ),
    {
        match (auth_token, socket_path) {
            (Some(token), Some(path)) => self.connect_with_token(path, token),
            _ => Err(Error::Config),
        }
    }

    /// Starts connecting with an explicit endpoint and credential: fails
    /// with `Failure` where a connection already exists, else yields the
    /// request that the transport is to carry out.
    pub fn connect_with_token<'a>(&self, socket_path: &'a str, auth_token: &'a str) -> (r: Result<
        Request<'a>,
        Error,
    >)
        ensures
            match connect_refusal(self@) {
                Some(e) => r == Err::<Request<'a>, Error>(e),
                None => r == Ok::<Request<'a>, Error>(
                    (Request::Connect { socket_path, auth_token }),
                ),
            },
    {
        if self.connected {
            return Err(Error::Failure);
        }
        Ok(Request::Connect { socket_path, auth_token })
    }

    /// Records the transport's answer to a connection attempt: the client is
    /// connected exactly when it was not and the answer is success. Where it
    /// was connected already, the attempt fails with `Failure` and nothing
    /// changes.
    pub fn finish_connect(&mut self, status: Status) -> (r: Result<(), Error>)
        ensures
            (final(self)@, r) == connect_step(old(self)@, status),
    {
        if self.connected {
            return Err(Error::Failure);
        }
        let r = status.into_result();
        if status.is_ok() {
            self.connected = true;
        }
        r
    }

    /// Publishes a JSON-shaped message to a local topic.
    pub fn publish_to_topic_json<'a>(&self, topic: &'a str, payload: &'a [Kv]) -> (r: Request<'a>)
        ensures
            r == (Request::PublishToTopicJson { topic, payload }),
    {
        Request::PublishToTopicJson { topic, payload }
    }

    /// Publishes a binary message to a local topic.
    pub fn publish_to_topic_binary<'a>(&self, topic: &'a str, payload: &'a [u8]) -> (r: Request<
        'a,
    >)
        ensures
            r == (Request::PublishToTopicBinary { topic, payload }),
    {
        Request::PublishToTopicBinary { topic, payload }
    }

    /// Subscribes to a local topic; deliveries are decoded with
    /// `SubscribeToTopicPayload::from_object`.
    pub fn subscribe_to_topic<'a>(&self, topic: &'a str) -> (r: Request<'a>)
        ensures
            r == (Request::SubscribeToTopic { topic }),
    {
        Request::SubscribeToTopic { topic }
    }

    /// Publishes an MQTT message to the cloud bridge.
    pub fn publish_to_iot_core<'a>(&self, topic: &'a str, payload: &'a [u8], qos: Qos) -> (r:
        Request<'a>)
        ensures
            r == (Request::PublishToIotCore { topic, payload, qos }),
    {
        Request::PublishToIotCore { topic, payload, qos }
    }

    /// Subscribes to MQTT messages from the cloud bridge.
    pub fn subscribe_to_iot_core<'a>(&self, topic_filter: &'a str, qos: Qos) -> (r: Request<'a>)
        ensures
            r == (Request::SubscribeToIotCore { topic_filter, qos }),
    {
        Request::SubscribeToIotCore { topic_filter, qos }
    }

    /// Reads the configuration value at `key_path` (the whole tree where it
    /// is empty), of the caller or of `component_name`; fails with `Range`
    /// where the path is too deep.
    pub fn get_config<'a>(&self, key_path: &[&'a str], component_name: Option<&'a str>) -> (r:
        Result<Request<'a>, Error>)
        ensures
            key_path@.len() > MAX_KEY_PATH_LEN <==> r == Err::<Request<'a>, Error>(Error::Range),
            key_path@.len() <= MAX_KEY_PATH_LEN ==> r is Ok,
            r is Ok ==> r->Ok_0 is GetConfig && r->Ok_0->GetConfig_key_path.segments@ == key_path@
                && r->Ok_0->GetConfig_component_name == component_name,
    {
        let path = key_path_to_buf_list(key_path)?;
        Ok(Request::GetConfig { key_path: path, component_name })
    }

    /// Reads the text configuration value at `key_path`; fails with `Range`
    /// where the path is too deep. The answer is checked against the
    /// caller's scratch space by `config_str_from_reply`.
    pub fn get_config_str<'a>(&self, key_path: &[&'a str], component_name: Option<&'a str>) -> (r:
        Result<Request<'a>, Error>)
        ensures
            key_path@.len() > MAX_KEY_PATH_LEN <==> r == Err::<Request<'a>, Error>(Error::Range),
            key_path@.len() <= MAX_KEY_PATH_LEN ==> r is Ok,
            r is Ok ==> r->Ok_0 is GetConfigStr && r->Ok_0->GetConfigStr_key_path.segments@
                == key_path@ && r->Ok_0->GetConfigStr_component_name == component_name,
    {
        let path = key_path_to_buf_list(key_path)?;
        Ok(Request::GetConfigStr { key_path: path, component_name })
    }

    /// Merges `value` into the configuration at `key_path`, with an explicit
    /// timestamp or, where it is `None`, the runtime's current time; fails
    /// with `Range` where the path is too deep.
    pub fn update_config<'a>(
        &self,
        key_path: &[&'a str],
        timestamp: Option<Timestamp>,
        value: &'a Object,
    ) -> (r: Result<Request<'a>, Error>)
        ensures
            key_path@.len() > MAX_KEY_PATH_LEN <==> r == Err::<Request<'a>, Error>(Error::Range),
            key_path@.len() <= MAX_KEY_PATH_LEN ==> r is Ok,
            r is Ok ==> r->Ok_0 is UpdateConfig && r->Ok_0->UpdateConfig_key_path.segments@
                == key_path@ && r->Ok_0->UpdateConfig_timestamp == timestamp
                && r->Ok_0->UpdateConfig_value == value,
    {
        let path = key_path_to_buf_list(key_path)?;
        Ok(Request::UpdateConfig { key_path: path, timestamp, value })
    }

    /// Reports the component's lifecycle state.
    pub fn update_state<'a>(&self, state: ComponentState) -> (r: Request<'a>)
        ensures
            r == (Request::UpdateState { state }),
    {
        Request::UpdateState { state }
    }

    /// Asks the runtime to restart a component.
    pub fn restart_component<'a>(&self, component_name: &'a str) -> (r: Request<'a>)
        ensures
            r == (Request::RestartComponent { component_name }),
    {
        Request::RestartComponent { component_name }
    }

    /// Subscribes to changes of the configuration under `key_path`, of the
    /// caller or of `component_name`; fails with `Range` where the path is
    /// too deep. Deliveries are decoded with `decode_key_path`.
    pub fn subscribe_to_configuration_update<'a>(
        &self,
        component_name: Option<&'a str>,
        key_path: &[&'a str],
    ) -> (r: Result<Request<'a>, Error>)
        ensures
            key_path@.len() > MAX_KEY_PATH_LEN <==> r == Err::<Request<'a>, Error>(Error::Range),
            key_path@.len() <= MAX_KEY_PATH_LEN ==> r is Ok,
            r is Ok ==> r->Ok_0 is SubscribeToConfigurationUpdate
                && r->Ok_0->SubscribeToConfigurationUpdate_key_path.segments@ == key_path@
                && r->Ok_0->SubscribeToConfigurationUpdate_component_name == component_name,
    {
        let path = key_path_to_buf_list(key_path)?;
        Ok(Request::SubscribeToConfigurationUpdate { component_name, key_path: path })
    }

    /// Invokes `operation` with `params`; its one response is handed to the
    /// caller through `Response::outcome`.
    pub fn call<'a>(&self, operation: &'a str, service_model_type: &'a str, params: &'a [Kv]) -> (r:
        Request<'a>)
        ensures
            r == (Request::Call { operation, service_model_type, params }),
    {
        Request::Call { operation, service_model_type, params }
    }

    /// Invokes `operation` with `params` and opens a stream; `aux_ctx` is
    /// handed back with every stream message so that one callback can serve
    /// several subscriptions.
    pub fn subscribe<'a>(
        &self,
        operation: &'a str,
        service_model_type: &'a str,
        params: &'a [Kv],
        aux_ctx: usize,
    ) -> (r: Request<'a>)
        ensures
            r == (Request::Subscribe { operation, service_model_type, params, aux_ctx }),
    {
        Request::Subscribe { operation, service_model_type, params, aux_ctx }
    }
}

/// A second connection attempt fails: once a first attempt has succeeded,
/// a further attempt is refused with `Failure` before the transport is
/// involved, and whatever the transport answers it, the client stays
/// connected and the attempt fails with `Failure`.
pub proof fn lemma_connect_once(first: Status, second: Status)
    requires
        connect_step(false, first).1 is Ok,
    ensures
        connect_step(false, first).0,
        connect_refusal(connect_step(false, first).0) == Some(Error::Failure),
        connect_step(connect_step(false, first).0, second) == (true, Err::<(), Error>(Error::Failure)),
{
}

/// A message delivered on a local topic subscription.
#[derive(Debug, Clone, Copy)]
pub enum SubscribeToTopicPayload<'a> {
    /// A JSON-shaped message, as key-value pairs.
    Json(KvMap<'a>),
    /// A binary message.
    Binary(&'a [u8]),
}

impl<'a> SubscribeToTopicPayload<'a> {
    /// Reads a delivered value as a topic message: pairs are a JSON-shaped
    /// message, text is a binary one (its UTF-8 bytes), and any other value
    /// is no message and is not handed to the callback.
    pub fn from_object(payload: &'a Object) -> (r: Option<SubscribeToTopicPayload<'a>>)
        ensures
            match payload {
                Object::KvMap(pairs) => r is Some && r->Some_0 is Json && r->Some_0->Json_0.0@
                    == pairs@,
                Object::Buf(text) => r is Some && r->Some_0 is Binary && r->Some_0->Binary_0@
                    == vstd::utf8::encode_utf8(text@),
                _ => r is None,
            },
    {
        match payload {
            Object::KvMap(pairs) => Some(SubscribeToTopicPayload::Json(KvMap(pairs.as_slice()))),
            Object::Buf(text) => Some(SubscribeToTopicPayload::Binary(text.as_str().as_bytes())),
            _ => None,
        }
    }
}

/// A topic message as the transport delivers it, before decoding.
#[derive(Debug, Clone, Copy)]
pub enum TopicDelivery<'a> {
    /// Key-value pairs.
    Pairs(&'a [Kv]),
    /// A raw byte buffer, in whatever encoding the publisher chose.
    Bytes(&'a [u8]),
    /// Any other kind of value.
    Other,
}

impl<'a> SubscribeToTopicPayload<'a> {
    /// Reads a delivered topic message: pairs are a JSON-shaped message, a
    /// byte buffer is a binary one, handed over unchanged, and any other
    /// value is no message and is not handed to the callback.
    pub fn from_delivery(delivery: TopicDelivery<'a>) -> (r: Option<SubscribeToTopicPayload<'a>>)
        ensures
            match delivery {
                TopicDelivery::Pairs(pairs) => r is Some && r->Some_0 is Json
                    && r->Some_0->Json_0.0@ == pairs@,
                TopicDelivery::Bytes(bytes) => r is Some && r->Some_0 is Binary
                    && r->Some_0->Binary_0@ == bytes@,
                TopicDelivery::Other => r is None,
            },
    {
        match delivery {
            TopicDelivery::Pairs(pairs) => Some(SubscribeToTopicPayload::Json(KvMap(pairs))),
            TopicDelivery::Bytes(bytes) => Some(SubscribeToTopicPayload::Binary(bytes)),
            TopicDelivery::Other => None,
        }
    }
}

/// Every item of `items` is text.
pub open spec fn all_text(items: Seq<Object>) -> bool {
    forall|i: int| 0 <= i < items.len() ==> (#[trigger] items[i]) is Buf
}

/// Reads the key path of a configuration change notification: a list of at
/// most `MAX_KEY_PATH_LEN` text segments. `None` where the list is longer or
/// holds anything but text.
pub fn decode_key_path<'a>(items: &'a [Object]) -> (r: Option<Vec<&'a str>>)
    ensures
        r is Some <==> items@.len() <= MAX_KEY_PATH_LEN && all_text(items@),
        r is Some ==> r->Some_0@.len() == items@.len() && forall|i: int|
            0 <= i < items@.len() ==> (#[trigger] r->Some_0@[i])@ == items@[i]->Buf_0@,
{
    if items.len() > MAX_KEY_PATH_LEN {
        return None;
    }
    let mut segments: Vec<&'a str> = Vec::new();
    let mut i: usize = 0;
    while i < items.len()
        invariant
            i <= items@.len(),
            segments@.len() == i,
            forall|j: int| 0 <= j < i ==> (#[trigger] items@[j]) is Buf,
            forall|j: int| 0 <= j < i ==> (#[trigger] segments@[j])@ == items@[j]->Buf_0@,
        decreases items@.len() - i,
    {
        match &items[i] {
            Object::Buf(text) => {
                segments.push(text.as_str());
            },
            _ => {
                return None;
            },
        }
        i = i + 1;
    }
    Some(segments)
}

/// Checks a text configuration value against the caller's scratch space of
/// `capacity` bytes: a value whose UTF-8 encoding does not fit fails with
/// `Nomem`, never cut short; an error of the transport passes through.
pub fn config_str_from_reply<'a>(reply: Result<&'a str, Error>, capacity: usize) -> (r: Result<
    &'a str,
    Error,
>)
    ensures
        match reply {
            Ok(text) => if (vstd::utf8::encode_utf8(text@).len() as usize) > capacity {
                r == Err::<&'a str, Error>(Error::Nomem)
            } else {
                r == Ok::<&'a str, Error>(text)
            },
            Err(e) => r == Err::<&'a str, Error>(e),
        },
{
    match reply {
        Ok(text) => {
            if text.len() > capacity {
                Err(Error::Nomem)
            } else {
                Ok(text)
            }
        },
        Err(e) => Err(e),
    }
}

/// The one response to a call or to the opening of a stream.
#[derive(Debug)]
pub enum Response {
    /// The operation succeeded with these pairs.
    Success(Vec<Kv>),
    /// The peer reported an application error.
    Remote { error_code: String, message: String },
}

impl Response {
    /// What the caller's response callback is handed.
    pub fn outcome(&self) -> (r: Result<&[Kv], IpcError<'_>>)
        ensures
            match self {
                Response::Success(pairs) => r is Ok && r->Ok_0@ == pairs@,
                Response::Remote { error_code, message } => r is Err && r->Err_0.error_code@
                    == error_code@ && r->Err_0.message@ == message@,
            },
    {
        match self {
            Response::Success(pairs) => Ok(pairs.as_slice()),
            Response::Remote { error_code, message } => Err(
                IpcError { error_code: error_code.as_str(), message: message.as_str() },
            ),
        }
    }
}

/// Handle of a subscription: the stream identifier that the transport gave,
/// and the callback that deliveries on that stream are handed to. The
/// handle owns the callback: once it is closed or dropped, no delivery can
/// reach the callback. An inactive handle has identifier zero and no
/// callback.
pub struct Subscription<C> {
    handle: u64,
    callback: Option<C>,
}

impl<C> View for Subscription<C> {
    /// The identifier (zero where inactive) and the callback.
    type V = (u64, Option<C>);

    closed spec fn view(&self) -> (u64, Option<C>) {
        (self.handle, self.callback)
    }
}

/// A handle's state is consistent: it is active exactly when it holds a
/// callback.
pub open spec fn subscription_wf<C>(s: (u64, Option<C>)) -> bool {
    (s.0 != 0) == (s.1 is Some)
}

/// The handle after the transport answered a subscribe request with
/// `status` and stream identifier `handle`: active with `callback`, or the
/// error, the callback then being dropped at once.
pub open spec fn register_step<C>(status: Status, handle: u64, callback: C) -> Result<
    (u64, Option<C>),
    Error,
> {
    match status {
        Status::Failed(e) => Err(e),
        Status::Success => if handle == 0 {
            Err(Error::Failure)
        } else {
            Ok((handle, Some(callback)))
        },
    }
}

/// The handle's state after closing it, and the stream that the transport
/// is to close; closing an inactive handle changes nothing and asks for
/// nothing.
pub open spec fn close_step<C>(s: (u64, Option<C>)) -> ((u64, Option<C>), Option<u64>) {
    if s.0 == 0 {
        (s, None)
    } else {
        ((0, None), Some(s.0))
    }
}

/// The callback that a delivery on stream `stream` reaches: the handle's
/// callback where the handle is active on that stream, else none.
pub open spec fn delivery_target<C>(s: (u64, Option<C>), stream: u64) -> Option<C> {
    if s.0 != 0 && s.0 == stream {
        s.1
    } else {
        None
    }
}

/// The handle's state, or the error, of a result of `Subscription::register`.
pub open spec fn handle_of<C>(r: Result<Subscription<C>, Error>) -> Result<(u64, Option<C>), Error> {
    match r {
        Ok(s) => Ok(s@),
        Err(e) => Err(e),
    }
}

impl<C> Subscription<C> {
    /// Records the transport's answer to a subscribe request. On success the
    /// returned handle owns `callback` under the stream identifier that the
    /// transport gave; on failure, or where that identifier is zero, the
    /// callback is dropped at once and the error returned.
    pub fn register(status: Status, handle: u64, callback: C) -> (r: Result<Subscription<C>, Error>)
        ensures
            handle_of(r) == register_step(status, handle, callback),
            r is Ok ==> subscription_wf(r->Ok_0@),
    {
        match status {
            Status::Failed(e) => Err(e),
            Status::Success => {
                if handle == 0 {
                    return Err(Error::Failure);
                }
                Ok(Subscription { handle, callback: Some(callback) })
            },
        }
    }

    /// The stream identifier; zero where inactive.
    pub fn handle(&self) -> (r: u64)
        ensures
            r == self@.0,
    {
        self.handle
    }

    /// Whether the subscription is active.
    pub fn is_active(&self) -> (r: bool)
        ensures
            r == (self@.0 != 0),
    {
        self.handle != 0
    }

    /// The callback to invoke for a delivery on stream `stream`: `None`
    /// where this handle is inactive or belongs to another stream.
    pub fn callback(&self, stream: u64) -> (r: Option<&C>)
        ensures
            match r {
                Some(c) => delivery_target(self@, stream) == Some(*c),
                None => delivery_target(self@, stream) is None,
            },
    {
        if self.handle != 0 && self.handle == stream {
            match &self.callback {
                Some(c) => Some(c),
                None => None,
            }
        } else {
            None
        }
    }

    /// Closes the subscription: its callback is dropped, the handle becomes
    /// inactive, and the identifier of the stream that the transport is to
    /// close is returned. Closing an inactive handle does nothing.
    pub fn close(&mut self) -> (r: Option<u64>)
        ensures
            (final(self)@, r) == close_step(old(self)@),
        opens_invariants none
        no_unwind
    {
        if self.handle == 0 {
            return None;
        }
        let handle = self.handle;
        self.handle = 0;
        self.callback = None;
        Some(handle)
    }
}

impl<C> Default for Subscription<C> {
    /// A handle that was never registered.
    fn default() -> (r: Subscription<C>)
        ensures
            r@ == (0u64, None::<C>),
    {
        Subscription { handle: 0, callback: None }
    }
}

impl<C> Drop for Subscription<C> {
    /// Dropping a handle closes it, dropping its callback with it.
    fn drop(&mut self)
        opens_invariants none
        no_unwind
    {
        self.close();
    }
}

/// Once a handle is closed, no delivery on any stream reaches its callback,
/// and closing it again changes nothing and asks the transport for nothing.
pub proof fn lemma_closed_subscription_is_silent<C>(s: (u64, Option<C>), stream: u64)
    requires
        subscription_wf(s),
    ensures
        delivery_target(close_step(s).0, stream) is None,
        subscription_wf(close_step(s).0),
        close_step(close_step(s).0) == (close_step(s).0, None::<u64>),
        s.0 != 0 ==> close_step(s).1 == Some(s.0),
{
}

} // verus!
