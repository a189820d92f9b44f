//! The build orchestrator: consumes the engine's image-build event stream
//! one message at a time, classifies each message into its incremental
//! build-log text and its status text, and forwards the texts to the sink
//! in arrival order.
//!
//! The streaming connection itself is performed outside this crate; the
//! classification and the decisions at each stream read are verified here,
//! and the forwarding order over a whole stream is proved.

use vstd::prelude::*;

use crate::archive::dockerfile_bytes;
use crate::archive::generate_dockerfile;
use crate::archive::gzip_of;
use crate::archive::tar_archive_bytes;
use crate::errors::EngineError;
use crate::errors::EngineErrorModel;

verus! {

/// An image-build request, immutable once constructed. The engine-level
/// flags the orchestrator sets beside it — always pull the base image,
/// always remove intermediate build containers — carry no data and are
/// fixed at the call site.
pub struct BuildRequest {
    /// The name (tag) the built image gets.
    pub image_name: String,
    /// The compressed build-context archive handed to the build endpoint.
    pub build_context: Vec<u8>,
}

/// Assembles the build request: the given image name together with the
/// packaged fixed build descriptor.
pub fn new_build_request(image_name: String) -> (r: BuildRequest)
    ensures
        r.image_name@ == image_name@,
        r.build_context@ == gzip_of(tar_archive_bytes(dockerfile_bytes())),
{
    BuildRequest { image_name, build_context: generate_dockerfile() }
}

/// One message of the engine's build stream: it may carry an incremental
/// build-log text, a status text, both, or neither.
pub struct BuildMessage {
    /// An incremental build log line, if the message carries one.
    pub stream: Option<String>,
    /// An engine status message, if the message carries one.
    pub status: Option<String>,
}

/// Spec-level value of a [`BuildMessage`].
pub ghost struct BuildMessageModel {
    pub stream: Option<Seq<char>>,
    pub status: Option<Seq<char>>,
}

impl View for BuildMessage {
    type V = BuildMessageModel;

    open spec fn view(&self) -> BuildMessageModel {
        BuildMessageModel {
            stream: match &self.stream {
                Some(s) => Some(s@),
                None => None,
            },
            status: match &self.status {
                Some(s) => Some(s@),
                None => None,
            },
        }
    }
}

/// One classified build event: either an incremental build-log text or an
/// engine status text, made explicit as a tagged variant.
#[derive(Debug, PartialEq, Eq)]
pub enum BuildEvent {
    /// An incremental build log line.
    Stream(String),
    /// An engine status message.
    Status(String),
}

/// Spec-level value of a [`BuildEvent`].
pub ghost enum BuildEventModel {
    Stream(Seq<char>),
    Status(Seq<char>),
}

impl View for BuildEvent {
    type V = BuildEventModel;

    open spec fn view(&self) -> BuildEventModel {
        match self {
            BuildEvent::Stream(s) => BuildEventModel::Stream(s@),
            BuildEvent::Status(s) => BuildEventModel::Status(s@),
        }
    }
}

/// The text a classified event carries.
pub open spec fn event_text(e: BuildEventModel) -> Seq<char> {
    match e {
        BuildEventModel::Stream(s) => s,
        BuildEventModel::Status(s) => s,
    }
}

/// The events one engine message produces: its build-log text first (if
/// present), then its status text (if present) — zero, one or two events.
pub open spec fn message_events(m: BuildMessageModel) -> Seq<BuildEventModel> {
    (match m.stream {
        Some(s) => seq![BuildEventModel::Stream(s)],
        None => Seq::empty(),
    }) + (match m.status {
        Some(s) => seq![BuildEventModel::Status(s)],
        None => Seq::empty(),
    })
}

/// The texts one engine message has forwarded, in order.
pub open spec fn message_texts(m: BuildMessageModel) -> Seq<Seq<char>> {
    message_events(m).map(|i: int, e: BuildEventModel| event_text(e))
}

/// The texts a whole stream of engine messages has forwarded: each
/// message's texts, in arrival order.
pub open spec fn forwarded_texts(msgs: Seq<BuildMessageModel>) -> Seq<Seq<char>>
    decreases msgs.len(),
{
    if msgs.len() == 0 {
        Seq::empty()
    } else {
        message_texts(msgs[0]) + forwarded_texts(msgs.drop_first())
    }
}

/// Classifies one engine message into its explicit events: the build-log
/// text first, then the status text, each only when present.
pub fn classify_message(msg: BuildMessage) -> (evs: Vec<BuildEvent>)
    ensures
        evs@.map(|i: int, e: BuildEvent| e@) == message_events(msg@),
{
    let ghost m = msg@;
    let mut evs: Vec<BuildEvent> = Vec::new();
    let BuildMessage { stream, status } = msg;
    match stream {
        Some(s) => evs.push(BuildEvent::Stream(s)),
        None => {},
    }
    match status {
        Some(s) => evs.push(BuildEvent::Status(s)),
        None => {},
    }
    proof {
        assert(evs@.map(|i: int, e: BuildEvent| e@) =~= message_events(m));
    }
    evs
}

/// The texts of one engine message, in forwarding order: what the sink
/// receives for this message when one is configured.
pub fn message_forward_texts(msg: BuildMessage) -> (r: Vec<String>)
    ensures
        r@.map(|i: int, s: String| s@) == message_texts(msg@),
{
    let ghost m = msg@;
    let mut r: Vec<String> = Vec::new();
    let BuildMessage { stream, status } = msg;
    match stream {
        Some(s) => r.push(s),
        None => {},
    }
    match status {
        Some(s) => r.push(s),
        None => {},
    }
    proof {
        assert(r@.map(|i: int, s: String| s@) =~= message_texts(m));
    }
    r
}

/// Appending one message to a stream appends exactly its texts.
pub proof fn lemma_forwarded_push(s: Seq<BuildMessageModel>, m: BuildMessageModel)
    ensures
        forwarded_texts(s.push(m)) == forwarded_texts(s) + message_texts(m),
    decreases s.len(),
{
    if s.len() == 0 {
        assert(s.push(m)[0] == m);
        assert(s.push(m).drop_first() =~= s);
        assert(forwarded_texts(s.push(m)) =~= forwarded_texts(s) + message_texts(m));
    } else {
        assert(s.push(m)[0] == s[0]);
        assert(s.push(m).drop_first() =~= s.drop_first().push(m));
        lemma_forwarded_push(s.drop_first(), m);
        assert(forwarded_texts(s.push(m)) =~= forwarded_texts(s) + message_texts(m));
    }
}

/// The texts a whole scripted stream forwards, in order: each message's
/// build-log text first, then its status text, message after message.
pub fn forward_plan(msgs: &Vec<BuildMessage>) -> (r: Vec<String>)
    ensures
        r@.map(|i: int, s: String| s@) == forwarded_texts(
            msgs@.map(|i: int, m: BuildMessage| m@),
        ),
{
    let ghost models = msgs@.map(|i: int, m: BuildMessage| m@);
    let mut r: Vec<String> = Vec::new();
    let mut i: usize = 0;
    while i < msgs.len()
        invariant
            i <= msgs@.len(),
            models == msgs@.map(|i: int, m: BuildMessage| m@),
            r@.map(|i: int, s: String| s@) == forwarded_texts(models.take(i as int)),
        decreases msgs@.len() - i,
    {
        let ghost before = r@.map(|i: int, s: String| s@);
        let m = &msgs[i];
        match &m.stream {
            Some(s) => r.push(s.clone()),
            None => {},
        }
        match &m.status {
            Some(s) => r.push(s.clone()),
            None => {},
        }
        proof {
            assert(r@.map(|i: int, s: String| s@) =~= before + message_texts(models[i as int]));
            assert(models.take((i + 1) as int) =~= models.take(i as int).push(models[i as int]));
            lemma_forwarded_push(models.take(i as int), models[i as int]);
        }
        i = i + 1;
    }
    proof {
        assert(models.take(models.len() as int) =~= models);
    }
    r
}

/// What the surrounding task observed at one read of the build stream.
pub enum BuildStreamEvent {
    /// The stream yielded one engine message.
    Message(BuildMessage),
    /// The stream ended; the build is complete.
    Finished,
    /// A transport-level failure while reading the stream.
    TransportFailed(String),
    /// The sink rejected a forwarded text: its consumer has disconnected.
    SinkRejected,
}

/// The build orchestrator's decision after one read.
#[derive(Debug, PartialEq, Eq)]
pub enum BuildAction {
    /// Forward these texts to the sink, in order.
    ForwardAll(Vec<String>),
    /// The stream is drained: the build call returns success.
    Succeed,
    /// The build call returns this error at once; events already forwarded
    /// stay delivered.
    Fail(EngineError),
}

/// The decision at one read of the build stream: a message has its texts
/// forwarded (none without a sink), the end of the stream is success, and
/// a transport failure or a rejected forward aborts the call at once.
pub fn build_step(has_sink: bool, ev: BuildStreamEvent) -> (a: BuildAction)
    ensures
        match ev {
            BuildStreamEvent::Message(m) => a matches BuildAction::ForwardAll(ts) && (has_sink
                ==> ts@.map(|i: int, s: String| s@) == message_texts(m@)) && (!has_sink ==> ts@
                =~= Seq::<String>::empty()),
            BuildStreamEvent::Finished => a is Succeed,
            BuildStreamEvent::TransportFailed(msg) => a matches BuildAction::Fail(e) && e@
                == EngineErrorModel::Transport(msg@),
            BuildStreamEvent::SinkRejected => a matches BuildAction::Fail(e) && e@
                == EngineErrorModel::SinkClosed,
        },
{
    match ev {
        BuildStreamEvent::Message(m) => {
            if has_sink {
                BuildAction::ForwardAll(message_forward_texts(m))
            } else {
                BuildAction::ForwardAll(Vec::new())
            }
        },
        BuildStreamEvent::Finished => BuildAction::Succeed,
        BuildStreamEvent::TransportFailed(msg) => BuildAction::Fail(EngineError::Transport(msg)),
        BuildStreamEvent::SinkRejected => BuildAction::Fail(EngineError::SinkClosed),
    }
}

/// The forwarding-order law: over any sequence of engine build messages,
/// the texts forwarded to the sink are exactly the concatenation, in
/// arrival order, of each message's build-log text (when present) followed
/// by its status text (when present).
pub proof fn lemma_build_forward_order(msgs: Seq<BuildMessageModel>)
    ensures
        forwarded_texts(msgs) == msgs.map(|i: int, m: BuildMessageModel| message_texts(m)).flatten(),
    decreases msgs.len(),
{
    let mapped = msgs.map(|i: int, m: BuildMessageModel| message_texts(m));
    if msgs.len() == 0 {
        assert(mapped =~= Seq::<Seq<Seq<char>>>::empty());
        assert(forwarded_texts(msgs) =~= mapped.flatten());
    } else {
        let rest = msgs.drop_first();
        lemma_build_forward_order(rest);
        let mapped_rest = rest.map(|i: int, m: BuildMessageModel| message_texts(m));
        assert(mapped.drop_first() =~= mapped_rest);
        assert(mapped[0] == message_texts(msgs[0]));
        assert(mapped.flatten() == mapped.first() + mapped.drop_first().flatten());
        assert(mapped.first() == message_texts(msgs[0]));
        assert(forwarded_texts(msgs) =~= mapped.flatten());
    }
}

} // verus!
