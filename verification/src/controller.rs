//! The archiving controller: the run lifecycle as a state machine.
//!
//! The controller owns the single recording session that may be open. For
//! every classified message it decides what has to happen (ask for a new
//! sink, forward a frame, discard the session, or nothing) and which
//! metrics the message is worth. The sink itself lives outside: whoever
//! drives the controller creates it when asked, appends the frames handed
//! out, and tells the controller how that went.

use vstd::prelude::*;

use crate::classify::{Classified, Kind};
use crate::envelope::Envelope;
use crate::frame::TraceFrame;
use crate::naming::{filename_of, generate_filename, NameError};

verus! {

/// Label of the counter of received messages.
#[derive(Clone, Copy, Debug, PartialEq, Eq)]
pub enum MessageKind {
    /// A trace frame that decoded.
    Trace,
    /// A message of no known kind, or on the wrong topic.
    Unknown,
}

/// Label of the counter of failures.
#[derive(Clone, Copy, Debug, PartialEq, Eq)]
pub enum FailureKind {
    /// A payload announced a trace frame and did not decode.
    UnableToDecodeMessage,
    /// An artifact could not be named, created or written.
    FileWriteFailed,
}

/// What a new session needs from the sink.
#[derive(Clone, Debug, PartialEq, Eq)]
pub struct SessionRequest {
    /// Name of the artifact to create.
    pub name: String,
    /// Number of digitizers the artifact has to hold.
    pub digitizer_count: usize,
}

/// What the driver has to do after a message.
#[derive(Clone, Debug, PartialEq, Eq)]
pub enum ControllerAction {
    /// Create a sink for this request and report the outcome with
    /// `session_outcome`.
    OpenSession(SessionRequest),
    /// Append this frame to the sink of the open session and report the
    /// outcome with `append_outcome`.
    Forward(TraceFrame),
    /// The session was discarded; its artifact is complete.
    Discarded,
    /// Nothing to do.
    Nothing,
}

/// The controller's answer to one message.
#[derive(Clone, Debug, PartialEq, Eq)]
pub struct Step {
    /// What the driver has to do.
    pub action: ControllerAction,
    /// The received-message counter to increment, if any.
    pub received: Option<MessageKind>,
    /// The failure counter to increment, if any.
    pub failure: Option<FailureKind>,
}

/// One open recording: the sink, and what it was created with.
pub struct RunSession<S> {
    /// Handle of the sink that persists the run.
    pub sink: S,
    /// Number of digitizers, fixed when the session was created.
    pub digitizer_count: usize,
    /// Name of the artifact.
    pub artifact: String,
}

/// A session without its sink: what the state machine can tell of it.
pub struct SessionModel {
    /// Name of the artifact.
    pub artifact: Seq<char>,
    /// Number of digitizers.
    pub digitizer_count: usize,
}

/// State of the machine: the open session, if there is one.
pub type State = Option<SessionModel>;

/// An action without the values it carries by ownership.
pub enum Decision {
    /// Ask for a sink with this name and digitizer count.
    OpenSession { name: Seq<char>, digitizer_count: usize },
    /// Forward the frame of the message.
    Forward,
    /// The open session is discarded.
    Discarded,
    /// Nothing happens.
    Nothing,
}

/// What the machine decides for a message of `kind` when a session is
/// `open` or not. `name` is the artifact name that the message's timestamp
/// gives; it matters for a run start without an open session only.
pub open spec fn decision(
    open: bool,
    kind: Kind,
    name: Result<Seq<char>, NameError>,
    digitizer_count: usize,
) -> Decision {
    match kind {
        Kind::RunStart => if open {
            Decision::Nothing
        } else {
            match name {
                Ok(n) => Decision::OpenSession { name: n, digitizer_count },
                Err(_) => Decision::Nothing,
            }
        },
        Kind::RunStop => if open {
            Decision::Discarded
        } else {
            Decision::Nothing
        },
        Kind::TraceFrame => if open {
            Decision::Forward
        } else {
            Decision::Nothing
        },
        Kind::Unrecognized | Kind::Unexpected | Kind::DecodeFailed => Decision::Nothing,
    }
}

/// The received-message counter that a message of `kind` increments.
pub open spec fn received_metric(kind: Kind) -> Option<MessageKind> {
    match kind {
        Kind::TraceFrame => Some(MessageKind::Trace),
        Kind::Unrecognized | Kind::Unexpected => Some(MessageKind::Unknown),
        Kind::RunStart | Kind::RunStop | Kind::DecodeFailed => None,
    }
}

/// The failure counter that a message of `kind` increments before any
/// sink is touched: a frame that did not decode, or a run start whose
/// timestamp gives no name while no session is open.
pub open spec fn failure_metric(open: bool, kind: Kind, name: Result<Seq<char>, NameError>) -> Option<
    FailureKind,
> {
    match kind {
        Kind::DecodeFailed => Some(FailureKind::UnableToDecodeMessage),
        Kind::RunStart => if !open && name is Err {
            Some(FailureKind::FileWriteFailed)
        } else {
            None
        },
        _ => None,
    }
}

/// The state after a message of `kind`, before any sink outcome: a run
/// stop closes the session, and nothing else changes the state.
pub open spec fn after_message(state: State, kind: Kind) -> State {
    if kind == Kind::RunStop {
        None
    } else {
        state
    }
}

/// The state after the sink has answered a request for a session with
/// `name`: a sink that was created is installed unless a session is open
/// already, and a failed creation leaves the state as it was.
pub open spec fn after_outcome(state: State, name: Seq<char>, digitizer_count: usize, created: bool) -> State {
    if created && state is None {
        Some(SessionModel { artifact: name, digitizer_count })
    } else {
        state
    }
}

/// The failure counter that a sink outcome increments.
pub open spec fn outcome_failure(succeeded: bool) -> Option<FailureKind> {
    if succeeded {
        None
    } else {
        Some(FailureKind::FileWriteFailed)
    }
}

impl View for ControllerAction {
    type V = Decision;

    open spec fn view(&self) -> Decision {
        match *self {
            ControllerAction::OpenSession(request) => Decision::OpenSession {
                name: request.name@,
                digitizer_count: request.digitizer_count,
            },
            ControllerAction::Forward(_) => Decision::Forward,
            ControllerAction::Discarded => Decision::Discarded,
            ControllerAction::Nothing => Decision::Nothing,
        }
    }
}

impl<S> View for RunSession<S> {
    type V = SessionModel;

    open spec fn view(&self) -> SessionModel {
        SessionModel { artifact: self.artifact@, digitizer_count: self.digitizer_count }
    }
}

/// The archiving controller for one partition.
pub struct Controller<S> {
    session: Option<RunSession<S>>,
    digitizer_count: usize,
}

impl<S> Controller<S> {
    /// The open session, if there is one.
    pub closed spec fn session(&self) -> Option<RunSession<S>> {
        self.session
    }

    /// The digitizer count that new sessions are created with.
    pub closed spec fn configured_digitizer_count(&self) -> usize {
        self.digitizer_count
    }

    /// Whether a session is open.
    pub open spec fn open(&self) -> bool {
        self.session() is Some
    }

    /// State of the machine.
    pub open spec fn state(&self) -> State {
        match self.session() {
            Some(session) => Some(session@),
            None => None,
        }
    }

    /// A controller without a session.
    pub fn new(digitizer_count: usize) -> (controller: Controller<S>)
        ensures
            controller.session() is None,
            controller.configured_digitizer_count() == digitizer_count,
    {
        Controller { session: None, digitizer_count }
    }

    /// Whether a session is open.
    pub fn is_open(&self) -> (open: bool)
        ensures
            open == self.open(),
    {
        self.session.is_some()
    }

    /// The open session.
    pub fn current_session(&self) -> (session: Option<&RunSession<S>>)
        ensures
            match session {
                Some(s) => self.session() == Some(*s),
                None => self.session() is None,
            },
    {
        self.session.as_ref()
    }

    /// The sink of the open session, to append a frame to.
    pub fn sink_mut(&mut self) -> (sink: Option<&mut S>)
        ensures
            match sink {
                Some(s) => old(self).session() is Some && *s == old(self).session()->0.sink
                    && final(self).session() == Some(
                    RunSession {
                        sink: *final(s),
                        digitizer_count: old(self).session()->0.digitizer_count,
                        artifact: old(self).session()->0.artifact,
                    },
                ),
                None => old(self).session() is None && final(self).session() is None,
            },
            final(self).configured_digitizer_count() == old(self).configured_digitizer_count(),
    {
        match &mut self.session {
            Some(session) => Some(&mut session.sink),
            None => None,
        }
    }

    /// Answers a run start that found no session open, given the name that
    /// the message's timestamp gave: a request for a sink under that name,
    /// or a file-write failure where there is no name. The state does not
    /// change: the session opens when the sink has been created.
    pub fn session_request(&self, name: Result<String, NameError>) -> (step: Step)
        ensures
            step.received is None,
            match name {
                Ok(n) => step.failure is None && step.action == ControllerAction::OpenSession(
                    SessionRequest {
                        name: n,
                        digitizer_count: self.configured_digitizer_count(),
                    },
                ),
                Err(_) => step.failure == Some(FailureKind::FileWriteFailed) && step.action
                    == ControllerAction::Nothing,
            },
    {
        match name {
            Ok(n) => Step {
                action: ControllerAction::OpenSession(
                    SessionRequest { name: n, digitizer_count: self.digitizer_count },
                ),
                received: None,
                failure: None,
            },
            Err(_) => Step {
                action: ControllerAction::Nothing,
                received: None,
                failure: Some(FailureKind::FileWriteFailed),
            },
        }
    }

    /// Handles one classified message.
    ///
    /// The action, the metrics and the next state are those of the
    /// transition table: a run start opens nothing by itself but asks for a
    /// sink where no session is open; a run stop discards the session; a
    /// trace frame is forwarded while a session is open and dropped
    /// otherwise; every other kind only counts. Only a run stop changes
    /// the state here.
    pub fn handle(&mut self, classified: Classified, envelope: &Envelope) -> (step: Step)
        ensures
            step.action@ == decision(
                old(self).open(),
                classified.kind(),
                filename_of(envelope.timestamp),
                old(self).configured_digitizer_count(),
            ),
            step.action is Forward ==> classified == Classified::TraceFrame(step.action->Forward_0),
            step.received == received_metric(classified.kind()),
            step.failure == failure_metric(
                old(self).open(),
                classified.kind(),
                filename_of(envelope.timestamp),
            ),
            classified.kind() == Kind::RunStop ==> final(self).session() is None,
            classified.kind() != Kind::RunStop ==> final(self).session() == old(self).session(),
            final(self).state() == after_message(old(self).state(), classified.kind()),
            final(self).configured_digitizer_count() == old(self).configured_digitizer_count(),
    {
        match classified {
            Classified::RunStart => {
                if self.session.is_some() {
                    Step { action: ControllerAction::Nothing, received: None, failure: None }
                } else {
                    let name = generate_filename(envelope.timestamp);
                    self.session_request(name)
                }
            },
            Classified::RunStop => {
                let action = if self.session.is_some() {
                    ControllerAction::Discarded
                } else {
                    ControllerAction::Nothing
                };
                self.session = None;
                Step { action, received: None, failure: None }
            },
            Classified::TraceFrame(frame) => {
                let action = if self.session.is_some() {
                    ControllerAction::Forward(frame)
                } else {
                    ControllerAction::Nothing
                };
                Step { action, received: Some(MessageKind::Trace), failure: None }
            },
            Classified::Unrecognized => Step {
                action: ControllerAction::Nothing,
                received: Some(MessageKind::Unknown),
                failure: None,
            },
            Classified::Unexpected => Step {
                action: ControllerAction::Nothing,
                received: Some(MessageKind::Unknown),
                failure: None,
            },
            Classified::DecodeFailed => Step {
                action: ControllerAction::Nothing,
                received: None,
                failure: Some(FailureKind::UnableToDecodeMessage),
            },
        }
    }

    /// Takes the sink's answer to a session request.
    ///
    /// A sink that was created becomes the session, with the name and the
    /// digitizer count of the request, unless a session is open already:
    /// then the first one stays and the new sink is let go. A creation that
    /// failed counts as a file-write failure and leaves the state as it was.
    pub fn session_outcome(&mut self, request: SessionRequest, sink: Option<S>) -> (failure: Option<
        FailureKind,
    >)
        ensures
            failure == outcome_failure(sink is Some),
            final(self).state() == after_outcome(
                old(self).state(),
                request.name@,
                request.digitizer_count,
                sink is Some,
            ),
            sink is Some && !old(self).open() ==> final(self).session() == Some(
                RunSession {
                    sink: sink->0,
                    digitizer_count: request.digitizer_count,
                    artifact: request.name,
                },
            ),
            sink is None || old(self).open() ==> final(self).session() == old(self).session(),
            final(self).configured_digitizer_count() == old(self).configured_digitizer_count(),
    {
        match sink {
            Some(sink) => {
                if self.session.is_none() {
                    self.session = Some(
                        RunSession {
                            sink,
                            digitizer_count: request.digitizer_count,
                            artifact: request.name,
                        },
                    );
                }
                None
            },
            None => Some(FailureKind::FileWriteFailed),
        }
    }

    /// Takes the sink's answer to a forwarded frame: a write that failed
    /// counts as a file-write failure. The session stays open either way.
    pub fn append_outcome(&self, written: bool) -> (failure: Option<FailureKind>)
        ensures
            failure == outcome_failure(written),
    {
        if written {
            None
        } else {
            Some(FailureKind::FileWriteFailed)
        }
    }
}

} // verus!
