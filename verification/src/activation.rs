//! Activation state machine: how the input method attaches to a host editing
//! session and lets go of it again.
//!
//! The host asks for activation and deactivation. What has to be done with
//! the host and the window system in between is asked of the caller, one
//! request at a time; the caller performs each request and hands back its
//! reply, and the machine says what comes next. The transitions are defined
//! once, as functions on the view of a context, and the methods of
//! [`ActivationContext`] compute them.

use crate::candidate_list::{destroy_script, CandidateList, Command, OverlayError};
use crate::global::E_FAIL;
use crate::mailbox::Mailbox;
use vstd::prelude::*;

verus! {

/// One thing asked of the caller.
#[derive(Clone, Copy, Debug, PartialEq, Eq)]
pub enum Request {
    /// Find the window of the view that has the focus.
    ResolveAnchor,
    /// Create the candidate window for that anchor.
    CreateOverlay { anchor: isize },
    /// Subscribe the keystroke sink for the thread.
    SubscribeKeySink { tid: u32 },
    /// Subscribe the sink for thread manager and focus events.
    SubscribeEventSink,
    /// Unsubscribe the keystroke sink of the thread.
    UnsubscribeKeySink { tid: u32 },
    /// Unsubscribe the sink that was subscribed under the cookie.
    UnsubscribeEventSink { cookie: u32 },
    /// Perform a command on the candidate window.
    Overlay(Command),
}

/// What the caller hands back for a request. A failure comes with the code
/// that the host or the window system gave for it.
pub enum Reply {
    /// For `ResolveAnchor`: the handle of the anchor window.
    Anchor(Result<isize, i32>),
    /// For `CreateOverlay`: the overlay.
    Overlay(Result<CandidateList, OverlayError>),
    /// For `SubscribeKeySink`.
    KeySink(Result<(), i32>),
    /// For `SubscribeEventSink`: the cookie of the subscription.
    EventSink(Result<u32, i32>),
}

/// Why an activation or a deactivation did not succeed.
#[derive(Clone, Copy, Debug, PartialEq, Eq)]
pub enum ActivationError {
    /// Activation was asked for without a thread manager.
    MissingThreadManager,
    /// Deactivation was asked for while no thread manager was held.
    NoActiveThreadManager,
    /// The anchor window could not be found.
    AnchorUnavailable(i32),
    /// The candidate window could not be created.
    Overlay(OverlayError),
    /// A sink could not be subscribed.
    SubscriptionError(i32),
    /// A reply was handed back that answers no request of the machine.
    OutOfSequence,
}

/// The code under which an error is reported to the host: the code that it
/// holds, or [`E_FAIL`] where it holds none.
pub open spec fn error_code(error: ActivationError) -> i32 {
    match error {
        ActivationError::AnchorUnavailable(code) => code,
        ActivationError::SubscriptionError(code) => code,
        ActivationError::Overlay(OverlayError::WindowCreationFailed(code)) => code,
        ActivationError::Overlay(OverlayError::FontCreationFailed(code)) => code,
        ActivationError::Overlay(OverlayError::PositionError(code)) => code,
        ActivationError::Overlay(OverlayError::DestroyFailed(code)) => code,
        _ => E_FAIL,
    }
}

/// Whether an error leaves the caller free to go on as if nothing had
/// failed.
pub open spec fn recoverable(error: ActivationError) -> bool {
    error == ActivationError::NoActiveThreadManager
}

impl ActivationError {
    /// The code under which the error is reported to the host.
    pub fn code(&self) -> (code: i32)
        ensures
            code == error_code(*self),
    {
        match *self {
            ActivationError::AnchorUnavailable(code) => code,
            ActivationError::SubscriptionError(code) => code,
            ActivationError::Overlay(error) => error.code(),
            _ => E_FAIL,
        }
    }

    /// Whether the caller may go on as if nothing had failed. That holds of
    /// a deactivation that found nothing to deactivate, and of nothing else.
    pub fn is_recoverable(&self) -> (yes: bool)
        ensures
            yes == recoverable(*self),
    {
        match *self {
            ActivationError::NoActiveThreadManager => true,
            _ => false,
        }
    }
}

/// What the machine says after each step: the next request, or that it is
/// done and how it ended.
pub enum Step {
    Ask(Request),
    Done(Result<(), ActivationError>),
}

/// What an activation context holds.
pub struct ContextView {
    /// The thread of the last activation.
    pub tid: u32,
    /// The thread manager of the session, while one is attached.
    pub thread_mgr: Option<usize>,
    /// The cookie of the event sink, while it is subscribed.
    pub cookie: Option<u32>,
    /// The candidate window, while there is one.
    pub overlay: Option<CandidateList>,
    /// The request whose reply the machine waits for, in the middle of an
    /// activation.
    pub awaiting: Option<Request>,
}

/// The context to which no session is attached.
pub open spec fn inactive() -> ContextView {
    ContextView { tid: 0, thread_mgr: None, cookie: None, overlay: None, awaiting: None }
}

/// What every context satisfies: a cookie is held only with a window, a
/// window only with a thread manager, and a reply is awaited only in the
/// order of an activation.
pub open spec fn well_formed(v: ContextView) -> bool {
    &&& v.cookie is Some ==> v.overlay is Some
    &&& v.overlay is Some ==> v.thread_mgr is Some
    &&& match v.awaiting {
        None => true,
        Some(Request::ResolveAnchor) => v.thread_mgr is Some,
        Some(Request::CreateOverlay { .. }) => v.thread_mgr is Some,
        Some(Request::SubscribeKeySink { tid }) => v.overlay is Some && tid == v.tid,
        Some(Request::SubscribeEventSink) => v.overlay is Some,
        Some(_) => false,
    }
}

/// Whether a session is fully attached: thread manager, window and cookie
/// are all held, and no reply is awaited.
pub open spec fn active(v: ContextView) -> bool {
    v.thread_mgr is Some && v.overlay is Some && v.cookie is Some && v.awaiting is None
}

/// The start of an activation. Without a thread manager it fails and
/// changes nothing. With one, thread and thread manager are recorded and
/// the anchor is asked for; a window or a cookie that the context still
/// holds stays until a step of the activation puts another in its place.
pub open spec fn begin(pre: ContextView, thread_mgr: Option<usize>, tid: u32) -> (
    ContextView,
    Step,
) {
    match thread_mgr {
        None => (pre, Step::Done(Err(ActivationError::MissingThreadManager))),
        Some(manager) => (
            ContextView {
                tid,
                thread_mgr: Some(manager),
                awaiting: Some(Request::ResolveAnchor),
                ..pre
            },
            Step::Ask(Request::ResolveAnchor),
        ),
    }
}

/// The context in which an activation ended, well or not: no reply is
/// awaited, and what had been recorded stays.
pub open spec fn settled(pre: ContextView) -> ContextView {
    ContextView { awaiting: None, ..pre }
}

/// The context that goes on to ask the next request.
pub open spec fn asking(pre: ContextView, request: Request) -> ContextView {
    ContextView { awaiting: Some(request), ..pre }
}

/// One step of an activation: what the reply to the awaited request leads
/// to. A success leads to the next request of the sequence anchor, window,
/// keystroke sink, event sink, and is recorded on the way; a failure ends
/// the activation and leaves what was recorded before it. A reply that does
/// not answer the awaited request changes nothing.
pub open spec fn advance(pre: ContextView, reply: Reply) -> (ContextView, Step) {
    match (pre.awaiting, reply) {
        (Some(Request::ResolveAnchor), Reply::Anchor(Ok(anchor))) => (
            asking(pre, Request::CreateOverlay { anchor }),
            Step::Ask(Request::CreateOverlay { anchor }),
        ),
        (Some(Request::ResolveAnchor), Reply::Anchor(Err(code))) => (
            settled(pre),
            Step::Done(Err(ActivationError::AnchorUnavailable(code))),
        ),
        (Some(Request::CreateOverlay { .. }), Reply::Overlay(Ok(overlay))) => (
            ContextView {
                overlay: Some(overlay),
                awaiting: Some(Request::SubscribeKeySink { tid: pre.tid }),
                ..pre
            },
            Step::Ask(Request::SubscribeKeySink { tid: pre.tid }),
        ),
        (Some(Request::CreateOverlay { .. }), Reply::Overlay(Err(error))) => (
            settled(pre),
            Step::Done(Err(ActivationError::Overlay(error))),
        ),
        (Some(Request::SubscribeKeySink { .. }), Reply::KeySink(Ok(_))) => (
            asking(pre, Request::SubscribeEventSink),
            Step::Ask(Request::SubscribeEventSink),
        ),
        (Some(Request::SubscribeKeySink { .. }), Reply::KeySink(Err(code))) => (
            settled(pre),
            Step::Done(Err(ActivationError::SubscriptionError(code))),
        ),
        (Some(Request::SubscribeEventSink), Reply::EventSink(Ok(cookie))) => (
            ContextView { cookie: Some(cookie), awaiting: None, ..pre },
            Step::Done(Ok(())),
        ),
        (Some(Request::SubscribeEventSink), Reply::EventSink(Err(code))) => (
            settled(pre),
            Step::Done(Err(ActivationError::SubscriptionError(code))),
        ),
        _ => (pre, Step::Done(Err(ActivationError::OutOfSequence))),
    }
}

/// What a deactivation has the caller do, in this order: unsubscribe the
/// keystroke sink; unsubscribe the event sink, if a cookie is held; release
/// the window and its font, if there is a window. What is not held is
/// passed over.
pub open spec fn teardown(pre: ContextView) -> Seq<Request> {
    seq![Request::UnsubscribeKeySink { tid: pre.tid }] + (match pre.cookie {
        Some(cookie) => seq![Request::UnsubscribeEventSink { cookie }],
        None => Seq::<Request>::empty(),
    }) + (match pre.overlay {
        Some(overlay) => destroy_script(overlay.window(), overlay.font()).map_values(
            |command: Command| Request::Overlay(command),
        ),
        None => Seq::<Request>::empty(),
    })
}

/// A deactivation. Without a thread manager there is nothing to
/// deactivate: it fails and changes nothing. With one, everything is let
/// go of, whatever an activation had come to, and the caller is handed the
/// requests of [`teardown`].
pub open spec fn end(pre: ContextView) -> (ContextView, Result<Seq<Request>, ActivationError>) {
    if pre.thread_mgr is None {
        (pre, Err(ActivationError::NoActiveThreadManager))
    } else {
        (
            ContextView {
                tid: pre.tid,
                thread_mgr: None,
                cookie: None,
                overlay: None,
                awaiting: None,
            },
            Ok(teardown(pre)),
        )
    }
}

/// What ties the input method to a host editing session.
pub struct ActivationContext {
    tid: u32,
    thread_mgr: Option<usize>,
    cookie: Option<u32>,
    overlay: Option<CandidateList>,
    awaiting: Option<Request>,
}

impl View for ActivationContext {
    type V = ContextView;

    closed spec fn view(&self) -> ContextView {
        ContextView {
            tid: self.tid,
            thread_mgr: self.thread_mgr,
            cookie: self.cookie,
            overlay: self.overlay,
            awaiting: self.awaiting,
        }
    }
}

impl ActivationContext {
    #[verifier::type_invariant]
    spec fn sound(self) -> bool {
        well_formed(self@)
    }

    /// A context to which no session is attached.
    pub fn new() -> (context: ActivationContext)
        ensures
            context@ == inactive(),
    {
        ActivationContext { tid: 0, thread_mgr: None, cookie: None, overlay: None, awaiting: None }
    }

    /// The host asks for activation on a thread, with the thread manager of
    /// the session if it has one.
    pub fn activate(&mut self, thread_mgr: Option<usize>, tid: u32) -> (step: Step)
        ensures
            well_formed(old(self)@),
            well_formed(final(self)@),
            (final(self)@, step) == begin(old(self)@, thread_mgr, tid),
    {
        proof {
            use_type_invariant(&*self);
        }
        match thread_mgr {
            None => Step::Done(Err(ActivationError::MissingThreadManager)),
            Some(manager) => {
                self.awaiting = None;
                self.thread_mgr = Some(manager);
                self.tid = tid;
                self.awaiting = Some(Request::ResolveAnchor);
                Step::Ask(Request::ResolveAnchor)
            },
        }
    }

    /// The host asks for activation and passes flags, which are not looked
    /// at.
    pub fn activate_ex(&mut self, thread_mgr: Option<usize>, tid: u32, flags: u32) -> (step: Step)
        ensures
            well_formed(old(self)@),
            well_formed(final(self)@),
            (final(self)@, step) == begin(old(self)@, thread_mgr, tid),
    {
        self.activate(thread_mgr, tid)
    }

    /// The caller hands back the reply to the request that was asked last.
    pub fn resume(&mut self, reply: Reply) -> (step: Step)
        ensures
            well_formed(old(self)@),
            well_formed(final(self)@),
            (final(self)@, step) == advance(old(self)@, reply),
    {
        proof {
            use_type_invariant(&*self);
        }
        match (self.awaiting, reply) {
            (Some(Request::ResolveAnchor), Reply::Anchor(Ok(anchor))) => {
                self.awaiting = Some(Request::CreateOverlay { anchor });
                Step::Ask(Request::CreateOverlay { anchor })
            },
            (Some(Request::ResolveAnchor), Reply::Anchor(Err(code))) => {
                self.awaiting = None;
                Step::Done(Err(ActivationError::AnchorUnavailable(code)))
            },
            (Some(Request::CreateOverlay { .. }), Reply::Overlay(Ok(overlay))) => {
                self.awaiting = None;
                self.overlay = Some(overlay);
                self.awaiting = Some(Request::SubscribeKeySink { tid: self.tid });
                Step::Ask(Request::SubscribeKeySink { tid: self.tid })
            },
            (Some(Request::CreateOverlay { .. }), Reply::Overlay(Err(error))) => {
                self.awaiting = None;
                Step::Done(Err(ActivationError::Overlay(error)))
            },
            (Some(Request::SubscribeKeySink { .. }), Reply::KeySink(Ok(_))) => {
                self.awaiting = Some(Request::SubscribeEventSink);
                Step::Ask(Request::SubscribeEventSink)
            },
            (Some(Request::SubscribeKeySink { .. }), Reply::KeySink(Err(code))) => {
                self.awaiting = None;
                Step::Done(Err(ActivationError::SubscriptionError(code)))
            },
            (Some(Request::SubscribeEventSink), Reply::EventSink(Ok(cookie))) => {
                self.awaiting = None;
                self.cookie = Some(cookie);
                Step::Done(Ok(()))
            },
            (Some(Request::SubscribeEventSink), Reply::EventSink(Err(code))) => {
                self.awaiting = None;
                Step::Done(Err(ActivationError::SubscriptionError(code)))
            },
            _ => Step::Done(Err(ActivationError::OutOfSequence)),
        }
    }

    /// The host asks for deactivation. What waited for a repaint of the
    /// candidate window is dropped with the window.
    pub fn deactivate(&mut self, mailbox: &mut Mailbox) -> (script: Result<
        Vec<Request>,
        ActivationError,
    >)
        ensures
            well_formed(old(self)@),
            well_formed(final(self)@),
            final(self)@ == end(old(self)@).0,
            match script {
                Ok(requests) => end(old(self)@).1 == Ok::<Seq<Request>, ActivationError>(
                    requests@,
                ),
                Err(error) => end(old(self)@).1 == Err::<Seq<Request>, ActivationError>(error),
            },
            final(mailbox)@ == (match old(self)@.overlay {
                Some(overlay) if old(self)@.thread_mgr is Some => old(mailbox)@.remove(
                    overlay.window(),
                ),
                _ => old(mailbox)@,
            }),
    {
        proof {
            use_type_invariant(&*self);
        }
        if self.thread_mgr.is_none() {
            return Err(ActivationError::NoActiveThreadManager);
        }
        let ghost pre = self@;
        let mut parted = ActivationContext::new();
        std::mem::swap(self, &mut parted);
        let ActivationContext { tid, cookie, overlay, .. } = parted;
        self.tid = tid;
        let mut requests: Vec<Request> = Vec::new();
        requests.push(Request::UnsubscribeKeySink { tid });
        match cookie {
            Some(cookie) => {
                requests.push(Request::UnsubscribeEventSink { cookie });
            },
            None => {},
        }
        let ghost head = requests@;
        match overlay {
            Some(overlay) => {
                let ghost window = overlay.window();
                let ghost font = overlay.font();
                let commands = overlay.destroy(mailbox);
                let mut k: usize = 0;
                while k < commands.len()
                    invariant
                        k <= commands.len(),
                        commands@ == destroy_script(window, font),
                        requests@ == head + commands@.take(k as int).map_values(
                            |command: Command| Request::Overlay(command),
                        ),
                    decreases commands.len() - k,
                {
                    requests.push(Request::Overlay(commands[k]));
                    proof {
                        assert(commands@.take(k as int + 1) =~= commands@.take(k as int).push(
                            commands@[k as int],
                        ));
                        assert(requests@ =~= head + commands@.take(k as int + 1).map_values(
                            |command: Command| Request::Overlay(command),
                        ));
                    }
                    k += 1;
                }
                proof {
                    assert(commands@.take(k as int) =~= commands@);
                }
            },
            None => {},
        }
        proof {
            assert(requests@ =~= teardown(pre));
        }
        Ok(requests)
    }

    /// The thread of the last activation.
    pub fn tid(&self) -> (tid: u32)
        ensures
            tid == self@.tid,
    {
        self.tid
    }

    /// The thread manager of the session, while one is attached.
    pub fn thread_mgr(&self) -> (thread_mgr: Option<usize>)
        ensures
            thread_mgr == self@.thread_mgr,
    {
        self.thread_mgr
    }

    /// The cookie of the event sink, while it is subscribed.
    pub fn cookie(&self) -> (cookie: Option<u32>)
        ensures
            cookie == self@.cookie,
    {
        self.cookie
    }

    /// The candidate window, while there is one.
    pub fn overlay(&self) -> (overlay: Option<&CandidateList>)
        ensures
            match overlay {
                Some(list) => self@.overlay == Some(*list),
                None => self@.overlay is None,
            },
    {
        self.overlay.as_ref()
    }

    /// The request whose reply is awaited, in the middle of an activation.
    pub fn awaiting(&self) -> (awaiting: Option<Request>)
        ensures
            awaiting == self@.awaiting,
    {
        self.awaiting
    }

    /// Whether a session is fully attached.
    pub fn is_active(&self) -> (yes: bool)
        ensures
            yes == active(self@),
    {
        self.thread_mgr.is_some() && self.overlay.is_some() && self.cookie.is_some()
            && self.awaiting.is_none()
    }
}


/// Every transition keeps a context well formed.
pub proof fn lemma_transitions_keep_well_formed(
    pre: ContextView,
    thread_mgr: Option<usize>,
    tid: u32,
    reply: Reply,
)
    requires
        well_formed(pre),
    ensures
        well_formed(inactive()),
        well_formed(begin(pre, thread_mgr, tid).0),
        well_formed(advance(pre, reply).0),
        well_formed(end(pre).0),
{
}

/// A context without a thread manager holds nothing at all: no window, no
/// cookie, and no reply is awaited. A fully attached one holds a window.
pub proof fn lemma_window_goes_with_session(v: ContextView)
    requires
        well_formed(v),
    ensures
        v.thread_mgr is None ==> v.overlay is None && v.cookie is None && v.awaiting is None,
        active(v) ==> v.overlay is Some,
{
}

/// An activation without a thread manager fails as
/// `MissingThreadManager`, always, and does nothing else: the context is
/// as it was, and nothing is asked of the caller, so no window is created.
pub proof fn lemma_missing_thread_manager(pre: ContextView, tid: u32)
    ensures
        begin(pre, None, tid) == (pre, Step::Done(Err(ActivationError::MissingThreadManager))),
{
}

/// An activation in which every request succeeds asks for the anchor, the
/// window, the keystroke sink and the event sink, in this order, and ends
/// fully attached, holding the window and the cookie it was given. The
/// deactivation that follows unsubscribes both sinks and releases the
/// window and its font, each once, and leaves nothing held.
pub proof fn lemma_activation_then_deactivation(
    pre: ContextView,
    manager: usize,
    tid: u32,
    anchor: isize,
    overlay: CandidateList,
    cookie: u32,
)
    ensures
        ({
            let (s1, a1) = begin(pre, Some(manager), tid);
            let (s2, a2) = advance(s1, Reply::Anchor(Ok(anchor)));
            let (s3, a3) = advance(s2, Reply::Overlay(Ok(overlay)));
            let (s4, a4) = advance(s3, Reply::KeySink(Ok(())));
            let (s5, a5) = advance(s4, Reply::EventSink(Ok(cookie)));
            let (s6, a6) = end(s5);
            &&& a1 == Step::Ask(Request::ResolveAnchor)
            &&& a2 == Step::Ask(Request::CreateOverlay { anchor })
            &&& a3 == Step::Ask(Request::SubscribeKeySink { tid })
            &&& a4 == Step::Ask(Request::SubscribeEventSink)
            &&& a5 == Step::Done(Ok(()))
            &&& active(s5)
            &&& s5.tid == tid
            &&& s5.thread_mgr == Some(manager)
            &&& s5.overlay == Some(overlay)
            &&& s5.cookie == Some(cookie)
            &&& a6 == Ok::<Seq<Request>, ActivationError>(
                seq![
                    Request::UnsubscribeKeySink { tid },
                    Request::UnsubscribeEventSink { cookie },
                    Request::Overlay(Command::Destroy { window: overlay.window() }),
                    Request::Overlay(Command::ReleaseFont { font: overlay.font() }),
                ],
            )
            &&& s6 == (ContextView { tid, ..inactive() })
        }),
{
    let (s1, a1) = begin(pre, Some(manager), tid);
    let (s2, a2) = advance(s1, Reply::Anchor(Ok(anchor)));
    let (s3, a3) = advance(s2, Reply::Overlay(Ok(overlay)));
    let (s4, a4) = advance(s3, Reply::KeySink(Ok(())));
    let (s5, a5) = advance(s4, Reply::EventSink(Ok(cookie)));
    assert(teardown(s5) =~= seq![
        Request::UnsubscribeKeySink { tid },
        Request::UnsubscribeEventSink { cookie },
        Request::Overlay(Command::Destroy { window: overlay.window() }),
        Request::Overlay(Command::ReleaseFont { font: overlay.font() }),
    ]);
}

/// Whatever an activation had come to when it failed, the context that it
/// leaves can be deactivated: a deactivation succeeds wherever a thread
/// manager is held, and leaves nothing held.
pub proof fn lemma_deactivation_is_always_possible(pre: ContextView)
    requires
        pre.thread_mgr is Some,
    ensures
        end(pre).1 is Ok,
        end(pre).0 == (ContextView { tid: pre.tid, ..inactive() }),
{
}

/// Deactivating twice in a row is harmless: whatever the first
/// deactivation found, the second finds no thread manager, which it
/// reports as the recoverable `NoActiveThreadManager`; it changes nothing
/// and hands out no request, so nothing is released a second time.
pub proof fn lemma_deactivate_twice(pre: ContextView)
    ensures
        end(end(pre).0) == (
            end(pre).0,
            Err::<Seq<Request>, ActivationError>(ActivationError::NoActiveThreadManager),
        ),
        recoverable(ActivationError::NoActiveThreadManager),
{
}

} // verus!
