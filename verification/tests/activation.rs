use ajemi::activation::{ActivationContext, ActivationError, Reply, Request, Step};
use ajemi::candidate_list::{CandidateList, Command, OverlayError};
use ajemi::global::{index_label, E_FAIL};
use ajemi::layout::{Candidate, Extent, LayoutMode};
use ajemi::mailbox::Mailbox;

fn made(window: isize, font: isize) -> CandidateList {
    let surface = CandidateList::create(window, 0).expect("a window");
    match surface.with_font(font, 0) {
        Ok(list) => list,
        Err(failure) => panic!("no font: {:?}", failure.error),
    }
}

fn asked(step: Step) -> Request {
    match step {
        Step::Ask(request) => request,
        Step::Done(result) => panic!("done with {:?}", result),
    }
}

fn ended(step: Step) -> Result<(), ActivationError> {
    match step {
        Step::Done(result) => result,
        Step::Ask(request) => panic!("asked {:?}", request),
    }
}

fn attached(window: isize, font: isize, cookie: u32) -> ActivationContext {
    let mut context = ActivationContext::new();
    asked(context.activate(Some(0xAA), 7));
    asked(context.resume(Reply::Anchor(Ok(0x50))));
    asked(context.resume(Reply::Overlay(Ok(made(window, font)))));
    asked(context.resume(Reply::KeySink(Ok(()))));
    assert_eq!(ended(context.resume(Reply::EventSink(Ok(cookie)))), Ok(()));
    context
}

#[test]
fn new_context_is_inactive() {
    let context = ActivationContext::new();
    assert!(!context.is_active());
    assert_eq!(context.thread_mgr(), None);
    assert_eq!(context.cookie(), None);
    assert!(context.overlay().is_none());
    assert_eq!(context.awaiting(), None);
}

#[test]
fn activation_asks_in_order() {
    let mut context = ActivationContext::new();
    assert_eq!(asked(context.activate(Some(0xAA), 7)), Request::ResolveAnchor);
    assert_eq!(context.tid(), 7);
    assert_eq!(context.thread_mgr(), Some(0xAA));
    assert_eq!(context.awaiting(), Some(Request::ResolveAnchor));
    assert_eq!(
        asked(context.resume(Reply::Anchor(Ok(0x50)))),
        Request::CreateOverlay { anchor: 0x50 }
    );
    assert!(context.overlay().is_none());
    assert_eq!(
        asked(context.resume(Reply::Overlay(Ok(made(5, 6))))),
        Request::SubscribeKeySink { tid: 7 }
    );
    assert_eq!(context.overlay().map(|list| list.window()), Some(5));
    assert_eq!(asked(context.resume(Reply::KeySink(Ok(())))), Request::SubscribeEventSink);
    assert_eq!(context.cookie(), None);
    assert!(!context.is_active());
    assert_eq!(ended(context.resume(Reply::EventSink(Ok(31)))), Ok(()));
    assert_eq!(context.cookie(), Some(31));
    assert_eq!(context.awaiting(), None);
    assert!(context.is_active());
}

#[test]
fn activation_with_flags_is_the_same() {
    let mut context = ActivationContext::new();
    assert_eq!(asked(context.activate_ex(Some(0xAA), 7, 0x8000_0000)), Request::ResolveAnchor);
    assert_eq!(context.tid(), 7);
    assert_eq!(
        ended(context.activate_ex(None, 8, 1)),
        Err(ActivationError::MissingThreadManager)
    );
    assert_eq!(context.tid(), 7);
}

#[test]
fn activation_without_thread_manager_fails() {
    let mut context = ActivationContext::new();
    assert_eq!(ended(context.activate(None, 7)), Err(ActivationError::MissingThreadManager));
    assert_eq!(context.tid(), 0);
    assert_eq!(context.thread_mgr(), None);
    assert!(context.overlay().is_none());
    assert_eq!(context.awaiting(), None);
    // and again, with the same outcome
    assert_eq!(ended(context.activate(None, 7)), Err(ActivationError::MissingThreadManager));
    assert_eq!(ActivationError::MissingThreadManager.code(), E_FAIL);
    assert!(!ActivationError::MissingThreadManager.is_recoverable());
}

#[test]
fn activation_without_thread_manager_leaves_a_session_alone() {
    let mut context = attached(5, 6, 31);
    assert_eq!(ended(context.activate(None, 9)), Err(ActivationError::MissingThreadManager));
    assert!(context.is_active());
    assert_eq!(context.tid(), 7);
    assert_eq!(context.cookie(), Some(31));
}

#[test]
fn deactivation_lets_go_of_everything() {
    let mut context = attached(5, 6, 31);
    let mut mailbox = Mailbox::new();
    let list = made(5, 6);
    let cell = Candidate {
        label: index_label(0),
        text: vec![0x61],
        label_extent: Extent { cx: 12, cy: 16 },
        text_extent: Extent { cx: 8, cy: 16 },
    };
    list.show(&mut mailbox, LayoutMode::Horizontal, vec![cell]);
    assert!(mailbox.is_pending(5));
    let script = context.deactivate(&mut mailbox).expect("a session was attached");
    assert_eq!(
        script,
        vec![
            Request::UnsubscribeKeySink { tid: 7 },
            Request::UnsubscribeEventSink { cookie: 31 },
            Request::Overlay(Command::Destroy { window: 5 }),
            Request::Overlay(Command::ReleaseFont { font: 6 }),
        ]
    );
    assert!(!mailbox.is_pending(5));
    assert!(!context.is_active());
    assert_eq!(context.thread_mgr(), None);
    assert_eq!(context.cookie(), None);
    assert!(context.overlay().is_none());
    assert_eq!(context.tid(), 7);
}

#[test]
fn deactivation_twice_is_harmless() {
    let mut context = attached(5, 6, 31);
    let mut mailbox = Mailbox::new();
    assert!(context.deactivate(&mut mailbox).is_ok());
    let second = context.deactivate(&mut mailbox);
    assert_eq!(second, Err(ActivationError::NoActiveThreadManager));
    assert!(ActivationError::NoActiveThreadManager.is_recoverable());
    assert_eq!(ActivationError::NoActiveThreadManager.code(), E_FAIL);
    assert_eq!(context.thread_mgr(), None);
    assert!(context.overlay().is_none());
    assert_eq!(context.deactivate(&mut mailbox), Err(ActivationError::NoActiveThreadManager));
}

#[test]
fn deactivation_of_a_new_context_reports_no_thread_manager() {
    let mut context = ActivationContext::new();
    let mut mailbox = Mailbox::new();
    assert_eq!(context.deactivate(&mut mailbox), Err(ActivationError::NoActiveThreadManager));
}

#[test]
fn anchor_failure_leaves_the_thread_manager() {
    let mut context = ActivationContext::new();
    asked(context.activate(Some(0xAA), 7));
    let result = ended(context.resume(Reply::Anchor(Err(-2147467259))));
    assert_eq!(result, Err(ActivationError::AnchorUnavailable(-2147467259)));
    assert_eq!(context.thread_mgr(), Some(0xAA));
    assert!(context.overlay().is_none());
    assert_eq!(context.awaiting(), None);
    let mut mailbox = Mailbox::new();
    let script = context.deactivate(&mut mailbox).expect("a thread manager was held");
    assert_eq!(script, vec![Request::UnsubscribeKeySink { tid: 7 }]);
    assert_eq!(context.thread_mgr(), None);
}

#[test]
fn overlay_failure_ends_the_activation() {
    let mut context = ActivationContext::new();
    asked(context.activate(Some(0xAA), 7));
    asked(context.resume(Reply::Anchor(Ok(0x50))));
    let error = OverlayError::WindowCreationFailed(1400);
    let result = ended(context.resume(Reply::Overlay(Err(error))));
    assert_eq!(result, Err(ActivationError::Overlay(error)));
    assert_eq!(ActivationError::Overlay(error).code(), 1400);
    assert!(context.overlay().is_none());
    assert!(!context.is_active());
}

#[test]
fn key_sink_failure_leaves_the_window_for_deactivation() {
    let mut context = ActivationContext::new();
    asked(context.activate(Some(0xAA), 7));
    asked(context.resume(Reply::Anchor(Ok(0x50))));
    asked(context.resume(Reply::Overlay(Ok(made(5, 6)))));
    let result = ended(context.resume(Reply::KeySink(Err(-5))));
    assert_eq!(result, Err(ActivationError::SubscriptionError(-5)));
    assert_eq!(ActivationError::SubscriptionError(-5).code(), -5);
    assert!(context.overlay().is_some());
    assert_eq!(context.cookie(), None);
    let mut mailbox = Mailbox::new();
    let script = context.deactivate(&mut mailbox).expect("a thread manager was held");
    assert_eq!(
        script,
        vec![
            Request::UnsubscribeKeySink { tid: 7 },
            Request::Overlay(Command::Destroy { window: 5 }),
            Request::Overlay(Command::ReleaseFont { font: 6 }),
        ]
    );
}

#[test]
fn event_sink_failure_records_no_cookie() {
    let mut context = ActivationContext::new();
    asked(context.activate(Some(0xAA), 7));
    asked(context.resume(Reply::Anchor(Ok(0x50))));
    asked(context.resume(Reply::Overlay(Ok(made(5, 6)))));
    asked(context.resume(Reply::KeySink(Ok(()))));
    let result = ended(context.resume(Reply::EventSink(Err(-9))));
    assert_eq!(result, Err(ActivationError::SubscriptionError(-9)));
    assert_eq!(context.cookie(), None);
    assert!(!context.is_active());
}

#[test]
fn stray_reply_changes_nothing() {
    let mut context = ActivationContext::new();
    assert_eq!(
        ended(context.resume(Reply::Anchor(Ok(1)))),
        Err(ActivationError::OutOfSequence)
    );
    assert_eq!(context.awaiting(), None);
    asked(context.activate(Some(0xAA), 7));
    assert_eq!(
        ended(context.resume(Reply::EventSink(Ok(3)))),
        Err(ActivationError::OutOfSequence)
    );
    assert_eq!(context.awaiting(), Some(Request::ResolveAnchor));
    assert_eq!(context.cookie(), None);
    assert_eq!(ActivationError::OutOfSequence.code(), E_FAIL);
    let mut active = attached(5, 6, 31);
    assert_eq!(
        ended(active.resume(Reply::KeySink(Ok(())))),
        Err(ActivationError::OutOfSequence)
    );
    assert!(active.is_active());
}

#[test]
fn deactivation_in_the_middle_of_an_activation() {
    let mut context = ActivationContext::new();
    asked(context.activate(Some(0xAA), 7));
    asked(context.resume(Reply::Anchor(Ok(0x50))));
    let mut mailbox = Mailbox::new();
    let script = context.deactivate(&mut mailbox).expect("a thread manager was held");
    assert_eq!(script, vec![Request::UnsubscribeKeySink { tid: 7 }]);
    assert_eq!(context.awaiting(), None);
    assert_eq!(
        ended(context.resume(Reply::Overlay(Ok(made(5, 6))))),
        Err(ActivationError::OutOfSequence)
    );
    assert!(context.overlay().is_none());
}

#[test]
fn activation_after_deactivation_is_fresh() {
    let mut context = attached(5, 6, 31);
    let mut mailbox = Mailbox::new();
    context.deactivate(&mut mailbox).expect("a session was attached");
    asked(context.activate(Some(0xBB), 8));
    asked(context.resume(Reply::Anchor(Ok(0x51))));
    assert_eq!(
        asked(context.resume(Reply::Overlay(Ok(made(15, 16))))),
        Request::SubscribeKeySink { tid: 8 }
    );
    asked(context.resume(Reply::KeySink(Ok(()))));
    assert_eq!(ended(context.resume(Reply::EventSink(Ok(32)))), Ok(()));
    assert!(context.is_active());
    assert_eq!(context.overlay().map(|list| (list.window(), list.font())), Some((15, 16)));
    assert_eq!(context.cookie(), Some(32));
    assert_eq!(context.thread_mgr(), Some(0xBB));
}
