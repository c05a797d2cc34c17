use ajemi::candidate_list::{
    font_pixel_size, CandidateList, Command, OverlayError, POS_OFFSETX, POS_OFFSETY,
};
use ajemi::global::{index_label, E_FAIL};
use ajemi::layout::{Candidate, Extent, LayoutMode};
use ajemi::mailbox::Mailbox;
use ajemi::paint::paint;

fn entry(position: usize, text: &str, width: i32) -> Candidate {
    Candidate {
        label: index_label(position),
        text: text.encode_utf16().collect(),
        label_extent: Extent { cx: 12, cy: 16 },
        text_extent: Extent { cx: width, cy: 16 },
    }
}

fn overlay(window: isize, font: isize) -> CandidateList {
    let surface = CandidateList::create(window, 0).expect("a window");
    match surface.with_font(font, 0) {
        Ok(list) => list,
        Err(failure) => panic!("no font: {:?}", failure.error),
    }
}

#[test]
fn create_takes_up_valid_handles() {
    let surface = CandidateList::create(0x1234, 0).expect("a window");
    assert_eq!(surface.window(), 0x1234);
    let list = match surface.with_font(0x77, 5) {
        Ok(list) => list,
        Err(failure) => panic!("no font: {:?}", failure.error),
    };
    assert_eq!(list.window(), 0x1234);
    assert_eq!(list.font(), 0x77);
}

#[test]
fn create_without_a_window_fails() {
    match CandidateList::create(0, 1400) {
        Err(error) => {
            assert_eq!(error, OverlayError::WindowCreationFailed(1400));
            assert_eq!(error.code(), 1400);
        }
        Ok(_) => panic!("a null window was taken up"),
    }
    match CandidateList::create(0, 0) {
        Err(error) => assert_eq!(error, OverlayError::WindowCreationFailed(E_FAIL)),
        Ok(_) => panic!("a null window was taken up"),
    }
}

#[test]
fn create_without_a_font_fails_and_takes_the_window_back() {
    for invalid in [0isize, -1] {
        let surface = CandidateList::create(9, 0).expect("a window");
        match surface.with_font(invalid, -2147024882) {
            Err(failure) => {
                assert_eq!(failure.error, OverlayError::FontCreationFailed(-2147024882));
                assert_eq!(failure.rollback, vec![Command::Destroy { window: 9 }]);
            }
            Ok(_) => panic!("an invalid font was taken up"),
        }
    }
    let surface = CandidateList::create(9, 0).expect("a window");
    match surface.with_font(0, 0) {
        Err(failure) => assert_eq!(failure.error, OverlayError::FontCreationFailed(E_FAIL)),
        Ok(_) => panic!("an invalid font was taken up"),
    }
}

#[test]
fn font_size_follows_the_display() {
    assert_eq!(font_pixel_size(20, 96), 26);
    assert_eq!(font_pixel_size(20, 72), 20);
    assert_eq!(font_pixel_size(20, 144), 40);
    assert_eq!(font_pixel_size(9, 96), 12);
    assert_eq!(font_pixel_size(-20, 96), -26);
    assert_eq!(font_pixel_size(0, 96), 0);
}

#[test]
fn locate_adds_the_offsets() {
    assert_eq!(POS_OFFSETX, 2);
    assert_eq!(POS_OFFSETY, 2);
    let list = overlay(5, 6);
    assert_eq!(list.locate(100, 200), vec![Command::Move { window: 5, x: 102, y: 202 }]);
    assert_eq!(list.locate(-2, -40), vec![Command::Move { window: 5, x: 0, y: -38 }]);
}

#[test]
fn show_sizes_reveals_and_invalidates() {
    let list = overlay(5, 6);
    let mut mailbox = Mailbox::new();
    let cells = vec![entry(0, "a", 8), entry(1, "ab", 16), entry(2, "abc", 24)];
    let script = list.show(&mut mailbox, LayoutMode::Horizontal, cells);
    assert_eq!(
        script,
        vec![
            Command::Resize { window: 5, width: 108, height: 20 },
            Command::Reveal { window: 5 },
            Command::Invalidate { window: 5 },
        ]
    );
    assert!(mailbox.is_pending(5));
    let layout = mailbox.take(5).expect("a layout waited");
    assert_eq!(layout.font(), 6);
    assert_eq!(layout.highlight_width(), 27);
    assert_eq!(layout.candidates().len(), 3);
}

#[test]
fn show_again_replaces_what_waited() {
    let list = overlay(5, 6);
    let mut mailbox = Mailbox::new();
    list.show(&mut mailbox, LayoutMode::Horizontal, vec![entry(0, "a", 8), entry(1, "b", 8)]);
    let script = list.show(&mut mailbox, LayoutMode::Horizontal, vec![entry(0, "c", 10)]);
    assert_eq!(script[0], Command::Resize { window: 5, width: 3 + 7 + 12 + 10, height: 20 });
    let frame = paint(&mut mailbox, 5).expect("a layout waited");
    assert_eq!(frame.layout.candidates().len(), 1);
    assert!(paint(&mut mailbox, 5).is_none());
}

#[test]
fn show_of_an_empty_list_then_of_a_full_one() {
    let list = overlay(5, 6);
    let mut mailbox = Mailbox::new();
    let script = list.show(&mut mailbox, LayoutMode::Horizontal, Vec::new());
    assert_eq!(
        script,
        vec![
            Command::Resize { window: 5, width: 3, height: 4 },
            Command::Reveal { window: 5 },
            Command::Invalidate { window: 5 },
        ]
    );
    let frame = paint(&mut mailbox, 5).expect("a layout waited");
    assert_eq!(frame.ops.len(), 2);
    let script = list.show(&mut mailbox, LayoutMode::Horizontal, vec![entry(0, "a", 8)]);
    assert_eq!(script[0], Command::Resize { window: 5, width: 30, height: 20 });
    let frame = paint(&mut mailbox, 5).expect("a layout waited");
    assert_eq!(frame.ops.len(), 7);
}

#[test]
fn show_then_hide_ends_hidden() {
    let list = overlay(5, 6);
    let mut mailbox = Mailbox::new();
    let mut performed = list.show(&mut mailbox, LayoutMode::Horizontal, vec![entry(0, "a", 8)]);
    let _ = paint(&mut mailbox, 5);
    performed.extend(list.conceal());
    let mut visible = false;
    for command in performed {
        match command {
            Command::Reveal { window: 5 } => visible = true,
            Command::Conceal { window: 5 } => visible = false,
            _ => {}
        }
    }
    assert!(!visible);
    assert_eq!(list.conceal(), vec![Command::Conceal { window: 5 }]);
}

#[test]
fn destroy_releases_window_then_font() {
    let list = overlay(5, 6);
    let mut mailbox = Mailbox::new();
    list.show(&mut mailbox, LayoutMode::Horizontal, vec![entry(0, "a", 8)]);
    let other = overlay(8, 9);
    other.show(&mut mailbox, LayoutMode::Horizontal, vec![entry(0, "b", 8)]);
    let script = list.destroy(&mut mailbox);
    assert_eq!(script, vec![Command::Destroy { window: 5 }, Command::ReleaseFont { font: 6 }]);
    assert!(!mailbox.is_pending(5));
    assert!(mailbox.is_pending(8));
}

#[test]
fn create_after_destroy_starts_afresh() {
    let mut mailbox = Mailbox::new();
    let first = overlay(5, 6);
    first.show(&mut mailbox, LayoutMode::Horizontal, vec![entry(0, "a", 8)]);
    first.destroy(&mut mailbox);
    // the system may hand out the same window handle again
    let second = overlay(5, 7);
    assert_eq!(second.window(), 5);
    assert_eq!(second.font(), 7);
    assert!(paint(&mut mailbox, second.window()).is_none());
    second.show(&mut mailbox, LayoutMode::Horizontal, vec![entry(0, "b", 8)]);
    let frame = paint(&mut mailbox, 5).expect("a layout waited");
    assert_eq!(frame.layout.font(), 7);
}

#[test]
fn failing_commands_that_end_a_script() {
    let moved = Command::Move { window: 1, x: 0, y: 0 };
    let sized = Command::Resize { window: 1, width: 1, height: 1 };
    let gone = Command::Destroy { window: 1 };
    assert_eq!(moved.failed(5), Some(OverlayError::PositionError(5)));
    assert_eq!(sized.failed(6), Some(OverlayError::PositionError(6)));
    assert_eq!(gone.failed(7), Some(OverlayError::DestroyFailed(7)));
    assert_eq!(OverlayError::PositionError(5).code(), 5);
    assert_eq!(OverlayError::DestroyFailed(7).code(), 7);
    assert_eq!(OverlayError::FontCreationFailed(8).code(), 8);
    assert_eq!(Command::Reveal { window: 1 }.failed(5), None);
    assert_eq!(Command::Conceal { window: 1 }.failed(5), None);
    assert_eq!(Command::Invalidate { window: 1 }.failed(5), None);
    assert_eq!(Command::ReleaseFont { font: 1 }.failed(5), None);
}
