//! Overlay window controller: the candidate window as the commands that
//! create, place, fill, hide and release it.
//!
//! The window itself lives in the window system. A [`CandidateList`] holds
//! its two handles and says, for each thing asked of the window, which
//! commands the caller has to perform, in which order, and which of them may
//! fail the call.

use crate::global::{failure, failure_code};
use crate::layout::{
    in_range, representable, window_height, window_width, Candidate, Layout, LayoutMode,
    LayoutView,
};
use crate::mailbox::Mailbox;
use vstd::prelude::*;

verus! {

/// How far right of the caret the window is placed.
pub const POS_OFFSETX: i32 = 2;

/// How far below the caret the window is placed.
pub const POS_OFFSETY: i32 = 2;

/// One thing asked of the window system.
#[derive(Clone, Copy, Debug, PartialEq, Eq)]
pub enum Command {
    /// Move the window's top left corner; keep its size, keep it topmost, do
    /// not activate it.
    Move { window: isize, x: i32, y: i32 },
    /// Give the window a size; keep its place, keep it topmost, do not
    /// activate it.
    Resize { window: isize, width: i32, height: i32 },
    /// Make the window visible without activating it.
    Reveal { window: isize },
    /// Make the window invisible.
    Conceal { window: isize },
    /// Have the whole window repainted, whatever it showed.
    Invalidate { window: isize },
    /// Destroy the window.
    Destroy { window: isize },
    /// Release the font.
    ReleaseFont { font: isize },
}

/// Why the window could not do what was asked. Each holds the code that the
/// window system gave for the failure.
#[derive(Clone, Copy, Debug, PartialEq, Eq)]
pub enum OverlayError {
    /// The window could not be created.
    WindowCreationFailed(i32),
    /// The font could not be created.
    FontCreationFailed(i32),
    /// The window could not be moved or resized.
    PositionError(i32),
    /// The window could not be destroyed.
    DestroyFailed(i32),
}

impl OverlayError {
    /// The code that the window system gave.
    pub fn code(&self) -> (code: i32)
        ensures
            code == (match *self {
                OverlayError::WindowCreationFailed(c) => c,
                OverlayError::FontCreationFailed(c) => c,
                OverlayError::PositionError(c) => c,
                OverlayError::DestroyFailed(c) => c,
            }),
    {
        match *self {
            OverlayError::WindowCreationFailed(c) => c,
            OverlayError::FontCreationFailed(c) => c,
            OverlayError::PositionError(c) => c,
            OverlayError::DestroyFailed(c) => c,
        }
    }
}

/// What the failure of a command means for the script it belongs to. A
/// window that cannot be moved, resized or destroyed fails the call, with
/// the system's code; the failure of any other command is passed over.
pub open spec fn failure_of(command: Command, code: i32) -> Option<OverlayError> {
    match command {
        Command::Move { .. } => Some(OverlayError::PositionError(code)),
        Command::Resize { .. } => Some(OverlayError::PositionError(code)),
        Command::Destroy { .. } => Some(OverlayError::DestroyFailed(code)),
        _ => None,
    }
}

impl Command {
    /// Tells what the failure of this command with the given code means:
    /// the error that ends the script, or nothing where the script goes on.
    pub fn failed(&self, code: i32) -> (error: Option<OverlayError>)
        ensures
            error == failure_of(*self, code),
    {
        match *self {
            Command::Move { .. } => Some(OverlayError::PositionError(code)),
            Command::Resize { .. } => Some(OverlayError::PositionError(code)),
            Command::Destroy { .. } => Some(OverlayError::DestroyFailed(code)),
            _ => None,
        }
    }
}

/// Whether a font handle names no font.
pub open spec fn font_is_invalid(font: isize) -> bool {
    font == 0 || font == -1
}

/// Why a window handle cannot be taken up, if it cannot: a null handle
/// means that the window was not created.
pub open spec fn window_failure(window: isize, last_error: i32) -> Option<OverlayError> {
    if window == 0 {
        Some(OverlayError::WindowCreationFailed(failure_code(last_error)))
    } else {
        None
    }
}

/// Why a font handle cannot be taken up, if it cannot: an invalid handle
/// means that the font was not created.
pub open spec fn font_failure(font: isize, last_error: i32) -> Option<OverlayError> {
    if font_is_invalid(font) {
        Some(OverlayError::FontCreationFailed(failure_code(last_error)))
    } else {
        None
    }
}

/// Pixel height of a font of the given point size on a display with the
/// given number of pixels per logical inch: their product over 72, rounded
/// towards zero.
pub open spec fn font_pixel_size_spec(point_size: int, pixels_per_inch: int) -> int {
    let product = point_size * pixels_per_inch;
    if product >= 0 {
        product / 72
    } else {
        -((-product) / 72)
    }
}

/// Computes the pixel height of the overlay's font.
pub fn font_pixel_size(point_size: i32, pixels_per_inch: i32) -> (size: i32)
    requires
        in_range(point_size * pixels_per_inch),
    ensures
        size == font_pixel_size_spec(point_size as int, pixels_per_inch as int),
{
    point_size * pixels_per_inch / 72
}

/// A window that was created and has no font yet.
pub struct Surface {
    window: isize,
}

impl Surface {
    #[verifier::type_invariant]
    spec fn live(self) -> bool {
        self.window != 0
    }

    /// The handle of the window, in contracts.
    pub closed spec fn spec_window(&self) -> isize {
        self.window
    }

    /// The handle of the window.
    #[verifier::when_used_as_spec(spec_window)]
    pub fn window(&self) -> (window: isize)
        ensures
            window == self.spec_window(),
            window != 0,
    {
        proof {
            use_type_invariant(self);
        }
        self.window
    }

    /// Completes the overlay with the font that was created for the window:
    /// `font` is what the creation returned, `last_error` the code that the
    /// system holds for it, zero for none. An invalid handle is a failure,
    /// and the failure comes with the script that takes the window back.
    pub fn with_font(self, font: isize, last_error: i32) -> (made: Result<
        CandidateList,
        CreationFailure,
    >)
        ensures
            match made {
                Ok(list) => {
                    &&& font_failure(font, last_error) is None
                    &&& list.window() == self.window()
                    &&& list.font() == font
                },
                Err(failure) => {
                    &&& font_failure(font, last_error) == Some(failure.error)
                    &&& failure.rollback@ == seq![Command::Destroy { window: self.window() }]
                },
            },
    {
        proof {
            use_type_invariant(&self);
        }
        if font == 0 || font == -1 {
            let mut rollback: Vec<Command> = Vec::new();
            rollback.push(Command::Destroy { window: self.window });
            proof {
                assert(rollback@ =~= seq![Command::Destroy { window: self.window() }]);
            }
            Err(
                CreationFailure {
                    error: OverlayError::FontCreationFailed(failure(last_error)),
                    rollback,
                },
            )
        } else {
            Ok(CandidateList { window: self.window, font })
        }
    }
}

/// A creation that failed half way: why, and the script that releases what
/// had been created by then. A failure of that script is passed over.
pub struct CreationFailure {
    pub error: OverlayError,
    pub rollback: Vec<Command>,
}

/// The candidate window: its handle and the handle of its font.
pub struct CandidateList {
    window: isize,
    font: isize,
}

/// The script that moves a window next to the caret at (`x`, `y`).
pub open spec fn locate_script(window: isize, x: i32, y: i32) -> Seq<Command> {
    seq![Command::Move { window, x: (x + POS_OFFSETX) as i32, y: (y + POS_OFFSETY) as i32 }]
}

/// The script that shows a list in a window: the window is given the size
/// of the list's layout, made visible and repainted.
pub open spec fn show_script(window: isize, mode: LayoutMode, cells: Seq<Candidate>) -> Seq<
    Command,
> {
    seq![
        Command::Resize {
            window,
            width: window_width(mode, cells) as i32,
            height: window_height(mode, cells) as i32,
        },
        Command::Reveal { window },
        Command::Invalidate { window },
    ]
}

/// The script that hides a window.
pub open spec fn hide_script(window: isize) -> Seq<Command> {
    seq![Command::Conceal { window }]
}

/// The script that releases a window and its font: the window first, so
/// that nothing can draw with the font once it is gone.
pub open spec fn destroy_script(window: isize, font: isize) -> Seq<Command> {
    seq![Command::Destroy { window }, Command::ReleaseFont { font }]
}

impl CandidateList {
    #[verifier::type_invariant]
    spec fn live(self) -> bool {
        self.window != 0 && !font_is_invalid(self.font)
    }

    /// The handle of the window, in contracts.
    pub closed spec fn spec_window(&self) -> isize {
        self.window
    }

    /// The handle of the font, in contracts.
    pub closed spec fn spec_font(&self) -> isize {
        self.font
    }

    /// The handle of the window.
    #[verifier::when_used_as_spec(spec_window)]
    pub fn window(&self) -> (window: isize)
        ensures
            window == self.spec_window(),
            window != 0,
    {
        proof {
            use_type_invariant(self);
        }
        self.window
    }

    /// The handle of the font.
    #[verifier::when_used_as_spec(spec_font)]
    pub fn font(&self) -> (font: isize)
        ensures
            font == self.spec_font(),
            !font_is_invalid(font),
    {
        proof {
            use_type_invariant(self);
        }
        self.font
    }

    /// Takes up the window that was created for the overlay: `window` is
    /// what the creation returned, `last_error` the code that the system
    /// holds for it, zero for none. A null handle is a failure. The font
    /// comes next, see [`Surface::with_font`].
    pub fn create(window: isize, last_error: i32) -> (made: Result<Surface, OverlayError>)
        ensures
            match made {
                Ok(surface) => window_failure(window, last_error) is None && surface.window()
                    == window,
                Err(error) => window_failure(window, last_error) == Some(error),
            },
    {
        if window == 0 {
            Err(OverlayError::WindowCreationFailed(failure(last_error)))
        } else {
            Ok(Surface { window })
        }
    }

    /// Places the window next to the caret at (`x`, `y`): its top left
    /// corner goes to the caret's position plus the two offsets. Nothing but
    /// the position changes.
    pub fn locate(&self, x: i32, y: i32) -> (script: Vec<Command>)
        requires
            in_range(x + POS_OFFSETX),
            in_range(y + POS_OFFSETY),
        ensures
            script@ == locate_script(self.window(), x, y),
    {
        let mut script: Vec<Command> = Vec::new();
        script.push(Command::Move { window: self.window, x: x + POS_OFFSETX, y: y + POS_OFFSETY });
        proof {
            assert(script@ =~= locate_script(self.window(), x, y));
        }
        script
    }

    /// Shows a list of candidates. Their layout is computed and left for the
    /// next repaint of the window, in place of one that may still wait
    /// there; the script then sizes the window to the layout, makes it
    /// visible and has it repainted.
    pub fn show(&self, mailbox: &mut Mailbox, mode: LayoutMode, cells: Vec<Candidate>) -> (script:
        Vec<Command>)
        requires
            representable(mode, cells@),
        ensures
            final(mailbox)@.contains_key(self.window()),
            final(mailbox)@[self.window()]@ == (LayoutView {
                mode,
                font: self.font(),
                cells: cells@,
            }),
            final(mailbox)@ == old(mailbox)@.insert(self.window(), final(mailbox)@[self.window()]),
            script@ == show_script(self.window(), mode, cells@),
    {
        let layout = Layout::arrange(mode, self.font, cells);
        let width = layout.wnd_width();
        let height = layout.wnd_height();
        mailbox.post(self.window, layout);
        let mut script: Vec<Command> = Vec::new();
        script.push(Command::Resize { window: self.window, width, height });
        script.push(Command::Reveal { window: self.window });
        script.push(Command::Invalidate { window: self.window });
        proof {
            assert(script@ =~= show_script(self.window(), mode, cells@));
        }
        script
    }

    /// Hides the window. Hiding a hidden window changes nothing.
    pub fn conceal(&self) -> (script: Vec<Command>)
        ensures
            script@ == hide_script(self.window()),
    {
        let mut script: Vec<Command> = Vec::new();
        script.push(Command::Conceal { window: self.window });
        proof {
            assert(script@ =~= hide_script(self.window()));
        }
        script
    }

    /// Gives the overlay up. What still waited for a repaint of its window
    /// is dropped, so that no repaint draws with a font that is gone; the
    /// script releases the window and then the font.
    pub fn destroy(self, mailbox: &mut Mailbox) -> (script: Vec<Command>)
        ensures
            final(mailbox)@ == old(mailbox)@.remove(self.window()),
            script@ == destroy_script(self.window(), self.font()),
    {
        let _ = mailbox.take(self.window);
        let mut script: Vec<Command> = Vec::new();
        script.push(Command::Destroy { window: self.window });
        script.push(Command::ReleaseFont { font: self.font });
        proof {
            assert(script@ =~= destroy_script(self.window(), self.font()));
        }
        script
    }
}

/// What the commands change of a window on screen.
pub struct WindowState {
    /// Whether the window is shown.
    pub visible: bool,
    /// Whether the window is the active one, which takes the keys.
    pub active: bool,
    /// Whether the window stays above the windows of applications.
    pub topmost: bool,
    /// Where its top left corner is.
    pub x: int,
    pub y: int,
    /// How large it is.
    pub width: int,
    pub height: int,
}

/// What a command means: the state of a window once the command was
/// performed, given its state before. Commands for other windows, and
/// commands that change nothing listed in [`WindowState`], leave it as it
/// was.
pub open spec fn effect(window: isize, state: WindowState, command: Command) -> WindowState {
    match command {
        Command::Move { window: target, x, y } if target == window => WindowState {
            x: x as int,
            y: y as int,
            topmost: true,
            ..state
        },
        Command::Resize { window: target, width, height } if target == window => WindowState {
            width: width as int,
            height: height as int,
            topmost: true,
            ..state
        },
        Command::Reveal { window: target } if target == window => WindowState {
            visible: true,
            ..state
        },
        Command::Conceal { window: target } if target == window => WindowState {
            visible: false,
            ..state
        },
        Command::Destroy { window: target } if target == window => WindowState {
            visible: false,
            ..state
        },
        _ => state,
    }
}

/// The state of a window once the commands of a script were performed in
/// their order.
pub open spec fn effect_all(window: isize, state: WindowState, script: Seq<Command>) -> WindowState
    decreases script.len(),
{
    if script.len() == 0 {
        state
    } else {
        effect(window, effect_all(window, state, script.drop_last()), script.last())
    }
}

/// No script activates a window or takes its activation away: the overlay
/// never takes the focus from the application that the user types into.
pub proof fn lemma_no_command_activates(window: isize, state: WindowState, script: Seq<Command>)
    ensures
        effect_all(window, state, script).active == state.active,
    decreases script.len(),
{
    if script.len() > 0 {
        lemma_no_command_activates(window, state, script.drop_last());
    }
}

/// Locating moves the window and does nothing else: its corner goes to the
/// caret's position plus the offsets, it stays topmost, and size,
/// visibility and activation are as they were.
pub proof fn lemma_locate_moves_only(window: isize, state: WindowState, x: i32, y: i32)
    requires
        in_range(x + POS_OFFSETX),
        in_range(y + POS_OFFSETY),
    ensures
        effect_all(window, state, locate_script(window, x, y)) == (WindowState {
            x: x + POS_OFFSETX,
            y: y + POS_OFFSETY,
            topmost: true,
            ..state
        }),
{
    let script = locate_script(window, x, y);
    assert(script.drop_last() =~= Seq::<Command>::empty());
    assert(effect_all(window, state, script.drop_last()) == state);
}

/// Showing a list, where every command of the script is performed, gives
/// the window the size of the list's layout and makes it visible; it stays
/// where it was, topmost, and is not activated.
pub proof fn lemma_show_sizes_and_reveals(
    window: isize,
    state: WindowState,
    mode: LayoutMode,
    cells: Seq<Candidate>,
)
    requires
        representable(mode, cells),
    ensures
        effect_all(window, state, show_script(window, mode, cells)) == (WindowState {
            width: window_width(mode, cells),
            height: window_height(mode, cells),
            visible: true,
            topmost: true,
            ..state
        }),
{
    let script = show_script(window, mode, cells);
    let two = script.drop_last();
    let one = two.drop_last();
    assert(one.drop_last() =~= Seq::<Command>::empty());
    assert(effect_all(window, state, one.drop_last()) == state);
    let resized = effect(window, state, script[0]);
    assert(one.last() == script[0]);
    assert(effect_all(window, state, one) == resized);
    let revealed = effect(window, resized, script[1]);
    assert(two.last() == script[1]);
    assert(effect_all(window, state, two) == revealed);
    assert(script.last() == script[2]);
    assert(effect_all(window, state, script) == effect(window, revealed, script[2]));
}

/// Showing a list and then hiding the window never leaves the window
/// visible. It does not matter whether the window was visible before, nor
/// how many commands of the show script were performed (the script ends
/// early where the window cannot be resized). A repaint in between does not
/// matter either: it performs no command.
pub proof fn lemma_hidden_after_show_then_hide(
    window: isize,
    state: WindowState,
    mode: LayoutMode,
    cells: Seq<Candidate>,
    performed: int,
)
    requires
        0 <= performed <= show_script(window, mode, cells).len(),
    ensures
        !effect_all(
            window,
            effect_all(window, state, show_script(window, mode, cells).take(performed)),
            hide_script(window),
        ).visible,
{
    lemma_hide_is_idempotent(
        window,
        effect_all(window, state, show_script(window, mode, cells).take(performed)),
    );
}

/// Hiding is idempotent: the hide script leaves a window invisible whatever
/// it was, and performing it again changes nothing.
pub proof fn lemma_hide_is_idempotent(window: isize, state: WindowState)
    ensures
        effect_all(window, state, hide_script(window)) == (WindowState { visible: false, ..state }),
        effect_all(window, effect_all(window, state, hide_script(window)), hide_script(window))
            == effect_all(window, state, hide_script(window)),
{
    assert(hide_script(window).drop_last() =~= Seq::<Command>::empty());
    let hidden = WindowState { visible: false, ..state };
    assert(effect_all(window, state, hide_script(window).drop_last()) == state);
    assert(effect_all(window, hidden, hide_script(window).drop_last()) == hidden);
}

/// Destroying an overlay releases its window and its font and leaves
/// nothing of it behind, and an overlay created afterwards owes nothing to
/// it: whatever handles the system gives next, valid ones are taken up, and
/// no layout of the old overlay waits for the new one, even where the
/// system gives the old window's handle again.
pub proof fn lemma_create_after_destroy(
    waiting: Map<isize, Layout>,
    window: isize,
    font: isize,
    next_window: isize,
    next_font: isize,
    window_error: i32,
    font_error: i32,
)
    requires
        next_window != 0,
        !font_is_invalid(next_font),
    ensures
        destroy_script(window, font) == seq![
            Command::Destroy { window },
            Command::ReleaseFont { font },
        ],
        !waiting.remove(window).contains_key(window),
        next_window != window ==> (waiting.remove(window).contains_key(next_window)
            <==> waiting.contains_key(next_window)),
        window_failure(next_window, window_error) is None,
        font_failure(next_font, font_error) is None,
{
}

} // verus!
