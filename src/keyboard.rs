use vstd::prelude::*;
use crate::editor::Editor;
use crate::editor::Motion;

verus! {

/// The key of a key press.
#[derive(Clone, Copy, Debug, PartialEq, Eq)]
pub enum Key {
    Char(char),
    Up,
    Down,
    Left,
    Right,
    PageUp,
    PageDown,
    Enter,
    Other,
}

/// The modifier keys held during a key press.
#[derive(Clone, Copy, Debug, PartialEq, Eq)]
pub enum Modifiers {
    /// No modifier.
    Plain,
    /// Control alone.
    Control,
    /// Any other combination.
    Other,
}

/// One key press.
#[derive(Clone, Copy, Debug, PartialEq, Eq)]
pub struct KeyPress {
    pub code: Key,
    pub modifiers: Modifiers,
}

/// Whether the session goes on after an input.
#[derive(Clone, Copy, Debug, PartialEq, Eq, Structural)]
pub enum Flow {
    Continue,
    Quit,
}

/// The cursor movement that an arrow key makes.
pub open spec fn arrow_motion(k: Key) -> Option<Motion> {
    match k {
        Key::Up => Some(Motion::Up),
        Key::Down => Some(Motion::Down),
        Key::Left => Some(Motion::Left),
        Key::Right => Some(Motion::Right),
        _ => None,
    }
}

/// The cursor movement that a page key makes.
pub open spec fn page_motion(k: Key) -> Option<Motion> {
    match k {
        Key::PageUp => Some(Motion::PageUp),
        Key::PageDown => Some(Motion::PageDown),
        _ => None,
    }
}

/// The cursor movement that a key press makes: arrows and page keys without a
/// modifier move the cursor; every other press leaves it.
pub open spec fn press_motion(p: KeyPress) -> Option<Motion> {
    match p.modifiers {
        Modifiers::Plain => match arrow_motion(p.code) {
            Some(m) => Some(m),
            None => page_motion(p.code),
        },
        _ => None,
    }
}

/// Control with `q` ends the session.
pub open spec fn press_quits(p: KeyPress) -> bool {
    p.modifiers == Modifiers::Control && p.code == Key::Char('q')
}

/// The editor state after a key press.
pub open spec fn after_motion(e: crate::editor::EditorView, m: Option<Motion>) -> crate::editor::EditorView {
    match m {
        Some(m) => e.moved(m),
        None => e,
    }
}

/// Handles one key press: moves the cursor or asks to quit. Characters and
/// other keys change nothing: the buffer is not edited.
pub fn handle_input(event: KeyPress, editor: &mut Editor) -> (r: Flow)
    requires
        old(editor).wf(),
    ensures
        final(editor).wf(),
        final(editor)@ == after_motion(old(editor)@, press_motion(event)),
        r == (if press_quits(event) { Flow::Quit } else { Flow::Continue }),
{
    match event.modifiers {
        Modifiers::Plain => {},
        _ => return handle_modifiers(event, editor),
    }
    match event.code {
        Key::Up | Key::Down | Key::Left | Key::Right => handle_arrow_keys(editor, event),
        Key::PageUp | Key::PageDown => handle_page_keys(editor, event),
        _ => {},
    }
    Flow::Continue
}

/// Moves the cursor for an arrow key; any other key changes nothing.
pub fn handle_arrow_keys(editor: &mut Editor, event: KeyPress)
    requires
        old(editor).wf(),
    ensures
        final(editor).wf(),
        final(editor)@ == after_motion(old(editor)@, arrow_motion(event.code)),
{
    match event.code {
        Key::Up => editor.cursor_move_up(),
        Key::Down => editor.cursor_move_down(),
        Key::Right => editor.cursor_move_right(),
        Key::Left => editor.cursor_move_left(),
        _ => {},
    }
}

/// Moves the cursor a page for a page key; any other key changes nothing.
pub fn handle_page_keys(editor: &mut Editor, event: KeyPress)
    requires
        old(editor).wf(),
    ensures
        final(editor).wf(),
        final(editor)@ == after_motion(old(editor)@, page_motion(event.code)),
{
    match event.code {
        Key::PageDown => editor.page_down(),
        Key::PageUp => editor.page_up(),
        _ => {},
    }
}

/// Handles a key press with modifiers: only control combinations mean anything.
pub fn handle_modifiers(event: KeyPress, editor: &mut Editor) -> (r: Flow)
    ensures
        *final(editor) == *old(editor),
        r == (if press_quits(event) { Flow::Quit } else { Flow::Continue }),
{
    match event.modifiers {
        Modifiers::Control => handle_ctrl_modifier(event, editor),
        _ => Flow::Continue,
    }
}

/// Handles a control combination: control with `q` asks to quit.
pub fn handle_ctrl_modifier(event: KeyPress, editor: &mut Editor) -> (r: Flow)
    ensures
        *final(editor) == *old(editor),
        r == (if event.code == Key::Char('q') { Flow::Quit } else { Flow::Continue }),
{
    match event.code {
        Key::Char('q') => Flow::Quit,
        _ => Flow::Continue,
    }
}

} // verus!
