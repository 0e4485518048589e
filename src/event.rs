use vstd::prelude::*;
use crate::editor::Editor;
use crate::editor::EditorView;
use crate::keyboard::Flow;
use crate::keyboard::KeyPress;
use crate::keyboard::after_motion;
use crate::keyboard::handle_input;
use crate::keyboard::press_motion;
use crate::keyboard::press_quits;

verus! {

/// An input event from the terminal.
#[derive(Clone, Copy, Debug, PartialEq, Eq)]
pub enum Event {
    Key(KeyPress),
    /// The terminal's new width and height.
    Resize(u16, u16),
    /// Focus, mouse and paste events, which the editor ignores.
    Other,
}

/// The editor state after an event.
pub open spec fn after_event(e: EditorView, ev: Event) -> EditorView {
    match ev {
        Event::Key(p) => after_motion(e, press_motion(p)),
        Event::Resize(w, h) => EditorView { w: w as int, h: h as int, ..e },
        Event::Other => e,
    }
}

/// Dispatches one event: a key press to the key handling, a resize to the
/// terminal size.
pub fn handle_event(editor: &mut Editor, event: Event) -> (r: Flow)
    requires
        old(editor).wf(),
    ensures
        final(editor).wf(),
        final(editor)@ == after_event(old(editor)@, event),
        r == (match event {
            Event::Key(p) => if press_quits(p) { Flow::Quit } else { Flow::Continue },
            _ => Flow::Continue,
        }),
{
    match event {
        Event::Key(p) => handle_input(p, editor),
        Event::Resize(w, h) => {
            editor.upadate_size(w, h);
            Flow::Continue
        },
        Event::Other => Flow::Continue,
    }
}

} // verus!
