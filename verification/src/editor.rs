//! The sample editor component built on the bus: it keeps a mode and its
//! text buffers here; its run routine — announcing itself over `core.print`
//! and asking `core.getinfo` for the build string — lives with the program
//! around the library, since it awaits its calls.

use vstd::prelude::*;

verus! {

/// What the editor is currently doing with key input.
enum Mode {
    /// Keys edit the focused buffer.
    Editing,
    /// Keys are commands.
    Normal,
}

/// The sample editor component's state.
pub struct Editor {
    mode: Mode,
    buffers: Vec<String>,
}

impl Editor {
    /// Whether the editor is in normal (command) mode.
    pub closed spec fn in_normal_mode(&self) -> bool {
        self.mode is Normal
    }

    /// The number of open buffers.
    pub closed spec fn buffer_count(&self) -> nat {
        self.buffers@.len()
    }

    /// A fresh editor: normal mode, no buffers.
    pub fn new() -> (r: Editor)
        ensures
            r.in_normal_mode(),
            r.buffer_count() == 0,
    {
        Editor { mode: Mode::Normal, buffers: Vec::new() }
    }
}

} // verus!
