//! Drag-and-drop onto the library: which window events matter, the drop
//! buffer that collects the dropped paths, and when a debounced batch is
//! handed to the bulk add.
use vstd::prelude::*;

verus! {

/// Debounce between the last drop and the flush of the batch, in
/// milliseconds.
pub const DROP_DEBOUNCE_MS: u64 = 50;

/// The navigation index of the library screen.
pub const SCREEN_LIBRARY: i32 = 0;

/// The window events drag-and-drop reads.
#[derive(Debug, PartialEq, Eq)]
pub enum DropEvent {
    HoveredFile(String),
    HoveredFileCancelled,
    DroppedFile(String),
    Other,
}

/// What a window event asks of drag-and-drop.
#[derive(Debug, PartialEq, Eq)]
pub enum DropAction {
    ShowOverlay,
    HideOverlay,
    Buffer(String),
    Ignore,
}

/// The action a window event calls for.
pub fn drop_action_for(event: DropEvent) -> (a: DropAction)
    ensures
        a == match event {
            DropEvent::HoveredFile(_) => DropAction::ShowOverlay,
            DropEvent::HoveredFileCancelled => DropAction::HideOverlay,
            DropEvent::DroppedFile(p) => DropAction::Buffer(p),
            DropEvent::Other => DropAction::Ignore,
        },
{
    match event {
        DropEvent::HoveredFile(_) => DropAction::ShowOverlay,
        DropEvent::HoveredFileCancelled => DropAction::HideOverlay,
        DropEvent::DroppedFile(p) => DropAction::Buffer(p),
        DropEvent::Other => DropAction::Ignore,
    }
}

/// What the window must do after an action was handled.
#[derive(Clone, Copy, PartialEq, Eq, Debug, Structural)]
pub struct DropEffect {
    /// Show (`Some(true)`) or hide (`Some(false)`) the drop overlay.
    pub overlay: Option<bool>,
    /// (Re)arm the debounce timer that flushes the batch.
    pub arm_flush: bool,
}

/// The paths dropped since the last flush.
pub struct DropBuffer {
    paths: Vec<String>,
}

impl DropBuffer {
    /// The buffered paths, oldest first.
    pub closed spec fn paths_spec(&self) -> Seq<Seq<char>> {
        self.paths@.map_values(|p: String| p@)
    }

    /// An empty buffer.
    pub fn new() -> (b: Self)
        ensures
            b.paths_spec() == Seq::<Seq<char>>::empty(),
    {
        DropBuffer { paths: Vec::new() }
    }

    /// Handle an action while screen `screen` is shown: the overlay is shown
    /// only over the library; a drop hides it and, over the library, buffers
    /// the path and arms the flush.
    pub fn handle(&mut self, action: DropAction, screen: i32) -> (e: DropEffect)
        ensures
            ({
                let lib = screen == SCREEN_LIBRARY;
                match action {
                    DropAction::ShowOverlay => e == (DropEffect { overlay: if lib { Some(true) } else { None }, arm_flush: false })
                        && final(self).paths_spec() == old(self).paths_spec(),
                    DropAction::HideOverlay => e == (DropEffect { overlay: Some(false), arm_flush: false })
                        && final(self).paths_spec() == old(self).paths_spec(),
                    DropAction::Buffer(p) => e == (DropEffect { overlay: Some(false), arm_flush: lib })
                        && final(self).paths_spec() == if lib { old(self).paths_spec().push(p@) } else { old(self).paths_spec() },
                    DropAction::Ignore => e == (DropEffect { overlay: None, arm_flush: false })
                        && final(self).paths_spec() == old(self).paths_spec(),
                }
            }),
    {
        let lib = screen == SCREEN_LIBRARY;
        match action {
            DropAction::ShowOverlay => DropEffect { overlay: if lib { Some(true) } else { None }, arm_flush: false },
            DropAction::HideOverlay => DropEffect { overlay: Some(false), arm_flush: false },
            DropAction::Buffer(p) => {
                if lib {
                    let ghost before = self.paths@;
                    self.paths.push(p);
                    proof {
                        assert(self.paths@.map_values(|q: String| q@) =~= before.map_values(|q: String| q@).push(p@));
                    }
                }
                DropEffect { overlay: Some(false), arm_flush: lib }
            },
            DropAction::Ignore => DropEffect { overlay: None, arm_flush: false },
        }
    }

    /// Flush the batch when the debounce fires: the buffer is emptied, and
    /// the buffered paths are handed out for a bulk add when there are some
    /// and the library is still shown.
    pub fn take_batch(&mut self, screen: i32) -> (batch: Option<Vec<String>>)
        ensures
            final(self).paths_spec() == Seq::<Seq<char>>::empty(),
            (old(self).paths_spec().len() == 0 || screen != SCREEN_LIBRARY) ==> batch is None,
            (old(self).paths_spec().len() > 0 && screen == SCREEN_LIBRARY) ==> batch is Some
                && batch.unwrap()@.map_values(|p: String| p@) == old(self).paths_spec(),
    {
        let mut paths: Vec<String> = Vec::new();
        std::mem::swap(&mut paths, &mut self.paths);
        proof {
            assert(self.paths@.map_values(|p: String| p@) =~= Seq::<Seq<char>>::empty());
        }
        if paths.len() == 0 || screen != SCREEN_LIBRARY {
            return None;
        }
        Some(paths)
    }
}

} // verus!
