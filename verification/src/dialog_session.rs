//! Settings-dialog session: while the settings dialog is open over the
//! library, the runtime view shows the global view; closing it restores the
//! open book's own runtime view and its pending "inherit global" intent.
//!
//! The session decides; the caller applies. `open` says whether the global
//! view must be applied to the runtime, `end` hands back the view to restore,
//! and `reset_to_global` records the runtime view the caller installed.
use crate::view_modes::ResolvedView;
use vstd::prelude::*;

verus! {

/// Where the settings dialog was opened from.
#[derive(Clone, Copy, PartialEq, Eq, Debug, Structural)]
pub enum DialogScope {
    Library,
    Viewer,
}

/// The book's runtime view and pending-inherit intent, captured when a
/// library-scoped dialog opened over an open book.
#[derive(Clone, Copy, PartialEq, Eq, Debug, Structural)]
pub struct RuntimeSnapshot {
    pub view: ResolvedView,
    pub pending_inherit: Option<ResolvedView>,
}

/// The dialog session state.
pub struct DialogSession {
    scope: Option<DialogScope>,
    snapshot: Option<RuntimeSnapshot>,
    pending_inherit: Option<ResolvedView>,
}

/// The session state as plain values: scope, snapshot, pending intent.
pub type SessionModel = (Option<DialogScope>, Option<RuntimeSnapshot>, Option<ResolvedView>);

/// Opening the dialog from `scope` over a runtime showing `current`: the
/// scope is recorded; from the library, the book's view and pending intent
/// are captured when a book is open (and nothing is captured otherwise); from
/// the viewer, an earlier capture is kept.
pub open spec fn opened(
    before: SessionModel,
    scope: DialogScope,
    has_open_book: bool,
    current: ResolvedView,
    after: SessionModel,
) -> bool {
    &&& after.0 == Some(scope)
    &&& after.2 == before.2
    &&& after.1 == if scope == DialogScope::Library {
        if has_open_book {
            Some(RuntimeSnapshot { view: current, pending_inherit: before.2 })
        } else {
            None
        }
    } else {
        before.1
    }
}

/// Ending the session: the captured view (if any) is handed back to be
/// restored together with its pending intent; scope and capture are cleared.
pub open spec fn ended(before: SessionModel, restore: Option<ResolvedView>, after: SessionModel) -> bool {
    &&& after.0 is None
    &&& after.1 is None
    &&& restore == match before.1 {
        Some(s) => Some(s.view),
        None => None,
    }
    &&& after.2 == match before.1 {
        Some(s) => s.pending_inherit,
        None => before.2,
    }
}

impl DialogSession {
    /// The session as plain values.
    pub closed spec fn model(&self) -> SessionModel {
        (self.scope, self.snapshot, self.pending_inherit)
    }

    /// No dialog, no capture, no pending intent.
    pub fn new() -> (s: Self)
        ensures
            s.model() == (None::<DialogScope>, None::<RuntimeSnapshot>, None::<ResolvedView>),
    {
        DialogSession { scope: None, snapshot: None, pending_inherit: None }
    }

    /// Open the dialog from `scope`; `current` is the runtime view shown now.
    /// Returns whether the caller must now apply the global view to the
    /// runtime (only for the library scope).
    pub fn open(&mut self, scope: DialogScope, has_open_book: bool, current: ResolvedView) -> (apply_global: bool)
        ensures
            apply_global == (scope == DialogScope::Library),
            opened(old(self).model(), scope, has_open_book, current, final(self).model()),
    {
        self.scope = Some(scope);
        if scope == DialogScope::Library {
            self.snapshot = if has_open_book {
                Some(RuntimeSnapshot { view: current, pending_inherit: self.pending_inherit })
            } else {
                None
            };
            true
        } else {
            false
        }
    }

    /// The scope of the open dialog, if any.
    pub fn scope(&self) -> (s: Option<DialogScope>)
        ensures
            s == self.model().0,
    {
        self.scope
    }

    /// Whether a book's runtime view is captured.
    pub fn has_snapshot(&self) -> (b: bool)
        ensures
            b == (self.model().1 is Some),
    {
        self.snapshot.is_some()
    }

    /// End the session; returns the view the caller must restore, if any.
    pub fn end(&mut self) -> (restore: Option<ResolvedView>)
        ensures
            ended(old(self).model(), restore, final(self).model()),
    {
        let restore = match self.snapshot {
            Some(s) => {
                self.pending_inherit = s.pending_inherit;
                Some(s.view)
            },
            None => None,
        };
        self.scope = None;
        self.snapshot = None;
        restore
    }

    /// Whether the book's runtime view still equals the global view that a
    /// reset installed, i.e. the book should keep inheriting the global view.
    pub fn inherit_pending(&self, current: ResolvedView) -> (b: bool)
        ensures
            b == (self.model().2 == Some(current)),
    {
        match self.pending_inherit {
            Some(p) => p == current,
            None => false,
        }
    }

    /// Drop the pending inherit intent.
    pub fn clear_pending_inherit(&mut self)
        ensures
            final(self).model() == (old(self).model().0, old(self).model().1, None::<ResolvedView>),
    {
        self.pending_inherit = None;
    }

    /// Record that the caller reset the runtime to the global view and now
    /// shows `installed`.
    pub fn reset_to_global(&mut self, installed: ResolvedView)
        ensures
            final(self).model() == (old(self).model().0, old(self).model().1, Some(installed)),
    {
        self.pending_inherit = Some(installed);
    }
}

/// Opening the dialog from the library over an open book and ending it hands
/// back the book's view and restores the pending intent held before opening.
pub proof fn lemma_library_session_restores_book(
    s0: SessionModel,
    current: ResolvedView,
    s1: SessionModel,
    restore: Option<ResolvedView>,
    s2: SessionModel,
)
    requires
        opened(s0, DialogScope::Library, true, current, s1),
        ended(s1, restore, s2),
    ensures
        restore == Some(current),
        s2.2 == s0.2,
        s2.0 is None,
{
}

/// Ending a session a second time restores nothing and changes nothing.
pub proof fn lemma_end_twice_is_noop(
    s0: SessionModel,
    r1: Option<ResolvedView>,
    s1: SessionModel,
    r2: Option<ResolvedView>,
    s2: SessionModel,
)
    requires
        ended(s0, r1, s1),
        ended(s1, r2, s2),
    ensures
        r2 is None,
        s2 == s1,
{
}

/// A viewer-scoped session never restores a view it did not capture: opened
/// from the viewer on a session with no capture, ending hands back nothing.
pub proof fn lemma_viewer_session_restores_nothing(
    s0: SessionModel,
    has_open_book: bool,
    current: ResolvedView,
    s1: SessionModel,
    restore: Option<ResolvedView>,
    s2: SessionModel,
)
    requires
        s0.1 is None,
        opened(s0, DialogScope::Viewer, has_open_book, current, s1),
        ended(s1, restore, s2),
    ensures
        restore is None,
        s2.2 == s0.2,
{
}

} // verus!
