//! The dual-pane view: construction, the focus/delegation state machine,
//! and the composite tab labels.
//!
//! Exactly two presentation surfaces exist, one per document, and the view
//! tracks which of them is active. Host operations that must pick a single
//! surface are routed here: focus, search, breadcrumbs and the
//! editor-surface capability follow the active pane, while saving and
//! navigation always go to the "new" document's surface — the old document
//! is read-only context, the new one is the editable target, so save and
//! navigation history are defined by editability, not by focus. That
//! asymmetry is deliberate.

use vstd::prelude::*;

use crate::engine::{DiffEngine, initial_engine};

verus! {

/// One of the two presentation surfaces, named by its pane.
///
/// The left surface is bound to the "old" document, the right surface to
/// the "new" one.
#[derive(Clone, Copy, PartialEq, Eq, Structural, Debug)]
pub enum FocusedPane {
    /// The left pane, showing the "old" document.
    Left,
    /// The right pane, showing the "new" document.
    Right,
}

/// The pane that is not `p`.
pub open spec fn opposite(p: FocusedPane) -> FocusedPane {
    match p {
        FocusedPane::Left => FocusedPane::Right,
        FocusedPane::Right => FocusedPane::Left,
    }
}

/// The closed set of capabilities a host may ask this view to act as.
#[derive(Clone, Copy, PartialEq, Eq, Structural, Debug)]
pub enum CapabilityKind {
    /// The dual-pane diff view itself.
    DiffView,
    /// A single editor surface.
    EditorSurface,
    /// Anything else the host might ask for; never supported.
    Other,
}

/// What a supported capability request resolves to.
#[derive(Clone, Copy, PartialEq, Eq, Structural, Debug)]
pub enum ActAsTarget {
    /// The view itself.
    WholeView,
    /// The presentation surface of the given pane.
    Surface(FocusedPane),
}

/// The display name a document side contributes to a composite label:
/// its own name when it has a backing path, the placeholder otherwise.
pub open spec fn display_or_untitled(name: Option<String>) -> Seq<char> {
    match name {
        Some(n) => n@,
        None => "untitled"@,
    }
}

/// The composite label combining both documents' display names.
pub open spec fn combined_label(old_name: Option<String>, new_name: Option<String>) -> Seq<char> {
    display_or_untitled(old_name) + " ↔ "@ + display_or_untitled(new_name)
}

/// Renders one side's contribution to a composite label.
fn render_display_name(name: &Option<String>) -> (r: String)
    ensures
        r@ == display_or_untitled(*name),
{
    match name {
        Some(n) => n.clone(),
        None => String::from_str("untitled"),
    }
}

/// The dual-pane comparison view.
///
/// The host owns the documents, the editors and the shared diff
/// container; this state carries everything the view itself decides with:
/// the active pane, the display names and paths of both documents, and
/// the debounce/recompute engine whose directives the host's background
/// task obeys.
#[derive(Debug)]
pub struct SideBySideDiffView {
    /// File name of the "old" document, if it has a backing path.
    pub old_name: Option<String>,
    /// Full path of the "old" document, if it has one.
    pub old_path: Option<String>,
    /// File name of the "new" document, if it has a backing path.
    pub new_name: Option<String>,
    /// Full path of the "new" document, if it has one.
    pub new_path: Option<String>,
    /// The pane most recently given focus.
    pub focused_pane: FocusedPane,
    /// The debounce/recompute engine driving diff republication.
    pub engine: DiffEngine,
}

impl SideBySideDiffView {
    /// Builds the view state once the initial diff has been computed and
    /// published. The left pane is active from the start.
    pub fn new(
        old_name: Option<String>,
        old_path: Option<String>,
        new_name: Option<String>,
        new_path: Option<String>,
    ) -> (r: SideBySideDiffView)
        ensures
            r.focused_pane is Left,
            r.engine == initial_engine(),
            r.engine.wf(),
            r.old_name == old_name,
            r.old_path == old_path,
            r.new_name == new_name,
            r.new_path == new_path,
    {
        SideBySideDiffView {
            old_name,
            old_path,
            new_name,
            new_path,
            focused_pane: FocusedPane::Left,
            engine: DiffEngine::new(),
        }
    }

    /// The two-phase construction protocol: the host first computes the
    /// initial diff snapshot asynchronously and reports whether that
    /// succeeded. Only on success is a view produced — ready to present,
    /// left pane active — so no partially initialized view is ever
    /// observable; on failure the open attempt as a whole fails.
    pub fn open(
        initial_diff_ok: bool,
        old_name: Option<String>,
        old_path: Option<String>,
        new_name: Option<String>,
        new_path: Option<String>,
    ) -> (r: Option<SideBySideDiffView>)
        ensures
            r is Some <==> initial_diff_ok,
            r is Some ==> {
                &&& r->0.focused_pane is Left
                &&& r->0.engine == initial_engine()
                &&& r->0.old_name == old_name
                &&& r->0.old_path == old_path
                &&& r->0.new_name == new_name
                &&& r->0.new_path == new_path
            },
    {
        if initial_diff_ok {
            Some(SideBySideDiffView::new(old_name, old_path, new_name, new_path))
        } else {
            None
        }
    }

    /// Makes the left pane active. The host then moves UI focus to the
    /// left surface.
    pub fn switch_to_left_pane(&mut self)
        ensures
            *final(self) == (SideBySideDiffView { focused_pane: FocusedPane::Left, ..*old(self) }),
    {
        self.focused_pane = FocusedPane::Left;
    }

    /// Makes the right pane active. The host then moves UI focus to the
    /// right surface.
    pub fn switch_to_right_pane(&mut self)
        ensures
            *final(self) == (SideBySideDiffView { focused_pane: FocusedPane::Right, ..*old(self) }),
    {
        self.focused_pane = FocusedPane::Right;
    }

    /// Switches to the pane that is not currently active.
    pub fn toggle_pane(&mut self)
        ensures
            *final(self) == (SideBySideDiffView {
                focused_pane: opposite(old(self).focused_pane),
                ..*old(self)
            }),
    {
        match self.focused_pane {
            FocusedPane::Left => self.switch_to_right_pane(),
            FocusedPane::Right => self.switch_to_left_pane(),
        }
    }

    /// The surface whose focus handle stands for the view: the active one.
    pub fn focus_handle(&self) -> (r: FocusedPane)
        ensures
            r == self.focused_pane,
    {
        self.focused_pane
    }

    /// Capability resolution: asked for the diff view itself, the view
    /// answers with itself; asked for an editor surface, with the active
    /// pane's surface; anything else is unsupported.
    pub fn act_as_type(&self, kind: CapabilityKind) -> (r: Option<ActAsTarget>)
        ensures
            r == match kind {
                CapabilityKind::DiffView => Some(ActAsTarget::WholeView),
                CapabilityKind::EditorSurface => Some(ActAsTarget::Surface(self.focused_pane)),
                CapabilityKind::Other => None::<ActAsTarget>,
            },
    {
        match kind {
            CapabilityKind::DiffView => Some(ActAsTarget::WholeView),
            CapabilityKind::EditorSurface => Some(ActAsTarget::Surface(self.focused_pane)),
            CapabilityKind::Other => None,
        }
    }

    /// The surface that handles a search: the active pane's.
    pub fn as_searchable(&self) -> (r: FocusedPane)
        ensures
            r == self.focused_pane,
    {
        self.focused_pane
    }

    /// The surface whose breadcrumbs the view shows: the active pane's.
    pub fn breadcrumbs(&self) -> (r: FocusedPane)
        ensures
            r == self.focused_pane,
    {
        self.focused_pane
    }

    /// The surface a save is delegated to: always the right one, which
    /// edits the "new" document — regardless of which pane is active.
    pub fn save(&self) -> (r: FocusedPane)
        ensures
            r is Right,
    {
        FocusedPane::Right
    }

    /// The surface asked whether the view can save: the right one, for
    /// the same reason as [`save`](Self::save).
    pub fn can_save(&self) -> (r: FocusedPane)
        ensures
            r is Right,
    {
        FocusedPane::Right
    }

    /// The surface a navigation request is delegated to: the right one —
    /// navigation history is authoritative on the editable side.
    pub fn navigate(&self) -> (r: FocusedPane)
        ensures
            r is Right,
    {
        FocusedPane::Right
    }

    /// The surface the navigation history is attached to: the right one.
    /// A navigation history has exactly one owner, so it cannot be given
    /// to both surfaces.
    pub fn set_nav_history(&self) -> (r: FocusedPane)
        ensures
            r is Right,
    {
        FocusedPane::Right
    }

    /// A dual-pane comparison is never a single-document item.
    pub fn is_singleton(&self) -> (r: bool)
        ensures
            !r,
    {
        false
    }

    /// The surfaces an operation addressed to the whole view fans out to
    /// — lifecycle hooks and per-project-item enumeration go to both
    /// panes, left first.
    pub fn both_surfaces(&self) -> (r: Vec<FocusedPane>)
        ensures
            r@ == seq![FocusedPane::Left, FocusedPane::Right],
    {
        let mut r: Vec<FocusedPane> = Vec::new();
        r.push(FocusedPane::Left);
        r.push(FocusedPane::Right);
        proof {
            assert(r@ =~= seq![FocusedPane::Left, FocusedPane::Right]);
        }
        r
    }

    /// The telemetry description of opening this view.
    pub fn telemetry_event_text(&self) -> (r: String)
        ensures
            r@ == "Side-by-Side Diff View Opened"@,
    {
        String::from_str("Side-by-Side Diff View Opened")
    }

    /// The tab label: both documents' file names combined, a side with no
    /// backing path rendered as the placeholder.
    pub fn tab_content_text(&self) -> (r: String)
        ensures
            r@ == combined_label(self.old_name, self.new_name),
    {
        let left = render_display_name(&self.old_name);
        let right = render_display_name(&self.new_name);
        left.concat(" ↔ ").concat(right.as_str())
    }

    /// The tab tooltip: both documents' full paths combined, a side with
    /// no backing path rendered as the placeholder.
    pub fn tab_tooltip_text(&self) -> (r: String)
        ensures
            r@ == combined_label(self.old_path, self.new_path),
    {
        let left = render_display_name(&self.old_path);
        let right = render_display_name(&self.new_path);
        left.concat(" ↔ ").concat(right.as_str())
    }
}

} // verus!
