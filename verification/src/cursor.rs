//! The cursor state machine and the icon-name mapping.
//!
//! The cursor is in exactly one of three interaction states.  A
//! transition first undoes the active effect of the current state, then
//! applies the target state's setup; the plan of native calls for a
//! transition is computed here, so that requesting the state that is
//! already active provably performs no native call at all.

use vstd::prelude::*;

verus! {

/// The three mutually exclusive cursor interaction states.
#[derive(Clone, Copy, Debug, PartialEq, Eq, Structural)]
pub enum CursorState {
    /// The cursor behaves normally.
    Normal,
    /// The cursor is invisible over the window.
    Hide,
    /// The cursor is confined to the window by an active pointer grab.
    Grab,
}

/// The server's verdict on an active pointer-grab request.  These are
/// the documented outcomes; no other verdict can be reported.
#[derive(Clone, Copy, Debug, PartialEq, Eq, Structural)]
pub enum GrabOutcome {
    /// The grab is active.
    Success,
    /// Another client already holds a grab.
    AlreadyGrabbed,
    /// The request carried an invalid timestamp.
    InvalidTime,
    /// The window is not viewable.
    NotViewable,
    /// The pointer is frozen by another grab.
    Frozen,
}

/// One native call of a cursor-state transition; a deployment performs
/// these against the server in plan order.
#[derive(Clone, Copy, Debug, PartialEq, Eq, Structural)]
pub enum CursorAction {
    /// Release the active pointer grab.
    UngrabPointer,
    /// Install a fully transparent one-pixel bitmap cursor.
    DefineBlankCursor,
    /// Request an active pointer grab on the window, asynchronous for
    /// both pointer and keyboard.
    GrabPointer,
}

/// The native calls that undo the active effect of the current state:
/// only an active pointer grab needs releasing; leaving the normal or
/// the hidden state undoes nothing, as the hidden state's visual cursor
/// is simply replaced by the next state's setup.
pub open spec fn undo_plan(current: CursorState) -> Seq<CursorAction> {
    match current {
        CursorState::Grab => seq![CursorAction::UngrabPointer],
        CursorState::Normal => seq![],
        CursorState::Hide => seq![],
    }
}

/// The native calls that apply the target state's setup.
pub open spec fn apply_plan(target: CursorState) -> Seq<CursorAction> {
    match target {
        CursorState::Normal => seq![],
        CursorState::Hide => seq![CursorAction::DefineBlankCursor],
        CursorState::Grab => seq![CursorAction::GrabPointer],
    }
}

/// The full plan of a transition: empty when the target state is
/// already active, else undo of the current state followed by setup of
/// the target.
pub open spec fn transition_plan(current: CursorState, target: CursorState) -> Seq<CursorAction> {
    if current == target {
        seq![]
    } else {
        undo_plan(current) + apply_plan(target)
    }
}

/// Requesting the state that is already active performs no native call,
/// and a transition that does enter the grabbed state requests the grab
/// as its last call.
pub proof fn lemma_transition_idempotent(current: CursorState, target: CursorState)
    ensures
        current == target ==> transition_plan(current, target) =~= Seq::<CursorAction>::empty(),
        current != target && target == CursorState::Grab ==> transition_plan(current, target).last()
            == CursorAction::GrabPointer,
{
}

/// Leaving the grabbed state releases the pointer grab exactly once,
/// whatever the target state is.
pub proof fn lemma_leaving_grab_releases_once(target: CursorState)
    requires
        target != CursorState::Grab,
    ensures
        transition_plan(CursorState::Grab, target)[0] == CursorAction::UngrabPointer,
        forall|i: int|
            0 < i < transition_plan(CursorState::Grab, target).len() ==> transition_plan(
                CursorState::Grab,
                target,
            )[i] != CursorAction::UngrabPointer,
{
}

/// Compute the plan of native calls for a cursor-state transition.
pub fn cursor_transition_plan(current: CursorState, target: CursorState) -> (plan: Vec<
    CursorAction,
>)
    ensures
        plan@ == transition_plan(current, target),
{
    let mut plan: Vec<CursorAction> = Vec::new();
    if current == target {
        proof {
            assert(plan@ =~= transition_plan(current, target));
        }
        return plan;
    }
    match current {
        CursorState::Grab => plan.push(CursorAction::UngrabPointer),
        CursorState::Normal => {},
        CursorState::Hide => {},
    }
    match target {
        CursorState::Normal => {},
        CursorState::Hide => plan.push(CursorAction::DefineBlankCursor),
        CursorState::Grab => plan.push(CursorAction::GrabPointer),
    }
    proof {
        assert(plan@ =~= undo_plan(current) + apply_plan(target));
    }
    plan
}

/// The fixed set of cursor icons a caller can request; each maps to a
/// named theme cursor, with an explicit fallback for icons that have no
/// faithful equivalent on this platform.
#[derive(Clone, Copy, Debug, PartialEq, Eq, Structural)]
pub enum MouseCursor {
    Default,
    Crosshair,
    Hand,
    Arrow,
    Move,
    Text,
    Wait,
    Help,
    Progress,
    NotAllowed,
    ContextMenu,
    NoneCursor,
    Cell,
    VerticalText,
    Alias,
    Copy,
    NoDrop,
    Grab,
    Grabbing,
    AllScroll,
    ZoomIn,
    ZoomOut,
    EResize,
    NResize,
    NeResize,
    NwResize,
    SResize,
    SeResize,
    SwResize,
    WResize,
    EwResize,
    NsResize,
    NeswResize,
    NwseResize,
    ColResize,
    RowResize,
}

/// The theme-cursor name each icon maps to.  Icons without a faithful
/// equivalent fall back to the plain left pointer; the mapping is total
/// and intentionally approximate for those.
pub open spec fn theme_name_spec(cursor: MouseCursor) -> Seq<char> {
    match cursor {
        MouseCursor::Alias => "link"@,
        MouseCursor::Arrow => "arrow"@,
        MouseCursor::Cell => "plus"@,
        MouseCursor::Copy => "copy"@,
        MouseCursor::Crosshair => "crosshair"@,
        MouseCursor::Default => "left_ptr"@,
        MouseCursor::Grabbing => "grabbing"@,
        MouseCursor::Hand => "hand"@,
        MouseCursor::Grab => "hand"@,
        MouseCursor::Help => "question_arrow"@,
        MouseCursor::Move => "move"@,
        MouseCursor::NoDrop => "circle"@,
        MouseCursor::NotAllowed => "crossed_circle"@,
        MouseCursor::Progress => "left_ptr_watch"@,
        MouseCursor::EResize => "right_side"@,
        MouseCursor::NResize => "top_side"@,
        MouseCursor::NeResize => "top_right_corner"@,
        MouseCursor::NwResize => "top_left_corner"@,
        MouseCursor::SResize => "bottom_side"@,
        MouseCursor::SeResize => "bottom_right_corner"@,
        MouseCursor::SwResize => "bottom_left_corner"@,
        MouseCursor::WResize => "left_side"@,
        MouseCursor::EwResize => "h_double_arrow"@,
        MouseCursor::ColResize => "h_double_arrow"@,
        MouseCursor::NsResize => "v_double_arrow"@,
        MouseCursor::RowResize => "v_double_arrow"@,
        MouseCursor::NwseResize => "bd_double_arrow"@,
        MouseCursor::NeswResize => "fd_double_arrow"@,
        MouseCursor::Text => "xterm"@,
        MouseCursor::VerticalText => "xterm"@,
        MouseCursor::Wait => "watch"@,
        MouseCursor::ContextMenu => "left_ptr"@,
        MouseCursor::NoneCursor => "left_ptr"@,
        MouseCursor::AllScroll => "left_ptr"@,
        MouseCursor::ZoomIn => "left_ptr"@,
        MouseCursor::ZoomOut => "left_ptr"@,
    }
}

/// The name of the themed cursor to load for the requested icon.
pub fn cursor_theme_name(cursor: MouseCursor) -> (r: &'static str)
    ensures
        r@ == theme_name_spec(cursor),
{
    match cursor {
        MouseCursor::Alias => "link",
        MouseCursor::Arrow => "arrow",
        MouseCursor::Cell => "plus",
        MouseCursor::Copy => "copy",
        MouseCursor::Crosshair => "crosshair",
        MouseCursor::Default => "left_ptr",
        MouseCursor::Grabbing => "grabbing",
        MouseCursor::Hand => "hand",
        MouseCursor::Grab => "hand",
        MouseCursor::Help => "question_arrow",
        MouseCursor::Move => "move",
        MouseCursor::NoDrop => "circle",
        MouseCursor::NotAllowed => "crossed_circle",
        MouseCursor::Progress => "left_ptr_watch",
        MouseCursor::EResize => "right_side",
        MouseCursor::NResize => "top_side",
        MouseCursor::NeResize => "top_right_corner",
        MouseCursor::NwResize => "top_left_corner",
        MouseCursor::SResize => "bottom_side",
        MouseCursor::SeResize => "bottom_right_corner",
        MouseCursor::SwResize => "bottom_left_corner",
        MouseCursor::WResize => "left_side",
        MouseCursor::EwResize => "h_double_arrow",
        MouseCursor::ColResize => "h_double_arrow",
        MouseCursor::NsResize => "v_double_arrow",
        MouseCursor::RowResize => "v_double_arrow",
        MouseCursor::NwseResize => "bd_double_arrow",
        MouseCursor::NeswResize => "fd_double_arrow",
        MouseCursor::Text => "xterm",
        MouseCursor::VerticalText => "xterm",
        MouseCursor::Wait => "watch",
        MouseCursor::ContextMenu => "left_ptr",
        MouseCursor::NoneCursor => "left_ptr",
        MouseCursor::AllScroll => "left_ptr",
        MouseCursor::ZoomIn => "left_ptr",
        MouseCursor::ZoomOut => "left_ptr",
    }
}

} // verus!
