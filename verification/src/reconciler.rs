//! Window state reconciler.
//!
//! Given an accepted frame and the state last applied to the real window,
//! this module decides the minimal sequence of window operations that
//! converges the window to what the host asked for. The surrounding
//! process performs the operations through whatever window-manager
//! primitives the platform offers; every decision — what to show, where,
//! in which z-order, under which owner, and in what order — is made here.
//!
//! The policy, in brief: a window is shown only for a visible frame with a
//! positive rect, and is positioned before it first becomes visible, never
//! taking focus; the host's active bit alone earns the topmost band, and
//! losing it demotes the window with a z-order-only change; an owner
//! change reparents at once, shown or hidden; hiding a topmost window
//! first leaves the topmost band so no stale z-order outlives it.

use vstd::prelude::*;

use crate::codec::Frame;

verus! {

/// One operation on the real window, in the order emitted.
#[derive(Clone, Copy, PartialEq, Eq, Structural, Debug)]
pub enum WindowOp {
    /// Reparent to the window the handle names; zero clears the owner.
    SetOwner(i64),
    /// Move and resize to the rect and pin the window above all ordinary
    /// windows, without activating it.
    PlaceTopmost { x: i32, y: i32, w: i32, h: i32 },
    /// Move and resize to the rect, leaving z-order and focus alone.
    PlaceInOrder { x: i32, y: i32, w: i32, h: i32 },
    /// Leave the topmost band: a z-order-only change, no move, no resize,
    /// no activation.
    DropTopmost,
    /// Make the window visible without giving it focus.
    ShowNoActivate,
    /// Hide the window without touching focus.
    HideNoFocus,
    /// Keep the window above others, or stop doing so (detach chrome).
    SetAlwaysOnTop(bool),
    /// Native window decorations on or off (detach chrome).
    SetDecorations(bool),
    /// Native resizing on or off (detach chrome).
    SetResizable(bool),
    /// Hide from or return to the taskbar (detach chrome).
    SetSkipTaskbar(bool),
    /// Ordinary show; the window manager may focus it (detach chrome).
    ShowNormal,
}

/// What was last applied to the real window.
#[derive(Clone, Copy, PartialEq, Eq, Structural, Debug)]
pub struct ReconcilerState {
    /// Owner handle last applied; zero for none.
    pub last_owner: i64,
    /// The window is currently shown.
    pub shown: bool,
    /// The window currently sits in the topmost band.
    pub topmost: bool,
}

impl ReconcilerState {
    /// A window in the topmost band is a shown window.
    pub open spec fn wf(self) -> bool {
        self.topmost ==> self.shown
    }

    /// The state of a window nobody touched yet: hidden, ordinary z-order,
    /// no owner.
    pub fn new() -> (r: Self)
        ensures
            r.last_owner == 0,
            !r.shown,
            !r.topmost,
    {
        ReconcilerState { last_owner: 0, shown: false, topmost: false }
    }
}

/// The frame asks for a shown window: visible bit set and a rect with
/// positive width and height. A degenerate rect never shows a window.
pub open spec fn spec_want_show(f: Frame) -> bool {
    f.spec_visible() && f.w > 0 && f.h > 0
}

/// Whether `f` asks for a shown window.
pub fn want_show(f: &Frame) -> (r: bool)
    ensures
        r == spec_want_show(*f),
{
    f.visible() && f.w > 0 && f.h > 0
}

/// The placement for `f`'s rect: pinned topmost when the host wants the
/// window active, in normal order otherwise.
pub open spec fn place_of(f: Frame) -> WindowOp {
    if f.spec_active() {
        WindowOp::PlaceTopmost { x: f.x, y: f.y, w: f.w, h: f.h }
    } else {
        WindowOp::PlaceInOrder { x: f.x, y: f.y, w: f.w, h: f.h }
    }
}

/// Reparenting: one operation when the owner changed, none otherwise.
pub open spec fn owner_ops(s: ReconcilerState, f: Frame) -> Seq<WindowOp> {
    if f.owner != s.last_owner {
        seq![WindowOp::SetOwner(f.owner)]
    } else {
        Seq::empty()
    }
}

/// Show, hide, placement and z-order: on the hidden-to-shown edge the
/// window is positioned first and then shown without activation; while
/// shown, an active frame re-places it topmost and an inactive frame
/// demotes it (only if it was topmost) and re-places it in normal order;
/// on the shown-to-hidden edge a topmost window first leaves the topmost
/// band, then hides without touching focus.
pub open spec fn visibility_ops(s: ReconcilerState, f: Frame) -> Seq<WindowOp> {
    if spec_want_show(f) && !s.shown {
        seq![place_of(f), WindowOp::ShowNoActivate]
    } else if spec_want_show(f) {
        if f.spec_active() {
            seq![(WindowOp::PlaceTopmost { x: f.x, y: f.y, w: f.w, h: f.h })]
        } else if s.topmost {
            seq![
                WindowOp::DropTopmost,
                (WindowOp::PlaceInOrder { x: f.x, y: f.y, w: f.w, h: f.h }),
            ]
        } else {
            seq![(WindowOp::PlaceInOrder { x: f.x, y: f.y, w: f.w, h: f.h })]
        }
    } else if s.shown {
        if s.topmost {
            seq![WindowOp::DropTopmost, WindowOp::HideNoFocus]
        } else {
            seq![WindowOp::HideNoFocus]
        }
    } else {
        Seq::empty()
    }
}

/// Everything one accepted frame makes the window do, in order.
pub open spec fn reconcile_ops(s: ReconcilerState, f: Frame) -> Seq<WindowOp> {
    owner_ops(s, f) + visibility_ops(s, f)
}

/// The state applied to the window once the operations ran.
pub open spec fn reconcile_next(s: ReconcilerState, f: Frame) -> ReconcilerState {
    ReconcilerState {
        last_owner: f.owner,
        shown: spec_want_show(f),
        topmost: spec_want_show(f) && f.spec_active(),
    }
}

/// Converges the window to the accepted frame `f`: updates the applied
/// state and returns the operations to perform, in order.
pub fn reconcile(state: &mut ReconcilerState, f: &Frame) -> (ops: Vec<WindowOp>)
    ensures
        *final(state) == reconcile_next(*old(state), *f),
        ops@ == reconcile_ops(*old(state), *f),
{
    let mut ops: Vec<WindowOp> = Vec::new();
    if f.owner != state.last_owner {
        ops.push(WindowOp::SetOwner(f.owner));
    }
    let ws = want_show(f);
    let active = f.active();
    if ws && !state.shown {
        if active {
            ops.push(WindowOp::PlaceTopmost { x: f.x, y: f.y, w: f.w, h: f.h });
        } else {
            ops.push(WindowOp::PlaceInOrder { x: f.x, y: f.y, w: f.w, h: f.h });
        }
        ops.push(WindowOp::ShowNoActivate);
    } else if ws {
        if active {
            ops.push(WindowOp::PlaceTopmost { x: f.x, y: f.y, w: f.w, h: f.h });
        } else {
            if state.topmost {
                ops.push(WindowOp::DropTopmost);
            }
            ops.push(WindowOp::PlaceInOrder { x: f.x, y: f.y, w: f.w, h: f.h });
        }
    } else if state.shown {
        if state.topmost {
            ops.push(WindowOp::DropTopmost);
        }
        ops.push(WindowOp::HideNoFocus);
    }
    state.last_owner = f.owner;
    state.shown = ws;
    state.topmost = ws && active;
    proof {
        assert(ops@ =~= reconcile_ops(*old(state), *f));
    }
    ops
}

/// Reconciliation keeps the applied state well formed.
pub proof fn lemma_reconcile_preserves_wf(s: ReconcilerState, f: Frame)
    ensures
        reconcile_next(s, f).wf(),
{
}

/// Visibility gating: a frame whose visible bit is clear, or whose rect is
/// degenerate, never leaves the window shown and never emits a show
/// operation; a visible frame with a positive rect always leaves it shown.
pub proof fn lemma_visibility_gating(s: ReconcilerState, f: Frame)
    ensures
        !spec_want_show(f) ==> !reconcile_next(s, f).shown,
        !spec_want_show(f) ==> !reconcile_ops(s, f).contains(WindowOp::ShowNoActivate),
        spec_want_show(f) ==> reconcile_next(s, f).shown,
{
    if !spec_want_show(f) {
        let ops = reconcile_ops(s, f);
        assert forall|i: int| 0 <= i < ops.len() implies ops[i] != WindowOp::ShowNoActivate by {
            if i < owner_ops(s, f).len() {
                assert(ops[i] == WindowOp::SetOwner(f.owner));
            } else {
                assert(ops[i] == visibility_ops(s, f)[i - owner_ops(s, f).len()]);
            }
        }
    }
}

/// First-show ordering: on the hidden-to-shown edge the window operations
/// are exactly a placement at the triggering frame's rect followed by a
/// show without activation (after any reparenting); in particular the
/// window is never made visible before it stands at that frame's rect.
pub proof fn lemma_first_show_ordering(s: ReconcilerState, f: Frame)
    requires
        !s.shown,
        spec_want_show(f),
    ensures
        reconcile_ops(s, f) == owner_ops(s, f) + seq![place_of(f), WindowOp::ShowNoActivate],
        forall|i: int|
            0 <= i < reconcile_ops(s, f).len() && #[trigger] reconcile_ops(s, f)[i]
                == WindowOp::ShowNoActivate ==> i >= 1 && reconcile_ops(s, f)[i - 1] == place_of(f),
{
    let ops = reconcile_ops(s, f);
    assert forall|i: int|
        0 <= i < ops.len() && #[trigger] ops[i] == WindowOp::ShowNoActivate implies i >= 1 && ops[i
        - 1] == place_of(f) by {
        if i < owner_ops(s, f).len() {
            assert(ops[i] == WindowOp::SetOwner(f.owner));
        } else {
            assert(ops[i] == visibility_ops(s, f)[i - owner_ops(s, f).len()]);
        }
    }
}

/// The active bit earns the topmost band: a shown-to-be frame with active
/// set pins the window topmost at the frame's rect and leaves it topmost.
pub proof fn lemma_active_promotes(s: ReconcilerState, f: Frame)
    requires
        spec_want_show(f),
        f.spec_active(),
    ensures
        reconcile_next(s, f).topmost,
        reconcile_ops(s, f).contains((WindowOp::PlaceTopmost { x: f.x, y: f.y, w: f.w, h: f.h })),
{
    let k = owner_ops(s, f).len() as int;
    if !s.shown {
        assert(reconcile_ops(s, f)[k] == place_of(f));
    } else {
        assert(reconcile_ops(s, f)[k] == (WindowOp::PlaceTopmost {
            x: f.x,
            y: f.y,
            w: f.w,
            h: f.h,
        }));
    }
}

/// An inactive frame never leaves the window topmost; and one that keeps
/// the window shown while it sat in the topmost band demotes it with the
/// z-order-only operation.
pub proof fn lemma_inactive_demotes(s: ReconcilerState, f: Frame)
    requires
        !f.spec_active(),
    ensures
        !reconcile_next(s, f).topmost,
        s.shown && s.topmost && spec_want_show(f) ==> reconcile_ops(s, f).contains(
            WindowOp::DropTopmost,
        ),
{
    if s.shown && s.topmost && spec_want_show(f) {
        let k = owner_ops(s, f).len() as int;
        assert(reconcile_ops(s, f)[k] == WindowOp::DropTopmost);
    }
}

/// Hiding a topmost window first leaves the topmost band, then hides, in
/// that order, so no stale topmost state outlives the window.
pub proof fn lemma_hide_demotes_first(s: ReconcilerState, f: Frame)
    requires
        s.shown,
        s.topmost,
        !spec_want_show(f),
    ensures
        reconcile_ops(s, f) == owner_ops(s, f) + seq![
            WindowOp::DropTopmost,
            WindowOp::HideNoFocus,
        ],
        !reconcile_next(s, f).topmost,
        !reconcile_next(s, f).shown,
{
}

/// Owner reparenting: whenever the frame's owner differs from the one last
/// applied, the very first operation reparents — shown or hidden — and the
/// new owner is recorded.
pub proof fn lemma_owner_reparenting(s: ReconcilerState, f: Frame)
    ensures
        f.owner != s.last_owner ==> reconcile_ops(s, f).len() > 0 && reconcile_ops(s, f)[0]
            == WindowOp::SetOwner(f.owner),
        f.owner == s.last_owner ==> !reconcile_ops(s, f).contains(WindowOp::SetOwner(f.owner)),
        reconcile_next(s, f).last_owner == f.owner,
{
    if f.owner == s.last_owner {
        let ops = reconcile_ops(s, f);
        assert forall|i: int| 0 <= i < ops.len() implies ops[i] != WindowOp::SetOwner(f.owner) by {
            assert(ops[i] == visibility_ops(s, f)[i]);
        }
    }
}

} // verus!
