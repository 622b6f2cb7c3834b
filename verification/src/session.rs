//! Sync session.
//!
//! One session mirrors one window. Each timer tick the surrounding process
//! reads the detach side file, reads the control block twice around its
//! payload (the publish counter before and after), and hands both to the
//! session; the session decides everything else: detach and attach
//! transitions, header and gate checks, whether the drag side file must be
//! loaded, and which window operations to perform. The session never does
//! I/O itself, so every decision it makes is verified.

use vstd::prelude::*;

use crate::codec::Frame;
use crate::drop_bridge::DropPayloadStore;
use crate::drop_bridge::apply_drop_read;
use crate::drop_bridge::new_drop;
use crate::drop_bridge::spec_drop_applies;
use crate::drop_bridge::spec_new_drop;
use crate::drop_bridge::view_read;
use crate::gate::admissible;
use crate::gate::spec_admissible;
use crate::reconciler::ReconcilerState;
use crate::reconciler::WindowOp;
use crate::reconciler::reconcile;
use crate::reconciler::reconcile_next;
use crate::reconciler::reconcile_ops;
use crate::text::trimmed;

verus! {

/// Per-session state, owned by the polling loop.
#[derive(Clone, Copy, PartialEq, Eq, Structural, Debug)]
pub struct SessionState {
    /// Publish counter of the last accepted frame; zero accepts any
    /// published frame.
    pub last_seq: u32,
    /// Drop counter whose payload was last stored.
    pub last_drop_seq: u32,
    /// What was last applied to the window.
    pub rec: ReconcilerState,
    /// The host relinquished window control (detached mode).
    pub detached: bool,
    /// Tick counter, for decimating diagnostics; wraps around.
    pub tick: u32,
}

/// What one tick asks the surrounding process to do.
pub struct TickStep {
    /// Window operations to perform, in order.
    pub ops: Vec<WindowOp>,
    /// When set, a new drag payload is due: read the drag side file and
    /// hand the result to `tick_drop` under this counter value.
    pub drop_request: Option<u32>,
}

/// The tick counter after one tick; it wraps around.
pub open spec fn next_tick(t: u32) -> u32 {
    if t == u32::MAX {
        0
    } else {
        (t + 1) as u32
    }
}

/// `r` with the window back to hidden, ordinary z-order; the applied owner
/// is kept.
pub open spec fn spec_hidden_rec(r: ReconcilerState) -> ReconcilerState {
    ReconcilerState { last_owner: r.last_owner, shown: false, topmost: false }
}

/// Chrome applied on the attached-to-detached edge: control returns to the
/// user, so the window gets its native decorations, resizing and taskbar
/// presence back, stops sitting on top, and is shown as an ordinary
/// window.
pub open spec fn detach_enter_ops() -> Seq<WindowOp> {
    seq![
        WindowOp::SetAlwaysOnTop(false),
        WindowOp::SetDecorations(true),
        WindowOp::SetResizable(true),
        WindowOp::SetSkipTaskbar(false),
        WindowOp::ShowNormal,
    ]
}

/// Chrome applied on the detached-to-attached edge: host-managed visuals
/// come back (no decorations, no native resizing, no taskbar entry) and
/// the window hides until a fresh valid frame arrives.
pub open spec fn attach_enter_ops() -> Seq<WindowOp> {
    seq![
        WindowOp::SetSkipTaskbar(true),
        WindowOp::SetResizable(false),
        WindowOp::SetDecorations(false),
        WindowOp::HideNoFocus,
    ]
}

/// The publish counter that this tick's consistency check compares
/// against: on the detached-to-attached edge it resets to zero, so even a
/// sequence number the engine saw before counts as fresh.
pub open spec fn spec_gate_last(s: SessionState, detached: bool) -> u32 {
    if s.detached && !detached {
        0
    } else {
        s.last_seq
    }
}

/// The reconciler state the frame is reconciled against this tick: on the
/// detached-to-attached edge the window was just force-hidden.
pub open spec fn spec_gate_rec(s: SessionState, detached: bool) -> ReconcilerState {
    if s.detached && !detached {
        spec_hidden_rec(s.rec)
    } else {
        s.rec
    }
}

/// Whether this tick's control-block read goes on to reconciliation: the
/// session is attached, a block was readable, its header matches, and the
/// two-phase read was admissible (untorn, published, not a duplicate).
pub open spec fn spec_frame_accepted(
    s: SessionState,
    detached: bool,
    block: Option<(Frame, u32)>,
) -> bool {
    match block {
        Some((f, seq2)) => !detached && f.spec_header_ok() && spec_admissible(
            f.seq,
            seq2,
            spec_gate_last(s, detached),
        ),
        None => false,
    }
}

/// The session state after one tick (the drag side-file read, when one is
/// requested, is folded in separately by `tick_drop`).
pub open spec fn session_next(
    s: SessionState,
    detached: bool,
    block: Option<(Frame, u32)>,
) -> SessionState {
    if detached {
        SessionState {
            last_seq: s.last_seq,
            last_drop_seq: s.last_drop_seq,
            rec: if s.detached {
                s.rec
            } else {
                spec_hidden_rec(s.rec)
            },
            detached: true,
            tick: next_tick(s.tick),
        }
    } else {
        let last0 = spec_gate_last(s, detached);
        let rec0 = spec_gate_rec(s, detached);
        if spec_frame_accepted(s, detached, block) {
            SessionState {
                last_seq: block->Some_0.0.seq,
                last_drop_seq: s.last_drop_seq,
                rec: reconcile_next(rec0, block->Some_0.0),
                detached: false,
                tick: next_tick(s.tick),
            }
        } else {
            SessionState {
                last_seq: last0,
                last_drop_seq: s.last_drop_seq,
                rec: rec0,
                detached: false,
                tick: next_tick(s.tick),
            }
        }
    }
}

/// The window operations one tick performs, in order: the edge chrome, if
/// a detach edge was crossed, then reconciliation of an accepted frame.
pub open spec fn session_ops(
    s: SessionState,
    detached: bool,
    block: Option<(Frame, u32)>,
) -> Seq<WindowOp> {
    if detached {
        if s.detached {
            Seq::empty()
        } else {
            detach_enter_ops()
        }
    } else {
        let edge = if s.detached {
            attach_enter_ops()
        } else {
            Seq::empty()
        };
        if spec_frame_accepted(s, detached, block) {
            edge + reconcile_ops(spec_gate_rec(s, detached), block->Some_0.0)
        } else {
            edge
        }
    }
}

/// Whether one tick asks for the drag side file, and under which counter
/// value: only an accepted frame whose drop counter strictly increased.
pub open spec fn session_drop_request(
    s: SessionState,
    detached: bool,
    block: Option<(Frame, u32)>,
) -> Option<u32> {
    if spec_frame_accepted(s, detached, block) && spec_new_drop(
        s.last_drop_seq,
        block->Some_0.0.drop_seq,
    ) {
        Some(block->Some_0.0.drop_seq)
    } else {
        None
    }
}

/// `s` with the drop counter recorded as loaded.
pub open spec fn spec_with_drop(s: SessionState, drop_seq: u32) -> SessionState {
    SessionState {
        last_seq: s.last_seq,
        last_drop_seq: drop_seq,
        rec: s.rec,
        detached: s.detached,
        tick: s.tick,
    }
}

impl SessionState {
    /// A fresh session: nothing accepted, nothing loaded, window untouched
    /// and attached.
    pub fn new() -> (r: Self)
        ensures
            r.last_seq == 0,
            r.last_drop_seq == 0,
            r.rec.last_owner == 0,
            !r.rec.shown,
            !r.rec.topmost,
            !r.detached,
            r.tick == 0,
    {
        SessionState {
            last_seq: 0,
            last_drop_seq: 0,
            rec: ReconcilerState::new(),
            detached: false,
            tick: 0,
        }
    }

    /// Runs the decisions of one tick. `detached` is what the detach side
    /// file read; `block` is the control-block read of this tick — the
    /// decoded frame (whose own `seq` field was read before the payload
    /// fields) and the second read of the publish counter — or nothing
    /// when the mapping is shorter than a control block.
    pub fn tick_frame(&mut self, detached: bool, block: Option<(Frame, u32)>) -> (step: TickStep)
        ensures
            *final(self) == session_next(*old(self), detached, block),
            step.ops@ == session_ops(*old(self), detached, block),
            step.drop_request == session_drop_request(*old(self), detached, block),
    {
        if self.tick == u32::MAX {
            self.tick = 0;
        } else {
            self.tick = self.tick + 1;
        }
        let mut ops: Vec<WindowOp> = Vec::new();
        let mut drop_request: Option<u32> = None;
        if detached {
            if !self.detached {
                self.detached = true;
                self.rec.shown = false;
                self.rec.topmost = false;
                ops.push(WindowOp::SetAlwaysOnTop(false));
                ops.push(WindowOp::SetDecorations(true));
                ops.push(WindowOp::SetResizable(true));
                ops.push(WindowOp::SetSkipTaskbar(false));
                ops.push(WindowOp::ShowNormal);
                proof {
                    assert(ops@ =~= detach_enter_ops());
                }
            }
        } else {
            if self.detached {
                self.detached = false;
                self.rec.shown = false;
                self.rec.topmost = false;
                self.last_seq = 0;
                ops.push(WindowOp::SetSkipTaskbar(true));
                ops.push(WindowOp::SetResizable(false));
                ops.push(WindowOp::SetDecorations(false));
                ops.push(WindowOp::HideNoFocus);
                proof {
                    assert(ops@ =~= attach_enter_ops());
                }
            }
            match block {
                Some((f, seq2)) => {
                    if f.header_ok() && admissible(f.seq, seq2, self.last_seq) {
                        self.last_seq = f.seq;
                        if new_drop(self.last_drop_seq, f.drop_seq) {
                            drop_request = Some(f.drop_seq);
                        }
                        let mut rops = reconcile(&mut self.rec, &f);
                        ops.append(&mut rops);
                        proof {
                            assert(ops@ =~= session_ops(*old(self), detached, block));
                        }
                    }
                },
                None => {},
            }
        }
        TickStep { ops, drop_request }
    }

    /// Folds the drag side-file read of a requested load into the session
    /// and the shared payload store. Only a readable file with non-empty
    /// trimmed text stores the payload and records the counter; anything
    /// else changes nothing, so the same counter is retried on the next
    /// announcing frame.
    pub fn tick_drop(
        &mut self,
        store: &mut DropPayloadStore,
        drop_seq: u32,
        contents: Option<&[u8]>,
    )
        ensures
            spec_drop_applies(view_read(contents)) ==> *final(self) == spec_with_drop(
                *old(self),
                drop_seq,
            ) && final(store).last_seq == drop_seq && match contents {
                Some(c) => final(store).last_text@ == trimmed(c@),
                None => false,
            },
            !spec_drop_applies(view_read(contents)) ==> *final(self) == *old(self) && *final(store)
                == *old(store),
    {
        let advanced = apply_drop_read(store, drop_seq, contents);
        if advanced {
            self.last_drop_seq = drop_seq;
        }
    }
}

/// Torn-read rejection: when the publish counter read before the payload
/// differs from the one read after, the tick reconciles nothing — no
/// window operation, no payload load, and no state change past the tick
/// counter.
pub proof fn lemma_torn_read_rejected(s: SessionState, f: Frame, seq2: u32)
    requires
        !s.detached,
        f.seq != seq2,
    ensures
        session_ops(s, false, Some((f, seq2))) == Seq::<WindowOp>::empty(),
        session_drop_request(s, false, Some((f, seq2))) is None,
        session_next(s, false, Some((f, seq2))) == (SessionState { tick: next_tick(s.tick), ..s }),
{
}

/// Duplicate suppression: after a frame is accepted, a tick that observes
/// the same published sequence number again — however consistently — is a
/// no-op: reconciliation runs at most once per published sequence.
pub proof fn lemma_duplicate_suppressed(s: SessionState, f: Frame, seq2: u32, g: Frame, seq2g: u32)
    requires
        !s.detached,
        spec_frame_accepted(s, false, Some((f, seq2))),
        g.seq == f.seq,
    ensures
        !spec_frame_accepted(session_next(s, false, Some((f, seq2))), false, Some((g, seq2g))),
        session_ops(session_next(s, false, Some((f, seq2))), false, Some((g, seq2g)))
            == Seq::<WindowOp>::empty(),
        session_drop_request(session_next(s, false, Some((f, seq2))), false, Some((g, seq2g)))
            is None,
{
}

/// Monotonic drop dedup: a tick asks for the drag side file exactly when
/// its frame is accepted and the drop counter strictly increased past the
/// last loaded value; a counter that is zero, unchanged, or moved
/// backwards never triggers a load.
pub proof fn lemma_drop_dedup(s: SessionState, detached: bool, block: Option<(Frame, u32)>)
    ensures
        match block {
            Some((f, seq2)) => session_drop_request(s, detached, block) == if spec_frame_accepted(
                s,
                detached,
                block,
            ) && f.drop_seq > s.last_drop_seq {
                Some(f.drop_seq)
            } else {
                None::<u32>
            },
            None => session_drop_request(s, detached, block) is None,
        },
{
}

/// Detach override: while the detach signal holds, a tick performs no
/// window operation, loads no payload, and leaves everything but the tick
/// counter unchanged — however valid the control-block frame it could have
/// read.
pub proof fn lemma_detach_override(s: SessionState, block: Option<(Frame, u32)>)
    requires
        s.detached,
    ensures
        session_ops(s, true, block) == Seq::<WindowOp>::empty(),
        session_drop_request(s, true, block) is None,
        session_next(s, true, block) == (SessionState { tick: next_tick(s.tick), ..s }),
{
}

/// Return from detached mode: on the attach edge the last accepted
/// sequence resets, so the very next published, untorn frame with a good
/// header is processed even
/// when its sequence number is the one accepted before the detach; the
/// tick performs the attach chrome first, then that frame's
/// reconciliation, against a freshly hidden window.
pub proof fn lemma_attach_reaccepts(s: SessionState, f: Frame, seq2: u32)
    requires
        s.detached,
        f.spec_header_ok(),
        f.seq == seq2,
        f.seq != 0,
    ensures
        spec_frame_accepted(s, false, Some((f, seq2))),
        session_ops(s, false, Some((f, seq2))) == attach_enter_ops() + reconcile_ops(
            spec_hidden_rec(s.rec),
            f,
        ),
        session_next(s, false, Some((f, seq2))).rec == reconcile_next(spec_hidden_rec(s.rec), f),
        session_next(s, false, Some((f, seq2))).last_seq == f.seq,
{
}

/// A tick keeps the applied window state well formed: a topmost window is
/// a shown window, before and after.
pub proof fn lemma_session_preserves_wf(
    s: SessionState,
    detached: bool,
    block: Option<(Frame, u32)>,
)
    requires
        s.rec.wf(),
    ensures
        session_next(s, detached, block).rec.wf(),
{
}

} // verus!
