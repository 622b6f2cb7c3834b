use ipc_window_sync::codec::{Frame, IPC_MAGIC, IPC_VERSION};
use ipc_window_sync::drop_bridge::{new_drop, DropPayloadStore};
use ipc_window_sync::gate::admissible;
use ipc_window_sync::reconciler::{reconcile, ReconcilerState, WindowOp};
use ipc_window_sync::session::SessionState;

fn frame(seq: u32, x: i32, y: i32, w: i32, h: i32, flags: u32, owner: i64, drop_seq: u32) -> Frame {
    Frame { magic: IPC_MAGIC, version: IPC_VERSION, seq, x, y, w, h, flags, owner, drop_seq }
}

fn shown_frame(seq: u32, flags: u32) -> Frame {
    frame(seq, 10, 20, 300, 200, flags, 0, 0)
}

#[test]
fn gate_accepts_only_fresh_untorn_nonzero() {
    assert!(admissible(5, 5, 4));
    assert!(!admissible(5, 6, 4)); // torn
    assert!(!admissible(0, 0, 4)); // never published
    assert!(!admissible(5, 5, 5)); // duplicate
    assert!(admissible(3, 3, 0)); // fresh after reset
}

#[test]
fn torn_read_is_a_no_op() {
    let mut s = SessionState::new();
    let f = shown_frame(9, 1);
    let step = s.tick_frame(false, Some((f, 8)));
    assert!(step.ops.is_empty());
    assert_eq!(step.drop_request, None);
    assert_eq!(s.last_seq, 0);
    assert!(!s.rec.shown);
}

#[test]
fn duplicate_sequence_reconciles_once() {
    let mut s = SessionState::new();
    let f = shown_frame(7, 1);
    let step1 = s.tick_frame(false, Some((f, 7)));
    assert!(!step1.ops.is_empty());
    assert!(s.rec.shown);
    let step2 = s.tick_frame(false, Some((f, 7)));
    assert!(step2.ops.is_empty());
    assert_eq!(s.last_seq, 7);
}

#[test]
fn bad_header_skips_the_tick() {
    let mut s = SessionState::new();
    let mut f = shown_frame(1, 1);
    f.magic = 0x1234_5678;
    let step = s.tick_frame(false, Some((f, 1)));
    assert!(step.ops.is_empty());
    assert_eq!(s.last_seq, 0);
    let mut g = shown_frame(1, 1);
    g.version = IPC_VERSION + 1;
    let step = s.tick_frame(false, Some((g, 1)));
    assert!(step.ops.is_empty());
}

#[test]
fn monotonic_drop_dedup_loads_only_on_increase() {
    // drop_seq observed per tick: 0, 5, 5, 7, 7, 3 — the side file is
    // loaded exactly at the 0->5 and 5->7 transitions.
    let mut s = SessionState::new();
    let mut store = DropPayloadStore::new();
    let mut loads = Vec::new();
    for (i, drop_seq) in [0u32, 5, 5, 7, 7, 3].into_iter().enumerate() {
        let f = frame(i as u32 + 1, 0, 0, 100, 100, 1, 0, drop_seq);
        let step = s.tick_frame(false, Some((f, f.seq)));
        if let Some(d) = step.drop_request {
            loads.push(d);
            s.tick_drop(&mut store, d, Some(b"payload\n"));
        }
    }
    assert_eq!(loads, vec![5, 7]);
    assert_eq!(store.last_seq, 7);
    assert_eq!(store.read(), b"payload".to_vec());
}

#[test]
fn drop_regression_does_not_reload() {
    assert!(new_drop(0, 5));
    assert!(!new_drop(5, 5));
    assert!(new_drop(5, 7));
    assert!(!new_drop(7, 3));
    assert!(!new_drop(0, 0));
}

#[test]
fn failed_drop_read_is_retried_under_same_counter() {
    let mut s = SessionState::new();
    let mut store = DropPayloadStore::new();
    let f = frame(1, 0, 0, 100, 100, 1, 0, 5);
    let step = s.tick_frame(false, Some((f, 1)));
    assert_eq!(step.drop_request, Some(5));
    // the side file was unreadable: nothing stored, counter not recorded
    s.tick_drop(&mut store, 5, None);
    assert_eq!(s.last_drop_seq, 0);
    assert_eq!(store.last_seq, 0);
    // next announcing frame asks again
    let g = frame(2, 0, 0, 100, 100, 1, 0, 5);
    let step = s.tick_frame(false, Some((g, 2)));
    assert_eq!(step.drop_request, Some(5));
    // a blank file is not a payload either
    s.tick_drop(&mut store, 5, Some(b"  \n"));
    assert_eq!(s.last_drop_seq, 0);
    // now it reads; the payload is stored trimmed
    let h = frame(3, 0, 0, 100, 100, 1, 0, 5);
    let step = s.tick_frame(false, Some((h, 3)));
    assert_eq!(step.drop_request, Some(5));
    s.tick_drop(&mut store, 5, Some(b" deeplink://x \n"));
    assert_eq!(s.last_drop_seq, 5);
    assert_eq!(store.last_seq, 5);
    assert_eq!(store.read(), b"deeplink://x".to_vec());
}

#[test]
fn payload_store_starts_empty_and_clones_out() {
    let store = DropPayloadStore::default();
    assert_eq!(store.last_seq, 0);
    assert_eq!(store.read(), Vec::<u8>::new());
    let mut store = DropPayloadStore::new();
    store.publish(9, b"text".to_vec());
    assert_eq!(store.read(), b"text".to_vec());
    assert_eq!(store.last_seq, 9);
}

#[test]
fn degenerate_rect_never_shows() {
    let mut s = SessionState::new();
    // visible=1 but w=0: must not show
    let f = frame(1, 0, 0, 0, 100, 1, 0, 0);
    let step = s.tick_frame(false, Some((f, 1)));
    assert!(!s.rec.shown);
    assert!(!step.ops.contains(&WindowOp::ShowNoActivate));
    // visible=1, 100x100: must show
    let g = frame(2, 0, 0, 100, 100, 1, 0, 0);
    let step = s.tick_frame(false, Some((g, 2)));
    assert!(s.rec.shown);
    assert!(step.ops.contains(&WindowOp::ShowNoActivate));
    // visible=0: hides again
    let h = frame(3, 0, 0, 100, 100, 0, 0, 0);
    let step = s.tick_frame(false, Some((h, 3)));
    assert!(!s.rec.shown);
    assert!(step.ops.contains(&WindowOp::HideNoFocus));
}

#[test]
fn first_show_positions_before_visibility() {
    let mut s = ReconcilerState::new();
    let f = frame(1, 40, 50, 640, 480, 1, 0, 0);
    let ops = reconcile(&mut s, &f);
    assert_eq!(
        ops,
        vec![
            WindowOp::PlaceInOrder { x: 40, y: 50, w: 640, h: 480 },
            WindowOp::ShowNoActivate,
        ]
    );
    assert!(s.shown);
}

#[test]
fn first_show_active_pins_topmost_before_visibility() {
    let mut s = ReconcilerState::new();
    let f = frame(1, 1, 2, 30, 40, 3, 0, 0);
    let ops = reconcile(&mut s, &f);
    assert_eq!(
        ops,
        vec![WindowOp::PlaceTopmost { x: 1, y: 2, w: 30, h: 40 }, WindowOp::ShowNoActivate]
    );
    assert!(s.topmost);
}

#[test]
fn active_flip_promotes_then_demotes() {
    let mut s = SessionState::new();
    // shown, inactive
    let step = s.tick_frame(false, Some((shown_frame(1, 1), 1)));
    assert!(!s.rec.topmost);
    assert!(!step.ops.contains(&WindowOp::DropTopmost));
    // active: promoted topmost
    let step = s.tick_frame(false, Some((shown_frame(2, 3), 2)));
    assert!(s.rec.topmost);
    assert_eq!(step.ops, vec![WindowOp::PlaceTopmost { x: 10, y: 20, w: 300, h: 200 }]);
    // inactive again: demoted with the z-order-only op, then re-placed
    let step = s.tick_frame(false, Some((shown_frame(3, 1), 3)));
    assert!(!s.rec.topmost);
    assert_eq!(
        step.ops,
        vec![
            WindowOp::DropTopmost,
            WindowOp::PlaceInOrder { x: 10, y: 20, w: 300, h: 200 },
        ]
    );
}

#[test]
fn hiding_a_topmost_window_demotes_first() {
    let mut s = SessionState::new();
    s.tick_frame(false, Some((shown_frame(1, 3), 1)));
    assert!(s.rec.topmost);
    let step = s.tick_frame(false, Some((shown_frame(2, 2), 2)));
    // visible bit clear: hide, but demote from topmost first
    assert_eq!(step.ops, vec![WindowOp::DropTopmost, WindowOp::HideNoFocus]);
    assert!(!s.rec.shown && !s.rec.topmost);
}

#[test]
fn owner_change_reparents_both_ways() {
    let mut s = SessionState::new();
    // hidden frame: reparent happens anyway
    let f = frame(1, 0, 0, 0, 0, 0, 12345, 0);
    let step = s.tick_frame(false, Some((f, 1)));
    assert_eq!(step.ops, vec![WindowOp::SetOwner(12345)]);
    assert!(!s.rec.shown);
    // unchanged owner: no reparent
    let g = frame(2, 0, 0, 0, 0, 0, 12345, 0);
    let step = s.tick_frame(false, Some((g, 2)));
    assert!(step.ops.is_empty());
    // back to zero: reparent again
    let h = frame(3, 0, 0, 0, 0, 0, 0, 0);
    let step = s.tick_frame(false, Some((h, 3)));
    assert_eq!(step.ops, vec![WindowOp::SetOwner(0)]);
}

#[test]
fn detach_overrides_frames_and_attach_reaccepts_seen_seq() {
    let mut s = SessionState::new();
    // a first frame shows the window
    s.tick_frame(false, Some((shown_frame(5, 1), 5)));
    assert!(s.rec.shown);
    // detach edge: user gets the window back
    let step = s.tick_frame(true, Some((shown_frame(6, 1), 6)));
    assert_eq!(
        step.ops,
        vec![
            WindowOp::SetAlwaysOnTop(false),
            WindowOp::SetDecorations(true),
            WindowOp::SetResizable(true),
            WindowOp::SetSkipTaskbar(false),
            WindowOp::ShowNormal,
        ]
    );
    // while detached, valid frames change nothing
    let step = s.tick_frame(true, Some((shown_frame(7, 1), 7)));
    assert!(step.ops.is_empty());
    assert_eq!(step.drop_request, None);
    assert_eq!(s.last_seq, 5);
    // attach edge: chrome restored, window hidden, and the already-seen
    // sequence number 5 is processed again as fresh
    let step = s.tick_frame(false, Some((shown_frame(5, 1), 5)));
    assert_eq!(
        &step.ops[..4],
        &[
            WindowOp::SetSkipTaskbar(true),
            WindowOp::SetResizable(false),
            WindowOp::SetDecorations(false),
            WindowOp::HideNoFocus,
        ]
    );
    // ... and the frame itself reconciles against a hidden window
    assert_eq!(
        &step.ops[4..],
        &[
            WindowOp::PlaceInOrder { x: 10, y: 20, w: 300, h: 200 },
            WindowOp::ShowNoActivate,
        ]
    );
    assert_eq!(s.last_seq, 5);
    assert!(s.rec.shown);
}

#[test]
fn steady_detach_state_has_no_edges() {
    let mut s = SessionState::new();
    let step = s.tick_frame(false, None);
    assert!(step.ops.is_empty());
    let step = s.tick_frame(true, None);
    assert_eq!(step.ops.len(), 5);
    let step = s.tick_frame(true, None);
    assert!(step.ops.is_empty());
    let step = s.tick_frame(false, None);
    assert_eq!(step.ops.len(), 4);
    let step = s.tick_frame(false, None);
    assert!(step.ops.is_empty());
}

#[test]
fn tick_counter_advances_and_wraps() {
    let mut s = SessionState::new();
    s.tick_frame(false, None);
    assert_eq!(s.tick, 1);
    s.tick = u32::MAX;
    s.tick_frame(false, None);
    assert_eq!(s.tick, 0);
}
