use pm_ui::{Acquisition, CanvasEvent, CanvasPhase, GCanvas, NativeOp, ScreenMetrics};

const PROTOCOLS: u64 = 301;
const DELETE: u64 = 302;

fn built() -> GCanvas {
    let mut acq = Acquisition::begin(Some(":7".to_string()));
    while acq.next_step().is_some() {
        acq = match acq.record(true) {
            Ok(a) => a,
            Err(_) => panic!("a successful step failed"),
        };
    }
    let screen = ScreenMetrics { width: 1920, height: 1080, black_pixel: 0, white_pixel: 0xffffff };
    GCanvas::new(acq, screen)
}

fn opened() -> GCanvas {
    let mut c = built();
    c.open(PROTOCOLS, DELETE);
    c
}

#[test]
fn new_canvas_is_hidden_and_knows_its_screen() {
    let c = built();
    assert_eq!(c.display_id(), ":7");
    assert_eq!(c.phase(), CanvasPhase::Created);
    assert!(!c.is_mapped());
    let st = c.state();
    assert_eq!((st.screen_width, st.screen_height), (1920, 1080));
    assert_eq!(st.wm_protocols, None);
    assert_eq!(st.wm_delete_window, None);
    let root = c.root();
    assert_eq!((root.rect.x, root.rect.y), (0, 0));
    assert_eq!((root.rect.width, root.rect.height), (1920, 1080));
    assert_eq!(root.rect.c4, (1920, 1080));
    assert!(root.children.is_empty());
}

#[test]
fn open_registers_close_protocol_and_shows() {
    let mut c = built();
    let ops = c.open(PROTOCOLS, DELETE);
    assert_eq!(
        ops,
        vec![
            NativeOp::SetBackground(0),
            NativeOp::SetForeground(0xffffff),
            NativeOp::Flush,
            NativeOp::MapWindow,
            NativeOp::Flush,
            NativeOp::SetWmProtocols(DELETE),
        ]
    );
    assert_eq!(c.phase(), CanvasPhase::Open);
    assert!(c.is_mapped());
    assert_eq!(c.state().wm_protocols, Some(PROTOCOLS));
    assert_eq!(c.state().wm_delete_window, Some(DELETE));
}

#[test]
fn show_twice_stays_mapped() {
    let mut c = opened();
    assert_eq!(c.show(), vec![NativeOp::MapWindow, NativeOp::Flush]);
    assert_eq!(c.show(), vec![NativeOp::MapWindow, NativeOp::Flush]);
    assert!(c.is_mapped());
}

#[test]
fn hide_then_show_maps_again() {
    let mut c = opened();
    assert_eq!(c.hide_window(), vec![NativeOp::UnmapWindow, NativeOp::Flush]);
    assert!(!c.is_mapped());
    c.show();
    assert!(c.is_mapped());
    assert_eq!(c.phase(), CanvasPhase::Open);
}

#[test]
fn close_request_ends_the_loop() {
    let mut c = opened();
    let events = vec![
        CanvasEvent::Other { kind: 12 },
        CanvasEvent::ClientMessage { message_type: PROTOCOLS, format: 32, first_word: DELETE },
        CanvasEvent::Other { kind: 2 },
    ];
    let teardown = vec![
        NativeOp::UnmapWindow,
        NativeOp::Flush,
        NativeOp::DestroyRenderContext,
        NativeOp::FreeGraphicsContext,
        NativeOp::CloseDisplay,
    ];
    assert_eq!(c.run(&events), Some((1, teardown)));
    assert_eq!(c.phase(), CanvasPhase::Closed);
    assert!(!c.is_mapped());
}

#[test]
fn other_client_messages_keep_the_loop_running() {
    let mut c = opened();
    let events = vec![
        CanvasEvent::ClientMessage { message_type: PROTOCOLS, format: 32, first_word: 999 },
        CanvasEvent::ClientMessage { message_type: PROTOCOLS, format: 8, first_word: DELETE },
        CanvasEvent::ClientMessage { message_type: 77, format: 32, first_word: DELETE },
        CanvasEvent::Other { kind: 33 },
    ];
    assert_eq!(c.run(&events), None);
    assert_eq!(c.phase(), CanvasPhase::Open);
    assert!(c.run(&Vec::new()).is_none());
}

#[test]
fn single_close_request_is_recognised() {
    let c = opened();
    let ev = CanvasEvent::ClientMessage { message_type: PROTOCOLS, format: 32, first_word: DELETE };
    assert!(c.is_close_request(&ev));
    assert!(!built().is_close_request(&ev));
}

#[test]
fn close_tears_down_in_order() {
    let mut c = opened();
    assert_eq!(
        c.close(),
        vec![
            NativeOp::UnmapWindow,
            NativeOp::Flush,
            NativeOp::DestroyRenderContext,
            NativeOp::FreeGraphicsContext,
            NativeOp::CloseDisplay,
        ]
    );
    assert_eq!(c.phase(), CanvasPhase::Closed);
    assert!(!c.is_mapped());
}

#[test]
fn close_request_first_in_batch_tears_down_at_once() {
    let mut c = opened();
    let events = vec![
        CanvasEvent::ClientMessage { message_type: PROTOCOLS, format: 32, first_word: DELETE },
        CanvasEvent::ClientMessage { message_type: PROTOCOLS, format: 32, first_word: DELETE },
    ];
    match c.run(&events) {
        Some((0, ops)) => assert_eq!(ops.last(), Some(&NativeOp::CloseDisplay)),
        other => panic!("unexpected result {:?}", other),
    }
    assert_eq!(c.phase(), CanvasPhase::Closed);
}

#[test]
fn title_is_stored_then_flushed() {
    let c = built();
    assert_eq!(
        c.set_title("Hello, world!"),
        vec![NativeOp::StoreName("Hello, world!".to_string()), NativeOp::Flush]
    );
    assert_eq!(c.flush(), vec![NativeOp::Flush]);
}

#[test]
fn text_is_drawn_at_its_position() {
    let c = opened();
    assert_eq!(
        c.add_text("Hello, world!", 10, 10),
        vec![
            NativeOp::ClearFramebuffer,
            NativeOp::DrawString { text: "Hello, world!".to_string(), x: 10, y: 10 },
            NativeOp::Flush,
        ]
    );
}
