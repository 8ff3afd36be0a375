use wm_core::client::Client;
use wm_core::config::FrameConfig;
use wm_core::drag::DragState;
use wm_core::geometry::{Geometry, GeometryControl, HorizontalResize, VerticalResize};
use wm_core::handler::Handler;
use wm_core::request::Request;

fn frame_config() -> FrameConfig {
    FrameConfig { border_width: 4, titlebar_height: 20, corner_radius: 6 }
}

fn handler_with_client() -> Handler {
    let mut handler = Handler::new(frame_config());
    let requests = handler.handle_map_request(10, 20, 0, 0, 100, 100);
    assert_eq!(requests.len(), 5);
    handler
}

#[test]
fn map_request_frames_the_window() {
    let mut handler = Handler::new(frame_config());
    let requests = handler.handle_map_request(10, 20, 0, 0, 100, 100);
    assert_eq!(
        requests,
        vec![
            Request::CreateWindow {
                window: 20,
                geometry: Geometry { x: -4, y: -24, width: 108, height: 128 },
            },
            Request::ConfigureWindow {
                window: 10,
                x: Some(0),
                y: Some(0),
                width: Some(100),
                height: Some(100),
                border_width: None,
                sibling: None,
                stack_above: true,
            },
            Request::MapWindow { window: 20 },
            Request::MapWindow { window: 10 },
            Request::CreateSurface { window: 20, width: 108, height: 128 },
        ]
    );
    let client = Client { app_id: 10, frame_id: 20 };
    assert_eq!(handler.executor().container().query_client_from_app(10), Some(client));
    assert_eq!(handler.executor().container().query_client_from_frame(20), Some(client));
}

#[test]
fn unmap_notify_destroys_frame_and_forgets_client() {
    let mut handler = handler_with_client();
    // Queue some deferred work so the removal has queues to clean.
    handler.handle_expose(20);

    let requests = handler.handle_unmap_notify(10);
    assert_eq!(requests, vec![Request::DestroyWindow { window: 20 }]);
    assert_eq!(handler.executor().container().query_client_from_app(10), None);
    assert_eq!(handler.executor().container().query_client_from_frame(20), None);
    // No dangling queue entries: a flush has nothing left to plan.
    assert_eq!(handler.flush_queued(), vec![]);
}

#[test]
fn unmap_notify_for_unmanaged_window_is_ignored() {
    let mut handler = handler_with_client();
    let requests = handler.handle_unmap_notify(99);
    assert_eq!(requests, vec![]);
    assert!(handler.executor().container().query_client_from_app(10).is_some());
}

#[test]
fn button_press_raises_and_starts_drag() {
    let mut handler = handler_with_client();
    let requests = handler.handle_button_press(20, 50, 60, 100, 100, 0, 0, 0, 100, 100);
    // No window held focus, so only the incoming client is raised.
    assert_eq!(
        requests,
        vec![
            Request::SetInputFocus { window: 10 },
            Request::ConfigureWindow {
                window: 20,
                x: None,
                y: None,
                width: None,
                height: None,
                border_width: None,
                sibling: None,
                stack_above: true,
            },
            Request::ConfigureWindow {
                window: 10,
                x: None,
                y: None,
                width: None,
                height: None,
                border_width: None,
                sibling: None,
                stack_above: true,
            },
        ]
    );
    match handler.drag_state() {
        DragState::Dragging(detail) => {
            assert_eq!(detail.client, Client { app_id: 10, frame_id: 20 });
            assert_eq!(detail.geometry_control(), GeometryControl::Move);
            assert_eq!(detail.last_root_position(), (100, 100));
        }
        _ => panic!("expected a drag in progress"),
    }
}

#[test]
fn button_press_on_unmanaged_window_is_ignored() {
    let mut handler = handler_with_client();
    let requests = handler.handle_button_press(99, 1, 1, 5, 5, 0, 0, 0, 100, 100);
    assert_eq!(requests, vec![]);
    assert!(matches!(handler.drag_state(), DragState::Idle));
}

#[test]
fn button_release_keeps_drag_detail() {
    let mut handler = handler_with_client();
    handler.handle_button_press(20, 50, 60, 100, 100, 0, 0, 0, 100, 100);
    handler.handle_button_release();
    match handler.drag_state() {
        DragState::Dragged(detail) => {
            assert_eq!(detail.client, Client { app_id: 10, frame_id: 20 });
            assert_eq!(detail.geometry_control(), GeometryControl::Move);
            assert_eq!(detail.last_root_position(), (100, 100));
        }
        _ => panic!("expected a finished drag"),
    }
    // A release outside a drag changes nothing.
    handler.handle_button_release();
    assert!(matches!(handler.drag_state(), DragState::Dragged(_)));
}

#[test]
fn motion_moves_the_dragged_client_immediately() {
    let mut handler = handler_with_client();
    handler.handle_button_press(20, 50, 60, 100, 100, 0, 0, 0, 100, 100);

    let requests = handler.handle_motion_notify(20, 110, 105, 0, 0, 100, 100);
    assert_eq!(
        requests,
        vec![
            Request::ConfigureWindow {
                window: 10,
                x: Some(10),
                y: Some(5),
                width: None,
                height: None,
                border_width: None,
                sibling: None,
                stack_above: false,
            },
            Request::ConfigureWindow {
                window: 20,
                x: Some(6),
                y: Some(-19),
                width: None,
                height: None,
                border_width: None,
                sibling: None,
                stack_above: false,
            },
        ]
    );
    match handler.drag_state() {
        DragState::Dragging(detail) => {
            assert_eq!(detail.last_root_position(), (110, 105));
        }
        _ => panic!("expected the drag to continue"),
    }
}

#[test]
fn motion_for_another_client_is_ignored() {
    let mut handler = handler_with_client();
    let second = handler.handle_map_request(30, 40, 0, 0, 50, 50);
    assert_eq!(second.len(), 5);
    handler.handle_button_press(20, 50, 60, 100, 100, 0, 0, 0, 100, 100);

    // Motion addressed to the other client's frame: no geometry change, no
    // state mutation.
    let requests = handler.handle_motion_notify(40, 300, 300, 0, 0, 50, 50);
    assert_eq!(requests, vec![]);
    match handler.drag_state() {
        DragState::Dragging(detail) => {
            assert_eq!(detail.client, Client { app_id: 10, frame_id: 20 });
            assert_eq!(detail.last_root_position(), (100, 100));
        }
        _ => panic!("expected the drag to survive unrelated motion"),
    }
    assert_eq!(handler.motion_target(40), None);
    assert_eq!(handler.motion_target(20), Some(Client { app_id: 10, frame_id: 20 }));
}

#[test]
fn resize_motion_is_deferred_to_the_queue() {
    let mut handler = handler_with_client();
    // Press one pixel inside the top-left corner: a two-axis resize.
    handler.handle_button_press(20, 1, 1, 100, 100, 0, 0, 0, 100, 100);
    match handler.drag_state() {
        DragState::Dragging(detail) => assert_eq!(
            detail.geometry_control(),
            GeometryControl::Resize(VerticalResize::Top, HorizontalResize::Left)
        ),
        _ => panic!("expected a drag in progress"),
    }

    let requests = handler.handle_motion_notify(20, 105, 110, 0, 0, 100, 100);
    assert_eq!(requests, vec![]);

    // The flush commits the geometry (both windows and the surface) before
    // the redraw.
    let flushed = handler.flush_queued();
    assert_eq!(
        flushed,
        vec![
            Request::ConfigureWindow {
                window: 10,
                x: Some(5),
                y: Some(10),
                width: Some(95),
                height: Some(90),
                border_width: None,
                sibling: None,
                stack_above: false,
            },
            Request::ConfigureWindow {
                window: 20,
                x: Some(1),
                y: Some(-14),
                width: Some(103),
                height: Some(118),
                border_width: None,
                sibling: None,
                stack_above: false,
            },
            Request::ResizeSurface { window: 20, width: 103, height: 118 },
            Request::DrawFrame { client: Client { app_id: 10, frame_id: 20 } },
        ]
    );
    // The queues are cleared by the flush.
    assert_eq!(handler.flush_queued(), vec![]);
}

#[test]
fn queued_move_resize_applies_only_the_latest_geometry() {
    let mut handler = handler_with_client();
    // Two resizing configure requests for the same client before a flush.
    let first = handler.handle_configure_request(10, 5, 6, 50, 60, 0, 0x000F);
    assert_eq!(first.len(), 1);
    let second = handler.handle_configure_request(10, 5, 6, 70, 80, 0, 0x000F);
    assert_eq!(second.len(), 1);

    let flushed = handler.flush_queued();
    // Exactly one configure pair, one surface resize and one redraw, all at
    // the latest geometry.
    assert_eq!(
        flushed,
        vec![
            Request::ConfigureWindow {
                window: 10,
                x: Some(5),
                y: Some(6),
                width: Some(70),
                height: Some(80),
                border_width: None,
                sibling: None,
                stack_above: false,
            },
            Request::ConfigureWindow {
                window: 20,
                x: Some(1),
                y: Some(-18),
                width: Some(78),
                height: Some(108),
                border_width: None,
                sibling: None,
                stack_above: false,
            },
            Request::ResizeSurface { window: 20, width: 78, height: 108 },
            Request::DrawFrame { client: Client { app_id: 10, frame_id: 20 } },
        ]
    );
}

#[test]
fn configure_request_passes_through_with_stacking_stripped() {
    let mut handler = handler_with_client();
    // An unmanaged window: only the pass-through request, with the border
    // forced to zero and only the masked fields present.
    let requests = handler.handle_configure_request(99, 1, 2, 3, 4, 7, 0x0021);
    assert_eq!(
        requests,
        vec![Request::ConfigureWindow {
            window: 99,
            x: Some(1),
            y: None,
            width: None,
            height: None,
            border_width: Some(0),
            sibling: Some(7),
            stack_above: false,
        }]
    );
}

#[test]
fn configure_request_moves_managed_window_immediately() {
    let mut handler = handler_with_client();
    // A pure move (no width/height in the mask) is applied immediately.
    let requests = handler.handle_configure_request(10, 30, 40, 100, 100, 0, 0x0003);
    assert_eq!(
        requests,
        vec![
            Request::ConfigureWindow {
                window: 10,
                x: Some(30),
                y: Some(40),
                width: None,
                height: None,
                border_width: Some(0),
                sibling: None,
                stack_above: false,
            },
            Request::ConfigureWindow {
                window: 10,
                x: Some(30),
                y: Some(40),
                width: None,
                height: None,
                border_width: None,
                sibling: None,
                stack_above: false,
            },
            Request::ConfigureWindow {
                window: 20,
                x: Some(26),
                y: Some(16),
                width: None,
                height: None,
                border_width: None,
                sibling: None,
                stack_above: false,
            },
        ]
    );
    assert_eq!(handler.flush_queued(), vec![]);
}

#[test]
fn expose_queues_one_redraw() {
    let mut handler = handler_with_client();
    handler.handle_expose(20);
    handler.handle_expose(20);
    let flushed = handler.flush_queued();
    assert_eq!(
        flushed,
        vec![Request::DrawFrame { client: Client { app_id: 10, frame_id: 20 } }]
    );
    // An expose on an unmanaged window queues nothing.
    handler.handle_expose(99);
    assert_eq!(handler.flush_queued(), vec![]);
}

#[test]
fn map_notify_raises_the_client() {
    let mut handler = handler_with_client();
    let second = handler.handle_map_request(30, 40, 0, 0, 50, 50);
    assert_eq!(second.len(), 5);

    // The other client holds focus: its frame is restacked first, then the
    // incoming client takes focus and the top of the stack.
    let requests = handler.handle_map_notify(10, 30);
    assert_eq!(
        requests,
        vec![
            Request::ConfigureWindow {
                window: 40,
                x: None,
                y: None,
                width: None,
                height: None,
                border_width: None,
                sibling: None,
                stack_above: true,
            },
            Request::SetInputFocus { window: 10 },
            Request::ConfigureWindow {
                window: 20,
                x: None,
                y: None,
                width: None,
                height: None,
                border_width: None,
                sibling: None,
                stack_above: true,
            },
            Request::ConfigureWindow {
                window: 10,
                x: None,
                y: None,
                width: None,
                height: None,
                border_width: None,
                sibling: None,
                stack_above: true,
            },
        ]
    );

    // Raising the client that already holds focus is a no-op.
    let requests = handler.handle_map_notify(10, 10);
    assert_eq!(requests, vec![]);

    // A notify for an unmanaged window is ignored.
    let requests = handler.handle_map_notify(99, 10);
    assert_eq!(requests, vec![]);
}

#[test]
fn duplicate_map_request_is_ignored() {
    let mut handler = handler_with_client();
    let requests = handler.handle_map_request(10, 50, 0, 0, 100, 100);
    assert_eq!(requests, vec![]);
    assert_eq!(handler.executor().container().query_client_from_frame(50), None);
}
