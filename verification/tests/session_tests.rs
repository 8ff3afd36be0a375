use wm_core::client::Client;
use wm_core::config::{FrameConfig, WindowManagerConfig};
use wm_core::executor::{ClientExecutor, ClientRaisedResult};
use wm_core::geometry::ClientGeometry;
use wm_core::hints::ClientHints;
use wm_core::middle::MiddleExecutor;
use wm_core::request::Request;
use wm_core::visual::{CairoSession, DepthVisuals, XCBVisualType, FRAME_DEPTH, TRUE_COLOR_CLASS};

fn frame_config() -> FrameConfig {
    FrameConfig { border_width: 4, titlebar_height: 20, corner_radius: 6 }
}

fn visual(id: u32, class: u8) -> XCBVisualType {
    XCBVisualType {
        visual_id: id,
        class,
        bits_per_rgb_visual_type: 8,
        colormap_entries: 256,
        red_mask: 0x00FF0000,
        green_mask: 0x0000FF00,
        blue_mask: 0x000000FF,
    }
}

#[test]
fn default_config_matches_session_defaults() {
    let config = WindowManagerConfig::default();
    assert_eq!(
        config.frame_config,
        FrameConfig { border_width: 18, titlebar_height: 20, corner_radius: 24 }
    );
}

#[test]
fn session_picks_first_true_color_visual_at_frame_depth() {
    let depths = vec![
        DepthVisuals { depth: 24, visuals: vec![visual(1, TRUE_COLOR_CLASS)] },
        DepthVisuals { depth: 32, visuals: vec![visual(2, 0), visual(77, TRUE_COLOR_CLASS), visual(78, TRUE_COLOR_CLASS)] },
    ];
    let session = CairoSession::create(&depths).unwrap();
    assert_eq!(session.depth(), FRAME_DEPTH);
    assert_eq!(session.visual_type().visual_id, 77);
}

#[test]
fn session_creation_fails_without_true_color_visual() {
    let depths = vec![
        DepthVisuals { depth: 24, visuals: vec![visual(1, TRUE_COLOR_CLASS)] },
        DepthVisuals { depth: 32, visuals: vec![visual(2, 0)] },
    ];
    assert!(CairoSession::create(&depths).is_none());
    assert!(CairoSession::create(&vec![]).is_none());
}

#[test]
fn execute_grabbed_brackets_the_sequence() {
    let middle = MiddleExecutor::new();
    let bracketed = middle.execute_grabbed(vec![Request::MapWindow { window: 1 }]);
    assert_eq!(
        bracketed,
        vec![
            Request::GrabServer,
            Request::MapWindow { window: 1 },
            Request::UngrabServer,
        ]
    );
    assert_eq!(
        middle.execute_grabbed(vec![]),
        vec![Request::GrabServer, Request::UngrabServer]
    );
}

#[test]
fn executor_registers_and_raises() {
    let mut executor = ClientExecutor::new(frame_config());
    let geometry = ClientGeometry::from_app(0, 0, 100, 100, frame_config());

    let surface = executor.add_client(10, 20, geometry).unwrap();
    assert_eq!(
        surface,
        vec![Request::CreateSurface { window: 20, width: 108, height: 128 }]
    );
    // A second registration of either identifier fails and changes nothing.
    assert!(executor.add_client(10, 30, geometry).is_none());
    assert!(executor.add_client(30, 20, geometry).is_none());

    let client = Client { app_id: 10, frame_id: 20 };
    let (raised, requests) = executor.raise_client(client, 10);
    assert_eq!(raised, ClientRaisedResult::NotChanged);
    assert_eq!(requests, vec![]);

    let (raised, requests) = executor.raise_client(client, 0);
    assert_eq!(raised, ClientRaisedResult::Raised);
    assert_eq!(requests.len(), 3);
    assert_eq!(requests[0], Request::SetInputFocus { window: 10 });

    executor.remove_client(client);
    assert_eq!(executor.container().query_client_from_app(10), None);
}

#[test]
fn executor_caches_hints() {
    let mut executor = ClientExecutor::new(frame_config());
    let client = Client { app_id: 10, frame_id: 20 };
    assert_eq!(ClientHints::default().title, "");
    assert!(executor.query_hints(client).is_none());
    executor.update_hints(client, ClientHints { title: String::from("terminal") });
    assert_eq!(executor.query_hints(client).unwrap().title, "terminal");
    executor.update_hints(client, ClientHints { title: String::from("editor") });
    assert_eq!(executor.query_hints(client).unwrap().title, "editor");
}

#[test]
fn apply_geometry_routes_by_resize() {
    let mut executor = ClientExecutor::new(frame_config());
    let client = Client { app_id: 10, frame_id: 20 };
    let geometry = ClientGeometry::from_app(8, 9, 100, 100, frame_config());

    // A pure move is planned immediately.
    let requests = executor.apply_geometry(client, geometry, false);
    assert_eq!(requests.len(), 2);
    assert_eq!(executor.flush_queued(), vec![]);

    // A resize is deferred until the flush.
    let requests = executor.apply_geometry(client, geometry, true);
    assert_eq!(requests, vec![]);
    let flushed = executor.flush_queued();
    assert_eq!(flushed.len(), 4);
    assert_eq!(
        flushed[3],
        Request::DrawFrame { client }
    );
}
