use wm_core::config::FrameConfig;
use wm_core::geometry::{ClientGeometry, Geometry, GeometryControl, HorizontalResize, VerticalResize};

fn frame_config() -> FrameConfig {
    FrameConfig { border_width: 4, titlebar_height: 20, corner_radius: 6 }
}

#[test]
fn test_client_geometry() {
    let frame_config = frame_config();
    let client_geom = ClientGeometry::from_app(0, 0, 100, 100, frame_config);

    assert_eq!(
        client_geom.parse_as_frame(),
        Geometry { x: -4, y: -24, width: 108, height: 128 }
    );

    assert_eq!(
        client_geom.move_relative(10, 10),
        ClientGeometry::from_app(10, 10, 100, 100, frame_config)
    );

    let client_geom = ClientGeometry::from_frame(0, 0, 100, 100, frame_config);

    assert_eq!(
        client_geom.parse_as_app(),
        Geometry { x: 4, y: 24, width: 92, height: 72 }
    );

    assert_eq!(
        client_geom.move_relative(10, 10),
        ClientGeometry::from_frame(10, 10, 100, 100, frame_config)
    );
}

#[test]
fn test_control() {
    let frame_config = frame_config();
    let client_geom = ClientGeometry::from_app(0, 0, 100, 100, frame_config);

    // top left
    {
        // on border
        assert_eq!(
            client_geom.check_control_by_position_on_frame(1, 1),
            GeometryControl::Resize(VerticalResize::Top, HorizontalResize::Left)
        );

        // on corner radius
        assert_eq!(
            client_geom.check_control_by_position_on_frame(5, 5),
            GeometryControl::Resize(VerticalResize::Top, HorizontalResize::Left)
        );

        // outside of corner radius
        assert_eq!(
            client_geom.check_control_by_position_on_frame(9, 9),
            GeometryControl::Move
        );

        // on border but only vertical
        assert_eq!(
            client_geom.check_control_by_position_on_frame(9, 1),
            GeometryControl::Resize(VerticalResize::Top, HorizontalResize::NoEdge)
        );

        // on border but only horizontal
        assert_eq!(
            client_geom.check_control_by_position_on_frame(1, 9),
            GeometryControl::Resize(VerticalResize::NoEdge, HorizontalResize::Left)
        );
    }
    // top right
    {
        // on border
        assert_eq!(
            client_geom.check_control_by_position_on_frame(107, 1),
            GeometryControl::Resize(VerticalResize::Top, HorizontalResize::Right)
        );

        // on corner radius
        assert_eq!(
            client_geom.check_control_by_position_on_frame(103, 5),
            GeometryControl::Resize(VerticalResize::Top, HorizontalResize::Right)
        );

        // outside of corner radius
        assert_eq!(
            client_geom.check_control_by_position_on_frame(99, 9),
            GeometryControl::Move
        );

        // on border but only vertical
        assert_eq!(
            client_geom.check_control_by_position_on_frame(99, 1),
            GeometryControl::Resize(VerticalResize::Top, HorizontalResize::NoEdge)
        );

        // on border but only horizontal
        assert_eq!(
            client_geom.check_control_by_position_on_frame(107, 9),
            GeometryControl::Resize(VerticalResize::NoEdge, HorizontalResize::Right)
        );
    }

    // bottom left
    {
        // on border
        assert_eq!(
            client_geom.check_control_by_position_on_frame(1, 127),
            GeometryControl::Resize(VerticalResize::Bottom, HorizontalResize::Left)
        );

        // on corner radius
        assert_eq!(
            client_geom.check_control_by_position_on_frame(5, 123),
            GeometryControl::Resize(VerticalResize::Bottom, HorizontalResize::Left)
        );

        // outside of corner radius
        assert_eq!(
            client_geom.check_control_by_position_on_frame(9, 119),
            GeometryControl::Move
        );

        // on border but only vertical
        assert_eq!(
            client_geom.check_control_by_position_on_frame(9, 127),
            GeometryControl::Resize(VerticalResize::Bottom, HorizontalResize::NoEdge)
        );

        // on border but only horizontal
        assert_eq!(
            client_geom.check_control_by_position_on_frame(1, 119),
            GeometryControl::Resize(VerticalResize::NoEdge, HorizontalResize::Left)
        );
    }

    // bottom right
    {
        // on border
        assert_eq!(
            client_geom.check_control_by_position_on_frame(107, 127),
            GeometryControl::Resize(VerticalResize::Bottom, HorizontalResize::Right)
        );

        // on corner radius
        assert_eq!(
            client_geom.check_control_by_position_on_frame(103, 123),
            GeometryControl::Resize(VerticalResize::Bottom, HorizontalResize::Right)
        );

        // outside of corner radius
        assert_eq!(
            client_geom.check_control_by_position_on_frame(99, 119),
            GeometryControl::Move
        );

        // on border but only vertical
        assert_eq!(
            client_geom.check_control_by_position_on_frame(99, 127),
            GeometryControl::Resize(VerticalResize::Bottom, HorizontalResize::NoEdge)
        );

        // on border but only horizontal
        assert_eq!(
            client_geom.check_control_by_position_on_frame(107, 119),
            GeometryControl::Resize(VerticalResize::NoEdge, HorizontalResize::Right)
        );
    }
}

#[test]
fn round_trip_recovers_app_geometry() {
    let frame_config = frame_config();
    let geometries = [(0, 0, 100, 100), (-50, 75, 9, 45), (300, -200, 640, 480)];
    for (x, y, w, h) in geometries {
        let g = ClientGeometry::from_app(x, y, w, h, frame_config);
        let frame = g.parse_as_frame();
        let back = ClientGeometry::from_frame(frame.x, frame.y, frame.width, frame.height, frame_config);
        assert_eq!(back.parse_as_app(), Geometry { x, y, width: w, height: h });
    }
}

#[test]
fn move_resize_adjusts_only_selected_edges() {
    let frame_config = frame_config();
    let g = ClientGeometry::from_app(10, 20, 100, 200, frame_config);

    let moved = g.move_resize_on_control(3, -7, GeometryControl::Move);
    assert_eq!(moved.parse_as_app(), Geometry { x: 13, y: 13, width: 100, height: 200 });

    let top_left = g.move_resize_on_control(
        5,
        5,
        GeometryControl::Resize(VerticalResize::Top, HorizontalResize::Left),
    );
    assert_eq!(top_left.parse_as_app(), Geometry { x: 15, y: 25, width: 95, height: 195 });

    let bottom_right = g.move_resize_on_control(
        5,
        5,
        GeometryControl::Resize(VerticalResize::Bottom, HorizontalResize::Right),
    );
    assert_eq!(bottom_right.parse_as_app(), Geometry { x: 10, y: 20, width: 105, height: 205 });

    let vertical_only = g.move_resize_on_control(
        5,
        5,
        GeometryControl::Resize(VerticalResize::Bottom, HorizontalResize::NoEdge),
    );
    assert_eq!(vertical_only.parse_as_app(), Geometry { x: 10, y: 20, width: 100, height: 205 });
}

#[test]
fn degenerate_rectangle_still_converts() {
    // A zero-sized application rectangle carries only its decoration.
    let frame_config = frame_config();
    let g = ClientGeometry::from_app(0, 0, 0, 0, frame_config);
    assert_eq!(g.parse_as_frame(), Geometry { x: -4, y: -24, width: 8, height: 28 });
}

#[test]
fn resize_clamps_at_the_size_limit() {
    // The largest height the core accepts cannot be grown further.
    let frame_config = frame_config();
    let g = ClientGeometry::from_app(0, 0, 100, 0x0100_0000, frame_config);
    let grown = g.move_resize_on_control(
        0,
        100,
        GeometryControl::Resize(VerticalResize::Bottom, HorizontalResize::NoEdge),
    );
    assert_eq!(grown.parse_as_app(), Geometry { x: 0, y: 0, width: 100, height: 0x0100_0000 });
}

#[test]
fn resize_clamps_at_minimum_size() {
    let frame_config = frame_config();
    let g = ClientGeometry::from_app(10, 20, 100, 200, frame_config);

    // Dragging the top edge down past the bottom edge would drive the height
    // negative; the height is clamped to one pixel and the bottom edge stays.
    let squashed = g.move_resize_on_control(
        0,
        500,
        GeometryControl::Resize(VerticalResize::Top, HorizontalResize::NoEdge),
    );
    assert_eq!(squashed.parse_as_app(), Geometry { x: 10, y: 219, width: 100, height: 1 });

    let squashed = g.move_resize_on_control(
        -300,
        0,
        GeometryControl::Resize(VerticalResize::NoEdge, HorizontalResize::Right),
    );
    assert_eq!(squashed.parse_as_app(), Geometry { x: 10, y: 20, width: 1, height: 200 });
}
