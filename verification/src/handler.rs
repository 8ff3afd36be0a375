//! The event reconciler: consumes inbound protocol events (as plain values,
//! enriched by the caller with the query replies each event needs) and emits
//! the outbound requests that keep the managed windows consistent.
//!
//! Pointer coordinates and window rectangles arrive in the protocol's 16-bit
//! wire types, which keeps every geometry computation inside the core's
//! bounds.

use vstd::prelude::*;

use crate::client::Client;
use crate::client_map::map_upsert;
use crate::config::FrameConfig;
use crate::container::{app_lookup, frame_lookup, has_id};
use crate::drag::{DragDetail, DragState};
use crate::executor::{
    spec_flush_draw, spec_flush_move_resize, spec_move_requests, spec_raise_requests,
    ClientExecutor,
};
use crate::geometry::{ClientGeometry, Geometry};
use crate::request::Request;

verus! {

/// Value-mask bit of a configure request that carries an `x` coordinate.
pub const CONFIG_MASK_X: u16 = 0x0001;

/// Value-mask bit for `y`.
pub const CONFIG_MASK_Y: u16 = 0x0002;

/// Value-mask bit for `width`.
pub const CONFIG_MASK_WIDTH: u16 = 0x0004;

/// Value-mask bit for `height`.
pub const CONFIG_MASK_HEIGHT: u16 = 0x0008;

/// Value-mask bit for a stacking sibling.
pub const CONFIG_MASK_SIBLING: u16 = 0x0020;

/// The pass-through reconfiguration for a window: the requested fields are
/// forwarded as the mask presents them, the border is forced to zero, and
/// any stacking-mode request is stripped — the manager owns stacking.
pub open spec fn spec_passthrough_configure(window: u32, x: i16, y: i16, width: u16, height: u16, sibling: u32, value_mask: u16) -> Request {
    Request::ConfigureWindow {
        window,
        x: if value_mask & CONFIG_MASK_X != 0 {
            Option::Some(x as i32)
        } else {
            Option::None
        },
        y: if value_mask & CONFIG_MASK_Y != 0 {
            Option::Some(y as i32)
        } else {
            Option::None
        },
        width: if value_mask & CONFIG_MASK_WIDTH != 0 {
            Option::Some(width as u32)
        } else {
            Option::None
        },
        height: if value_mask & CONFIG_MASK_HEIGHT != 0 {
            Option::Some(height as u32)
        } else {
            Option::None
        },
        border_width: Option::Some(0u32),
        sibling: if value_mask & CONFIG_MASK_SIBLING != 0 {
            Option::Some(sibling)
        } else {
            Option::None
        },
        stack_above: false,
    }
}

/// The requests that frame and map a new client: create the frame window
/// over the frame rectangle, configure the application window to its
/// application rectangle on top of the stack, map both (frame first), and
/// create the frame's drawable surface.
pub open spec fn spec_map_request_requests(window: u32, frame: u32, g: ClientGeometry) -> Seq<Request> {
    let (fx, fy, fw, fh) = g.spec_frame();
    seq![
        Request::CreateWindow {
            window: frame,
            geometry: Geometry { x: fx as i32, y: fy as i32, width: fw as u32, height: fh as u32 },
        },
        Request::ConfigureWindow {
            window,
            x: Option::Some(g.geometry.x),
            y: Option::Some(g.geometry.y),
            width: Option::Some(g.geometry.width),
            height: Option::Some(g.geometry.height),
            border_width: Option::None,
            sibling: Option::None,
            stack_above: true,
        },
        Request::MapWindow { window: frame },
        Request::MapWindow { window },
        Request::CreateSurface { window: frame, width: fw as u32, height: fh as u32 },
    ]
}

/// A root-relative pointer position recorded from a 16-bit wire coordinate.
pub open spec fn drag_position_bounded(s: DragState) -> bool {
    match s {
        DragState::Dragging(d) => {
            &&& -32768 <= d.last_root_position.0 <= 32767
            &&& -32768 <= d.last_root_position.1 <= 32767
        }
        DragState::Dragged(d) => {
            &&& -32768 <= d.last_root_position.0 <= 32767
            &&& -32768 <= d.last_root_position.1 <= 32767
        }
        DragState::Idle => true,
    }
}

/// The event reconciler: the drag state plus the per-client planner, driven
/// by one inbound event at a time.
pub struct Handler {
    drag_state: DragState,
    client_exec: ClientExecutor,
}

impl Handler {
    pub open spec fn wf(self) -> bool {
        &&& self.spec_executor().wf()
        &&& drag_position_bounded(self.spec_drag_state())
    }

    pub closed spec fn spec_drag_state(self) -> DragState {
        self.drag_state
    }

    pub closed spec fn spec_executor(self) -> ClientExecutor {
        self.client_exec
    }

    /// The registry entries, for stating what events do to them.
    pub open spec fn spec_container(self) -> Seq<Client> {
        self.spec_executor().spec_container()
    }

    pub fn new(frame_config: FrameConfig) -> (r: Handler)
        requires
            frame_config.wf(),
        ensures
            r.wf(),
            r.spec_drag_state() == DragState::Idle,
            r.spec_executor().spec_frame_config() == frame_config,
            r.spec_container() == Seq::<Client>::empty(),
            r.spec_executor().spec_move_resize_queue() == Seq::<(Client, ClientGeometry)>::empty(),
            r.spec_executor().spec_draw_queue() == Seq::<(Client, ())>::empty(),
    {
        Handler { drag_state: DragState::Idle, client_exec: ClientExecutor::new(frame_config) }
    }

    /// The current drag state, for callers that ask what was just dragged.
    pub fn drag_state(&self) -> (r: DragState)
        ensures
            r == self.spec_drag_state(),
    {
        self.drag_state
    }

    /// The per-client planner, for registry lookups by the caller.
    pub fn executor(&self) -> (r: &ClientExecutor)
        ensures
            *r == self.spec_executor(),
    {
        &self.client_exec
    }

    /// An exposed frame queues a redraw of its decoration; an expose on any
    /// unmanaged window changes nothing.
    pub fn handle_expose(&mut self, window: u32)
        requires
            old(self).wf(),
        ensures
            final(self).wf(),
            final(self).spec_drag_state() == old(self).spec_drag_state(),
            ({
                let e0 = old(self).spec_executor();
                let e1 = final(self).spec_executor();
                match frame_lookup(e0.spec_container(), window) {
                    Option::Some(client) => {
                        &&& e1.spec_draw_queue() == map_upsert(e0.spec_draw_queue(), client, ())
                        &&& e1.spec_container() == e0.spec_container()
                        &&& e1.spec_move_resize_queue() == e0.spec_move_resize_queue()
                        &&& e1.spec_hints_cache() == e0.spec_hints_cache()
                        &&& e1.spec_frame_config() == e0.spec_frame_config()
                    }
                    Option::None => *final(self) == *old(self),
                }
            }),
    {
        let client = match self.client_exec.container().query_client_from_frame(window) {
            Some(client) => client,
            None => {
                return ;
            }
        };
        self.client_exec.queue_draw(client);
    }

    /// A button press on a managed frame raises its client and starts a
    /// drag: the press position (frame-local) is hit-tested against the
    /// client's current geometry — supplied by the caller from the window
    /// system's reply, in wire coordinates — and the press's root position
    /// becomes the drag's reference point. A press on an unmanaged window
    /// changes nothing.
    pub fn handle_button_press(&mut self, window: u32, event_x: i16, event_y: i16, root_x: i16, root_y: i16, focused_window: u32, app_x: i16, app_y: i16, app_width: u16, app_height: u16) -> (r: Vec<Request>)
        requires
            old(self).wf(),
        ensures
            final(self).wf(),
            final(self).spec_executor() == old(self).spec_executor(),
            ({
                let e0 = old(self).spec_executor();
                match frame_lookup(e0.spec_container(), window) {
                    Option::Some(client) => {
                        let g = ClientGeometry {
                            geometry: Geometry {
                                x: app_x as i32,
                                y: app_y as i32,
                                width: app_width as u32,
                                height: app_height as u32,
                            },
                            frame_config: e0.spec_frame_config(),
                        };
                        &&& final(self).spec_drag_state() == DragState::Dragging(DragDetail {
                            client,
                            geometry_control: g.control_at(event_x as int, event_y as int),
                            last_root_position: (root_x as i32, root_y as i32),
                        })
                        &&& r@ =~= spec_raise_requests(
                            app_lookup(e0.spec_container(), focused_window),
                            client,
                        )
                    }
                    Option::None => {
                        &&& final(self).spec_drag_state() == old(self).spec_drag_state()
                        &&& r@ =~= Seq::<Request>::empty()
                    }
                }
            }),
    {
        let client = match self.client_exec.container().query_client_from_frame(window) {
            Some(client) => client,
            None => {
                return Vec::new();
            }
        };

        let (_raised, requests) = self.client_exec.raise_client(client, focused_window);

        let geometry_control = self
            .client_exec
            .get_client_geometry(app_x, app_y, app_width, app_height)
            .check_control_by_position_on_frame(event_x as i32, event_y as i32);

        let last_root_position = (root_x as i32, root_y as i32);
        self.drag_state = DragState::new_as_dragging(client, geometry_control, last_root_position);
        requests
    }

    /// A button release ends the drag: `Dragging` becomes `Dragged` with the
    /// detail preserved; any other state is unaffected.
    pub fn handle_button_release(&mut self)
        requires
            old(self).wf(),
        ensures
            final(self).wf(),
            final(self).spec_executor() == old(self).spec_executor(),
            ({
                match old(self).spec_drag_state() {
                    DragState::Dragging(d) => final(self).spec_drag_state() == DragState::Dragged(
                        d,
                    ),
                    _ => final(self).spec_drag_state() == old(self).spec_drag_state(),
                }
            }),
    {
        self.drag_state.release_from_dragging();
    }

    /// The client a motion event advances: the event's window must be a
    /// managed frame and the drag must currently hold exactly that client.
    pub open spec fn spec_motion_target(self, window: u32) -> Option<Client> {
        match frame_lookup(self.spec_executor().spec_container(), window) {
            Option::Some(client) => match self.spec_drag_state() {
                DragState::Dragging(d) => if d.client == client {
                    Option::Some(client)
                } else {
                    Option::<Client>::None
                },
                _ => Option::<Client>::None,
            },
            Option::None => Option::<Client>::None,
        }
    }

    /// Whether a motion event on this window would advance the drag; lets
    /// the caller skip fetching geometry for motion it would ignore.
    pub fn motion_target(&self, window: u32) -> (r: Option<Client>)
        requires
            self.wf(),
        ensures
            r == self.spec_motion_target(window),
    {
        let client = match self.client_exec.container().query_client_from_frame(window) {
            Some(client) => client,
            None => {
                return None;
            }
        };
        match self.drag_state.parse_with_check_dragging(client) {
            Some(_) => Some(client),
            None => None,
        }
    }

    /// Pointer motion on the dragged frame advances the drag: the delta from
    /// the last recorded root position is applied to the client's current
    /// geometry (supplied by the caller in wire coordinates) under the
    /// drag's control. A resize is deferred to the queue; a pure move is
    /// planned immediately. Motion for any other window or client changes
    /// nothing.
    pub fn handle_motion_notify(&mut self, window: u32, root_x: i16, root_y: i16, app_x: i16, app_y: i16, app_width: u16, app_height: u16) -> (r: Vec<Request>)
        requires
            old(self).wf(),
        ensures
            final(self).wf(),
            ({
                match old(self).spec_motion_target(window) {
                    Option::None => *final(self) == *old(self) && r@ =~= Seq::<Request>::empty(),
                    Option::Some(client) => {
                        let e0 = old(self).spec_executor();
                        let e1 = final(self).spec_executor();
                        let d = old(self).spec_drag_state()->Dragging_0;
                        let g0 = ClientGeometry {
                            geometry: Geometry {
                                x: app_x as i32,
                                y: app_y as i32,
                                width: app_width as u32,
                                height: app_height as u32,
                            },
                            frame_config: e0.spec_frame_config(),
                        };
                        let dx = root_x - d.last_root_position.0;
                        let dy = root_y - d.last_root_position.1;
                        let (nx, ny, nw, nh) = g0.spec_move_resize(dx, dy, d.geometry_control);
                        let g1 = ClientGeometry {
                            geometry: Geometry {
                                x: nx as i32,
                                y: ny as i32,
                                width: nw as u32,
                                height: nh as u32,
                            },
                            frame_config: e0.spec_frame_config(),
                        };
                        &&& final(self).spec_drag_state() == DragState::Dragging(DragDetail {
                            client: d.client,
                            geometry_control: d.geometry_control,
                            last_root_position: (root_x as i32, root_y as i32),
                        })
                        &&& e1.spec_container() == e0.spec_container()
                        &&& e1.spec_hints_cache() == e0.spec_hints_cache()
                        &&& e1.spec_frame_config() == e0.spec_frame_config()
                        &&& if d.geometry_control.spec_is_resize() {
                            &&& e1.spec_move_resize_queue() == map_upsert(
                                e0.spec_move_resize_queue(),
                                client,
                                g1,
                            )
                            &&& e1.spec_draw_queue() == map_upsert(e0.spec_draw_queue(), client, ())
                            &&& r@ =~= Seq::<Request>::empty()
                        } else {
                            &&& e1.spec_move_resize_queue() == e0.spec_move_resize_queue()
                            &&& e1.spec_draw_queue() == e0.spec_draw_queue()
                            &&& r@ =~= spec_move_requests(client, g1)
                        }
                    }
                }
            }),
    {
        let client = match self.client_exec.container().query_client_from_frame(window) {
            Some(client) => client,
            None => {
                return Vec::new();
            }
        };

        let drag_detail = match self.drag_state.parse_with_check_dragging(client) {
            Some(drag_detail) => drag_detail,
            None => {
                return Vec::new();
            }
        };

        let root_position = (root_x as i32, root_y as i32);
        let last = drag_detail.last_root_position();
        let diff_x = root_x as i32 - last.0;
        let diff_y = root_y as i32 - last.1;

        let client_geometry = self
            .client_exec
            .get_client_geometry(app_x, app_y, app_width, app_height)
            .move_resize_on_control(diff_x, diff_y, drag_detail.geometry_control());

        let can_be_resized = drag_detail.geometry_control().is_resize();
        let requests = self.client_exec.apply_geometry(client, client_geometry, can_be_resized);

        self.drag_state.change_root_position(root_position);
        requests
    }

    /// A configure request is passed through (stripped of stacking, border
    /// forced to zero); if the window is a managed application window, the
    /// proposed rectangle is additionally routed through the deferred queue
    /// when it resizes, or moved immediately when it only moves.
    pub fn handle_configure_request(&mut self, window: u32, x: i16, y: i16, width: u16, height: u16, sibling: u32, value_mask: u16) -> (r: Vec<Request>)
        requires
            old(self).wf(),
        ensures
            final(self).wf(),
            final(self).spec_drag_state() == old(self).spec_drag_state(),
            ({
                let e0 = old(self).spec_executor();
                let e1 = final(self).spec_executor();
                let passthrough = spec_passthrough_configure(window, x, y, width, height, sibling, value_mask);
                let resized = value_mask & CONFIG_MASK_WIDTH != 0 || value_mask & CONFIG_MASK_HEIGHT != 0;
                let g = ClientGeometry {
                    geometry: Geometry {
                        x: x as i32,
                        y: y as i32,
                        width: width as u32,
                        height: height as u32,
                    },
                    frame_config: e0.spec_frame_config(),
                };
                &&& e1.spec_container() == e0.spec_container()
                &&& e1.spec_hints_cache() == e0.spec_hints_cache()
                &&& e1.spec_frame_config() == e0.spec_frame_config()
                &&& match app_lookup(e0.spec_container(), window) {
                    Option::Some(client) => {
                        if resized {
                            &&& e1.spec_move_resize_queue() == map_upsert(
                                e0.spec_move_resize_queue(),
                                client,
                                g,
                            )
                            &&& e1.spec_draw_queue() == map_upsert(e0.spec_draw_queue(), client, ())
                            &&& r@ =~= seq![passthrough]
                        } else {
                            &&& e1.spec_move_resize_queue() == e0.spec_move_resize_queue()
                            &&& e1.spec_draw_queue() == e0.spec_draw_queue()
                            &&& r@ =~= seq![passthrough] + spec_move_requests(client, g)
                        }
                    }
                    Option::None => {
                        &&& e1.spec_move_resize_queue() == e0.spec_move_resize_queue()
                        &&& e1.spec_draw_queue() == e0.spec_draw_queue()
                        &&& r@ =~= seq![passthrough]
                    }
                }
            }),
    {
        let mut requests: Vec<Request> = Vec::new();
        requests.push(Request::ConfigureWindow {
            window,
            x: if value_mask & CONFIG_MASK_X != 0 {
                Some(x as i32)
            } else {
                None
            },
            y: if value_mask & CONFIG_MASK_Y != 0 {
                Some(y as i32)
            } else {
                None
            },
            width: if value_mask & CONFIG_MASK_WIDTH != 0 {
                Some(width as u32)
            } else {
                None
            },
            height: if value_mask & CONFIG_MASK_HEIGHT != 0 {
                Some(height as u32)
            } else {
                None
            },
            border_width: Some(0u32),
            sibling: if value_mask & CONFIG_MASK_SIBLING != 0 {
                Some(sibling)
            } else {
                None
            },
            stack_above: false,
        });

        if let Some(client) = self.client_exec.container().query_client_from_app(window) {
            let client_geometry = self.client_exec.get_client_geometry(x, y, width, height);
            let resized = value_mask & CONFIG_MASK_WIDTH != 0 || value_mask & CONFIG_MASK_HEIGHT
                != 0;
            let mut more = self.client_exec.apply_geometry(client, client_geometry, resized);
            let m = more.len();
            let mut j: usize = 0;
            while j < m
                invariant
                    m == more@.len(),
                    0 <= j <= m,
                    requests@ =~= seq![
                        spec_passthrough_configure(window, x, y, width, height, sibling, value_mask),
                    ] + more@.take(j as int),
                decreases m - j,
            {
                requests.push(more[j]);
                j += 1;
            }
            proof {
                assert(more@.take(m as int) =~= more@);
            }
        }
        requests
    }

    /// A map request frames and maps the window: its current geometry (as
    /// the caller fetched it, in wire coordinates) becomes the client's
    /// application rectangle, a frame window is created over the inflated
    /// frame rectangle, both windows are mapped and the pair is registered.
    /// If either identifier is somehow already registered, the event is
    /// ignored.
    pub fn handle_map_request(&mut self, window: u32, frame: u32, x: i16, y: i16, width: u16, height: u16) -> (r: Vec<Request>)
        requires
            old(self).wf(),
        ensures
            final(self).wf(),
            final(self).spec_drag_state() == old(self).spec_drag_state(),
            ({
                let e0 = old(self).spec_executor();
                let e1 = final(self).spec_executor();
                let s = e0.spec_container();
                let g = ClientGeometry {
                    geometry: Geometry {
                        x: x as i32,
                        y: y as i32,
                        width: width as u32,
                        height: height as u32,
                    },
                    frame_config: e0.spec_frame_config(),
                };
                if has_id(s, window) || has_id(s, frame) || window == frame {
                    *final(self) == *old(self) && r@ =~= Seq::<Request>::empty()
                } else {
                    &&& e1.spec_container() == s.push(Client { app_id: window, frame_id: frame })
                    &&& e1.spec_move_resize_queue() == e0.spec_move_resize_queue()
                    &&& e1.spec_draw_queue() == e0.spec_draw_queue()
                    &&& e1.spec_hints_cache() == e0.spec_hints_cache()
                    &&& e1.spec_frame_config() == e0.spec_frame_config()
                    &&& r@ =~= spec_map_request_requests(window, frame, g)
                }
            }),
    {
        let client_geometry = self.client_exec.get_client_geometry(x, y, width, height);
        let frame_geometry = client_geometry.parse_as_frame();
        let app_geometry = client_geometry.parse_as_app();

        let surface_requests = match self.client_exec.add_client(window, frame, client_geometry) {
            Some(surface_requests) => surface_requests,
            None => {
                return Vec::new();
            }
        };

        let mut requests: Vec<Request> = Vec::new();
        requests.push(Request::CreateWindow { window: frame, geometry: frame_geometry });
        requests.push(Request::ConfigureWindow {
            window,
            x: Some(app_geometry.x),
            y: Some(app_geometry.y),
            width: Some(app_geometry.width),
            height: Some(app_geometry.height),
            border_width: None,
            sibling: None,
            stack_above: true,
        });
        requests.push(Request::MapWindow { window: frame });
        requests.push(Request::MapWindow { window });
        requests.push(surface_requests[0]);
        requests
    }

    /// A managed application window becoming mapped raises its client: focus
    /// moves to it and its windows go to the top. A notify for an unmanaged
    /// window changes nothing.
    pub fn handle_map_notify(&mut self, window: u32, focused_window: u32) -> (r: Vec<Request>)
        requires
            old(self).wf(),
        ensures
            final(self).wf(),
            *final(self) == *old(self),
            ({
                let s = old(self).spec_executor().spec_container();
                match app_lookup(s, window) {
                    Option::Some(client) => r@ =~= spec_raise_requests(
                        app_lookup(s, focused_window),
                        client,
                    ),
                    Option::None => r@ =~= Seq::<Request>::empty(),
                }
            }),
    {
        let client = match self.client_exec.container().query_client_from_app(window) {
            Some(client) => client,
            None => {
                return Vec::new();
            }
        };
        let (_raised, requests) = self.client_exec.raise_client(client, focused_window);
        requests
    }

    /// A managed application window becoming unmapped destroys its frame and
    /// forgets the client: registry entry, queued work and cached hints all
    /// go. A notify for an unmanaged window changes nothing.
    pub fn handle_unmap_notify(&mut self, window: u32) -> (r: Vec<Request>)
        requires
            old(self).wf(),
        ensures
            final(self).wf(),
            final(self).spec_drag_state() == old(self).spec_drag_state(),
            ({
                let e0 = old(self).spec_executor();
                let e1 = final(self).spec_executor();
                match app_lookup(e0.spec_container(), window) {
                    Option::Some(client) => {
                        &&& r@ =~= seq![Request::DestroyWindow { window: client.frame_id }]
                        &&& !e1.spec_container().contains(client)
                        &&& forall|c: Client|
                            c != client ==> (e1.spec_container().contains(c)
                                <==> e0.spec_container().contains(c))
                        &&& !crate::client_map::map_has_key(e1.spec_move_resize_queue(), client)
                        &&& !crate::client_map::map_has_key(e1.spec_draw_queue(), client)
                        &&& !crate::client_map::map_has_key(e1.spec_hints_cache(), client)
                        &&& e1.spec_frame_config() == e0.spec_frame_config()
                    }
                    Option::None => *final(self) == *old(self) && r@ =~= Seq::<Request>::empty(),
                }
            }),
    {
        let client = match self.client_exec.container().query_client_from_app(window) {
            Some(client) => client,
            None => {
                return Vec::new();
            }
        };

        let mut requests: Vec<Request> = Vec::new();
        requests.push(Request::DestroyWindow { window: client.frame_id });
        self.client_exec.remove_client(client);
        requests
    }

    /// Drain the deferred queues: every queued move/resize is planned, in
    /// queue order, before every queued redraw, and both queues are cleared.
    pub fn flush_queued(&mut self) -> (r: Vec<Request>)
        requires
            old(self).wf(),
        ensures
            final(self).wf(),
            final(self).spec_drag_state() == old(self).spec_drag_state(),
            r@ =~= spec_flush_move_resize(old(self).spec_executor().spec_move_resize_queue())
                + spec_flush_draw(old(self).spec_executor().spec_draw_queue()),
            final(self).spec_executor().spec_move_resize_queue() == Seq::<(Client, ClientGeometry)>::empty(),
            final(self).spec_executor().spec_draw_queue() == Seq::<(Client, ())>::empty(),
            final(self).spec_executor().spec_container() == old(self).spec_executor().spec_container(),
            final(self).spec_executor().spec_hints_cache() == old(self).spec_executor().spec_hints_cache(),
            final(self).spec_executor().spec_frame_config() == old(self).spec_executor().spec_frame_config(),
    {
        self.client_exec.flush_queued()
    }
}

/// Drag isolation law: while one client is being dragged, a motion event on
/// any other managed frame is not a motion target, so (by the contract of
/// `handle_motion_notify`) it changes neither geometry nor state.
pub proof fn lemma_motion_other_client_ignored(h: Handler, window: u32)
    requires
        h.wf(),
        ({
            &&& h.spec_drag_state() matches DragState::Dragging(d)
            &&& frame_lookup(h.spec_executor().spec_container(), window) matches Option::Some(c)
            &&& c != d.client
        }),
    ensures
        h.spec_motion_target(window) == Option::<Client>::None,
{
}

} // verus!
