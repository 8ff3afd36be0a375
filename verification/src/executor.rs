//! Per-client request planning: the registry, the deferred operation queues,
//! and the request sequences that raising, moving and flushing produce.

use vstd::prelude::*;

use crate::client::Client;
use crate::client_map::{map_has_key, map_index_of_key, map_upsert, map_wf, ClientMap};
use crate::config::FrameConfig;
use crate::container::{app_lookup, has_id, registry_wf, ClientContainer};
use crate::geometry::ClientGeometry;
use crate::hints::ClientHints;
use crate::request::{
    move_resize_window_request, move_window_request, raise_window_request, spec_move_resize_window,
    spec_move_window, spec_raise_window, Request,
};

verus! {

/// Whether a raise changed anything: `NotChanged` reports that the client
/// already held input focus.
#[derive(Debug, Clone, Copy, PartialEq, Eq, Structural)]
pub enum ClientRaisedResult {
    Raised,
    NotChanged,
}

/// The requests that move a client without resizing it: reposition the
/// application window and the frame window, each in its own space.
pub open spec fn spec_move_requests(client: Client, g: ClientGeometry) -> Seq<Request> {
    let (fx, fy, _, _) = g.spec_frame();
    seq![
        spec_move_window(client.app_id, g.geometry.x, g.geometry.y),
        spec_move_window(client.frame_id, fx as i32, fy as i32),
    ]
}

/// The requests that move and resize a client: reconfigure both windows and
/// resize the frame's drawable surface to the new frame rectangle.
pub open spec fn spec_move_resize_requests(client: Client, g: ClientGeometry) -> Seq<Request> {
    let (fx, fy, fw, fh) = g.spec_frame();
    seq![
        spec_move_resize_window(client.app_id, g.geometry.x, g.geometry.y, g.geometry.width, g.geometry.height),
        spec_move_resize_window(client.frame_id, fx as i32, fy as i32, fw as u32, fh as u32),
        Request::ResizeSurface { window: client.frame_id, width: fw as u32, height: fh as u32 },
    ]
}

/// The requests a raise produces, given the client that held focus before:
/// an already-focused client is left alone; otherwise the previous client's
/// frame is restacked first, then the new client takes focus and both of its
/// windows go to the top.
pub open spec fn spec_raise_requests(prev: Option<Client>, client: Client) -> Seq<Request> {
    match prev {
        Option::Some(p) => {
            if p == client {
                Seq::<Request>::empty()
            } else {
                seq![
                    spec_raise_window(p.frame_id),
                    Request::SetInputFocus { window: client.app_id },
                    spec_raise_window(client.frame_id),
                    spec_raise_window(client.app_id),
                ]
            }
        }
        Option::None => seq![
            Request::SetInputFocus { window: client.app_id },
            spec_raise_window(client.frame_id),
            spec_raise_window(client.app_id),
        ],
    }
}

/// The requests a flush issues for the queued move/resize operations, in
/// queue order.
pub open spec fn spec_flush_move_resize(q: Seq<(Client, ClientGeometry)>) -> Seq<Request>
    decreases q.len(),
{
    if q.len() == 0 {
        Seq::<Request>::empty()
    } else {
        spec_flush_move_resize(q.drop_last()) + spec_move_resize_requests(q.last().0, q.last().1)
    }
}

/// The requests a flush issues for the queued redraws, in queue order.
pub open spec fn spec_flush_draw(q: Seq<(Client, ())>) -> Seq<Request>
    decreases q.len(),
{
    if q.len() == 0 {
        Seq::<Request>::empty()
    } else {
        spec_flush_draw(q.drop_last()) + seq![Request::DrawFrame { client: q.last().0 }]
    }
}

/// How many redraw requests a request sequence carries for this client.
pub open spec fn count_draw_requests(s: Seq<Request>, client: Client) -> int
    decreases s.len(),
{
    if s.len() == 0 {
        0
    } else {
        count_draw_requests(s.drop_last(), client) + if s.last() == (Request::DrawFrame {
            client,
        }) {
            1int
        } else {
            0int
        }
    }
}

/// Appending requests adds their draw counts.
proof fn lemma_count_draw_add(a: Seq<Request>, b: Seq<Request>, client: Client)
    ensures
        count_draw_requests(a + b, client) == count_draw_requests(a, client)
            + count_draw_requests(b, client),
    decreases b.len(),
{
    if b.len() == 0 {
        assert(a + b =~= a);
    } else {
        lemma_count_draw_add(a, b.drop_last(), client);
        assert((a + b).drop_last() =~= a + b.drop_last());
        assert((a + b).last() == b.last());
    }
}

/// The flush plan redraws each queued client exactly as often as the queue
/// holds it: once.
proof fn lemma_flush_draw_count(q: Seq<(Client, ())>, client: Client)
    ensures
        count_draw_requests(spec_flush_draw(q), client) == crate::client_map::count_key(q, client),
    decreases q.len(),
{
    if q.len() > 0 {
        lemma_flush_draw_count(q.drop_last(), client);
        let step = seq![Request::DrawFrame { client: q.last().0 }];
        lemma_count_draw_add(spec_flush_draw(q.drop_last()), step, client);
        assert(step.drop_last() =~= Seq::<Request>::empty());
        assert(count_draw_requests(Seq::<Request>::empty(), client) == 0);
        assert(step.len() == 1 && step.last() == (Request::DrawFrame { client: q.last().0 }));
        assert(count_draw_requests(step, client) == if q.last().0 == client {
            1int
        } else {
            0int
        });
    }
}

/// How many surface-resize requests a request sequence carries for this
/// frame window; each planned move/resize block holds exactly one, after its
/// configure pair.
pub open spec fn count_surface_resizes(s: Seq<Request>, frame_id: u32) -> int
    decreases s.len(),
{
    if s.len() == 0 {
        0
    } else {
        count_surface_resizes(s.drop_last(), frame_id) + if s.last() matches Request::ResizeSurface {
            window,
            ..
        } && window == frame_id {
            1int
        } else {
            0int
        }
    }
}

/// Appending requests adds their surface-resize counts.
proof fn lemma_count_surface_add(a: Seq<Request>, b: Seq<Request>, frame_id: u32)
    ensures
        count_surface_resizes(a + b, frame_id) == count_surface_resizes(a, frame_id)
            + count_surface_resizes(b, frame_id),
    decreases b.len(),
{
    if b.len() == 0 {
        assert(a + b =~= a);
    } else {
        lemma_count_surface_add(a, b.drop_last(), frame_id);
        assert((a + b).drop_last() =~= a + b.drop_last());
        assert((a + b).last() == b.last());
    }
}

/// Deferred-queue idempotence, move/resize half: one flush plans the
/// configure pair and surface resize for a queued client exactly once. The
/// second premise is the registry discipline — no two queued clients share a
/// frame window.
pub proof fn lemma_flush_resizes_once(q: Seq<(Client, ClientGeometry)>, client: Client)
    requires
        map_wf(q),
        forall|i: int|
            0 <= i < q.len() && (#[trigger] q[i]).0.frame_id == client.frame_id ==> q[i].0
                == client,
    ensures
        count_surface_resizes(spec_flush_move_resize(q), client.frame_id) == if map_has_key(
            q,
            client,
        ) {
            1int
        } else {
            0int
        },
    decreases q.len(),
{
    if q.len() > 0 {
        let prefix = q.drop_last();
        let n = q.len() - 1;
        crate::client_map::lemma_map_wf_drop_last(q);
        assert(forall|i: int|
            0 <= i < prefix.len() && (#[trigger] prefix[i]).0.frame_id == client.frame_id
                ==> prefix[i].0 == client) by {
            assert(forall|i: int| 0 <= i < prefix.len() ==> prefix[i] == q[i]);
        }
        lemma_flush_resizes_once(prefix, client);
        let block = spec_move_resize_requests(q.last().0, q.last().1);
        lemma_count_surface_add(spec_flush_move_resize(prefix), block, client.frame_id);
        assert(count_surface_resizes(block, client.frame_id) == if q.last().0.frame_id
            == client.frame_id {
            1int
        } else {
            0int
        }) by {
            let two = block.drop_last();
            let one = two.drop_last();
            let a0 = block[0];
            let a1 = block[1];
            let a2 = block[2];
            assert(block.len() == 3);
            assert(two.len() == 2 && two[0] == a0 && two[1] == a1);
            assert(one.len() == 1 && one[0] == a0);
            assert(one.drop_last() =~= Seq::<Request>::empty());
            assert(count_surface_resizes(Seq::<Request>::empty(), client.frame_id) == 0);
            assert(!(a0 matches Request::ResizeSurface { .. }));
            assert(!(a1 matches Request::ResizeSurface { .. }));
            assert(count_surface_resizes(one, client.frame_id) == 0);
            assert(count_surface_resizes(two, client.frame_id) == 0);
            assert(block.last() == a2);
            assert(a2 matches Request::ResizeSurface { window, .. } && window == q.last().0.frame_id);
        }
        if q.last().0.frame_id == client.frame_id {
            assert(q[n].0 == client);
            assert(map_has_key(q, client));
            assert(!map_has_key(prefix, client)) by {
                if map_has_key(prefix, client) {
                    let k = choose|i: int| 0 <= i < prefix.len() && (#[trigger] prefix[i]).0
                        == client;
                    assert(q[k].0 == client && q[n].0 == client);
                }
            }
        } else {
            assert(q.last().0 != client);
            assert(map_has_key(q, client) == map_has_key(prefix, client)) by {
                if map_has_key(q, client) {
                    let k = choose|i: int| 0 <= i < q.len() && (#[trigger] q[i]).0 == client;
                    assert(k != n);
                    assert(prefix[k].0 == client);
                }
                if map_has_key(prefix, client) {
                    let k = choose|i: int| 0 <= i < prefix.len() && (#[trigger] prefix[i]).0
                        == client;
                    assert(q[k].0 == client);
                }
            }
        }
    }
}

/// Deferred-queue idempotence, redraw half: one flush renders a queued
/// client's decoration exactly once, however often the client was queued —
/// queuing is an upsert, so the queue holds it in one entry.
pub proof fn lemma_flush_draws_once(q: Seq<(Client, ())>, client: Client)
    requires
        map_wf(q),
    ensures
        count_draw_requests(spec_flush_draw(q), client) == if map_has_key(q, client) {
            1int
        } else {
            0int
        },
{
    lemma_flush_draw_count(q, client);
    crate::client_map::lemma_key_count(q, client);
}

/// Registry plus deferred work, and the request planning around them.
pub struct ClientExecutor {
    frame_config: FrameConfig,
    client_container: ClientContainer,
    draw_queue: ClientMap<()>,
    move_resize_queue: ClientMap<ClientGeometry>,
    hints_cache: ClientMap<ClientHints>,
}

impl ClientExecutor {
    pub open spec fn wf(self) -> bool {
        &&& self.spec_frame_config().wf()
        &&& registry_wf(self.spec_container())
        &&& map_wf(self.spec_draw_queue())
        &&& map_wf(self.spec_move_resize_queue())
        &&& map_wf(self.spec_hints_cache())
        &&& forall|i: int|
            0 <= i < self.spec_move_resize_queue().len() ==> (
            #[trigger] self.spec_move_resize_queue()[i]).1.wf()
    }

    pub closed spec fn spec_frame_config(self) -> FrameConfig {
        self.frame_config
    }

    pub closed spec fn spec_container(self) -> Seq<Client> {
        self.client_container@
    }

    pub closed spec fn spec_move_resize_queue(self) -> Seq<(Client, ClientGeometry)> {
        self.move_resize_queue@
    }

    pub closed spec fn spec_draw_queue(self) -> Seq<(Client, ())> {
        self.draw_queue@
    }

    pub closed spec fn spec_hints_cache(self) -> Seq<(Client, ClientHints)> {
        self.hints_cache@
    }

    pub fn new(frame_config: FrameConfig) -> (r: ClientExecutor)
        requires
            frame_config.wf(),
        ensures
            r.wf(),
            r.spec_frame_config() == frame_config,
            r.spec_container() == Seq::<Client>::empty(),
            r.spec_move_resize_queue() == Seq::<(Client, ClientGeometry)>::empty(),
            r.spec_draw_queue() == Seq::<(Client, ())>::empty(),
            r.spec_hints_cache() == Seq::<(Client, ClientHints)>::empty(),
    {
        ClientExecutor {
            frame_config,
            client_container: ClientContainer::new(),
            draw_queue: ClientMap::new(),
            move_resize_queue: ClientMap::new(),
            hints_cache: ClientMap::new(),
        }
    }

    /// The registry, for lookups by the caller.
    pub fn container(&self) -> (r: &ClientContainer)
        ensures
            r@ == self.spec_container(),
    {
        &self.client_container
    }

    /// The per-session frame configuration this executor plans with.
    pub fn frame_config(&self) -> (r: FrameConfig)
        ensures
            r == self.spec_frame_config(),
    {
        self.frame_config
    }

    /// Cache freshly fetched hints for a client, overwriting older ones.
    pub fn update_hints(&mut self, client: Client, hints: ClientHints)
        requires
            old(self).wf(),
        ensures
            final(self).wf(),
            final(self).spec_hints_cache() == map_upsert(old(self).spec_hints_cache(), client, hints),
            final(self).spec_frame_config() == old(self).spec_frame_config(),
            final(self).spec_container() == old(self).spec_container(),
            final(self).spec_move_resize_queue() == old(self).spec_move_resize_queue(),
            final(self).spec_draw_queue() == old(self).spec_draw_queue(),
    {
        self.hints_cache.insert(client, hints);
    }

    /// The cached hints for a client, if any were fetched.
    pub fn query_hints(&self, client: Client) -> (r: Option<&ClientHints>)
        requires
            self.wf(),
        ensures
            r.is_some() == map_has_key(self.spec_hints_cache(), client),
            r matches Option::Some(v) ==> *v == crate::client_map::map_value_of(
                self.spec_hints_cache(),
                client,
            ),
    {
        self.hints_cache.query(client)
    }

    /// Register a newly framed client and plan the creation of its drawable
    /// surface, sized to the frame rectangle. Fails — changing nothing —
    /// exactly when one of the identifiers is already registered or the two
    /// coincide.
    pub fn add_client(&mut self, app_id: u32, frame_id: u32, client_geometry: ClientGeometry) -> (r: Option<Vec<Request>>)
        requires
            old(self).wf(),
            client_geometry.wf(),
        ensures
            final(self).wf(),
            final(self).spec_frame_config() == old(self).spec_frame_config(),
            final(self).spec_move_resize_queue() == old(self).spec_move_resize_queue(),
            final(self).spec_draw_queue() == old(self).spec_draw_queue(),
            final(self).spec_hints_cache() == old(self).spec_hints_cache(),
            ({
                let s = old(self).spec_container();
                if has_id(s, app_id) || has_id(s, frame_id) || app_id == frame_id {
                    r matches Option::None && *final(self) == *old(self)
                } else {
                    let (_, _, fw, fh) = client_geometry.spec_frame();
                    &&& final(self).spec_container() == s.push(Client { app_id, frame_id })
                    &&& r matches Option::Some(v) && v@ =~= seq![
                        Request::CreateSurface { window: frame_id, width: fw as u32, height: fh as u32 },
                    ]
                }
            }),
    {
        let added = self.client_container.add_client(app_id, frame_id);
        if added.is_none() {
            return None;
        }
        let frame_geometry = client_geometry.parse_as_frame();
        let mut requests: Vec<Request> = Vec::new();
        requests.push(Request::CreateSurface {
            window: frame_id,
            width: frame_geometry.width,
            height: frame_geometry.height,
        });
        Some(requests)
    }

    /// Forget a client entirely: registry entry, queued work and cached
    /// hints. Idempotent.
    pub fn remove_client(&mut self, client: Client)
        requires
            old(self).wf(),
        ensures
            final(self).wf(),
            final(self).spec_frame_config() == old(self).spec_frame_config(),
            !final(self).spec_container().contains(client),
            forall|c: Client| c != client ==> (final(self).spec_container().contains(c)
                <==> old(self).spec_container().contains(c)),
            !old(self).spec_container().contains(client) ==> final(self).spec_container() == old(
                self,
            ).spec_container(),
            !map_has_key(final(self).spec_move_resize_queue(), client),
            !map_has_key(final(self).spec_draw_queue(), client),
            !map_has_key(final(self).spec_hints_cache(), client),
            ({
                let q = old(self).spec_move_resize_queue();
                if map_has_key(q, client) {
                    final(self).spec_move_resize_queue() == q.remove(map_index_of_key(q, client))
                } else {
                    final(self).spec_move_resize_queue() == q
                }
            }),
            ({
                let q = old(self).spec_draw_queue();
                if map_has_key(q, client) {
                    final(self).spec_draw_queue() == q.remove(map_index_of_key(q, client))
                } else {
                    final(self).spec_draw_queue() == q
                }
            }),
    {
        self.client_container.remove_client(client);
        self.move_resize_queue.remove(client);
        self.draw_queue.remove(client);
        self.hints_cache.remove(client);
        proof {
            let q = old(self).spec_move_resize_queue();
            if map_has_key(q, client) {
                let k = map_index_of_key(q, client);
                assert forall|i: int|
                    0 <= i < self.move_resize_queue@.len() implies (
                #[trigger] self.move_resize_queue@[i]).1.wf() by {
                    if i < k {
                        assert(self.move_resize_queue@[i] == q[i]);
                    } else {
                        assert(self.move_resize_queue@[i] == q[i + 1]);
                    }
                }
            }
        }
    }

    /// The client geometry the window system reports for an application
    /// window, interpreted under this executor's frame configuration. The
    /// coordinates arrive in the protocol's 16-bit wire types.
    pub fn get_client_geometry(&self, x: i16, y: i16, width: u16, height: u16) -> (r: ClientGeometry)
        requires
            self.wf(),
        ensures
            r.geometry.x == x as int,
            r.geometry.y == y as int,
            r.geometry.width == width as int,
            r.geometry.height == height as int,
            r.frame_config == self.spec_frame_config(),
            r.wf(),
    {
        ClientGeometry::from_app(
            x as i32,
            y as i32,
            width as u32,
            height as u32,
            self.frame_config,
        )
    }

    /// Plan a raise of `client`, given the window that currently holds input
    /// focus. If `client` already holds focus nothing is emitted; otherwise
    /// the previously focused client's frame is restacked, focus moves to
    /// `client`, and its frame and application window go to the top.
    pub fn raise_client(&self, client: Client, focused_window: u32) -> (r: (ClientRaisedResult, Vec<Request>))
        requires
            self.wf(),
        ensures
            ({
                let prev = app_lookup(self.spec_container(), focused_window);
                &&& r.1@ =~= spec_raise_requests(prev, client)
                &&& r.0 == (if prev == Option::Some(client) {
                    ClientRaisedResult::NotChanged
                } else {
                    ClientRaisedResult::Raised
                })
            }),
    {
        let mut requests: Vec<Request> = Vec::new();
        if let Some(previous_client) = self.client_container.query_client_from_app(focused_window) {
            if previous_client == client {
                return (ClientRaisedResult::NotChanged, requests);
            }
            requests.push(raise_window_request(previous_client.frame_id));
        }
        requests.push(Request::SetInputFocus { window: client.app_id });
        requests.push(raise_window_request(client.frame_id));
        requests.push(raise_window_request(client.app_id));
        (ClientRaisedResult::Raised, requests)
    }

    /// Plan moving a client without resizing it: immediate, not deferred.
    fn move_with_client_geometry(&self, client: Client, client_geometry: ClientGeometry) -> (r: Vec<Request>)
        requires
            client_geometry.wf(),
        ensures
            r@ =~= spec_move_requests(client, client_geometry),
    {
        let app_geometry = client_geometry.parse_as_app();
        let frame_geometry = client_geometry.parse_as_frame();
        let mut requests: Vec<Request> = Vec::new();
        requests.push(move_window_request(client.app_id, app_geometry.x, app_geometry.y));
        requests.push(move_window_request(client.frame_id, frame_geometry.x, frame_geometry.y));
        requests
    }

    /// Plan moving and resizing a client: both windows reconfigured, the
    /// frame's drawable surface resized to the new frame rectangle.
    fn move_resize_with_client_geometry(&self, client: Client, client_geometry: ClientGeometry) -> (r: Vec<Request>)
        requires
            client_geometry.wf(),
        ensures
            r@ =~= spec_move_resize_requests(client, client_geometry),
    {
        let app_geometry = client_geometry.parse_as_app();
        let frame_geometry = client_geometry.parse_as_frame();
        let mut requests: Vec<Request> = Vec::new();
        requests.push(move_resize_window_request(
            client.app_id,
            app_geometry.x,
            app_geometry.y,
            app_geometry.width,
            app_geometry.height,
        ));
        requests.push(move_resize_window_request(
            client.frame_id,
            frame_geometry.x,
            frame_geometry.y,
            frame_geometry.width,
            frame_geometry.height,
        ));
        requests.push(Request::ResizeSurface {
            window: client.frame_id,
            width: frame_geometry.width,
            height: frame_geometry.height,
        });
        requests
    }

    /// Queue a redraw of the client's frame decoration.
    pub fn queue_draw(&mut self, client: Client)
        requires
            old(self).wf(),
        ensures
            final(self).wf(),
            final(self).spec_draw_queue() == map_upsert(old(self).spec_draw_queue(), client, ()),
            final(self).spec_frame_config() == old(self).spec_frame_config(),
            final(self).spec_container() == old(self).spec_container(),
            final(self).spec_move_resize_queue() == old(self).spec_move_resize_queue(),
            final(self).spec_hints_cache() == old(self).spec_hints_cache(),
    {
        self.draw_queue.insert(client, ());
    }

    /// Queue a deferred move/resize (overwriting any pending one for the
    /// same client) and mark the client for redraw.
    fn queue_move_resize(&mut self, client: Client, client_geometry: ClientGeometry)
        requires
            old(self).wf(),
            client_geometry.wf(),
        ensures
            final(self).wf(),
            final(self).spec_move_resize_queue() == map_upsert(
                old(self).spec_move_resize_queue(),
                client,
                client_geometry,
            ),
            final(self).spec_draw_queue() == map_upsert(old(self).spec_draw_queue(), client, ()),
            final(self).spec_frame_config() == old(self).spec_frame_config(),
            final(self).spec_container() == old(self).spec_container(),
            final(self).spec_hints_cache() == old(self).spec_hints_cache(),
    {
        self.move_resize_queue.insert(client, client_geometry);
        proof {
            let q = old(self).spec_move_resize_queue();
            let nq = self.move_resize_queue@;
            if map_has_key(q, client) {
                let k = map_index_of_key(q, client);
                assert forall|i: int| 0 <= i < nq.len() implies (#[trigger] nq[i]).1.wf() by {
                    if i != k {
                        assert(nq[i] == q[i]);
                    }
                }
            } else {
                assert forall|i: int| 0 <= i < nq.len() implies (#[trigger] nq[i]).1.wf() by {
                    if i < q.len() {
                        assert(nq[i] == q[i]);
                    }
                }
            }
        }
        self.queue_draw(client);
    }

    /// Route a new geometry for a client: a resize is deferred (and marks a
    /// redraw), a pure move is planned immediately.
    pub fn apply_geometry(&mut self, client: Client, client_geometry: ClientGeometry, can_be_resized: bool) -> (r: Vec<Request>)
        requires
            old(self).wf(),
            client_geometry.wf(),
        ensures
            final(self).wf(),
            final(self).spec_frame_config() == old(self).spec_frame_config(),
            final(self).spec_container() == old(self).spec_container(),
            final(self).spec_hints_cache() == old(self).spec_hints_cache(),
            can_be_resized ==> {
                &&& final(self).spec_move_resize_queue() == map_upsert(
                    old(self).spec_move_resize_queue(),
                    client,
                    client_geometry,
                )
                &&& final(self).spec_draw_queue() == map_upsert(
                    old(self).spec_draw_queue(),
                    client,
                    (),
                )
                &&& r@ =~= Seq::<Request>::empty()
            },
            !can_be_resized ==> {
                &&& final(self).spec_move_resize_queue() == old(self).spec_move_resize_queue()
                &&& final(self).spec_draw_queue() == old(self).spec_draw_queue()
                &&& r@ =~= spec_move_requests(client, client_geometry)
            },
    {
        if can_be_resized {
            self.queue_move_resize(client, client_geometry);
            Vec::new()
        } else {
            self.move_with_client_geometry(client, client_geometry)
        }
    }

    /// Drain the deferred work: plan every queued move/resize, in queue
    /// order, then every queued redraw — geometry must be committed before a
    /// renderer observes it — and clear both queues.
    pub fn flush_queued(&mut self) -> (r: Vec<Request>)
        requires
            old(self).wf(),
        ensures
            final(self).wf(),
            r@ =~= spec_flush_move_resize(old(self).spec_move_resize_queue()) + spec_flush_draw(
                old(self).spec_draw_queue(),
            ),
            final(self).spec_move_resize_queue() == Seq::<(Client, ClientGeometry)>::empty(),
            final(self).spec_draw_queue() == Seq::<(Client, ())>::empty(),
            final(self).spec_frame_config() == old(self).spec_frame_config(),
            final(self).spec_container() == old(self).spec_container(),
            final(self).spec_hints_cache() == old(self).spec_hints_cache(),
    {
        let mut requests: Vec<Request> = Vec::new();
        let n = self.move_resize_queue.entries().len();
        let mut i: usize = 0;
        while i < n
            invariant
                self == old(self),
                self.wf(),
                n == self.move_resize_queue@.len(),
                0 <= i <= n,
                requests@ =~= spec_flush_move_resize(self.move_resize_queue@.take(i as int)),
            decreases n - i,
        {
            let entry_client = self.move_resize_queue.entries()[i].0;
            let entry_geometry = self.move_resize_queue.entries()[i].1;
            let step = self.move_resize_with_client_geometry(entry_client, entry_geometry);
            let mut j: usize = 0;
            let m = step.len();
            while j < m
                invariant
                    m == step@.len(),
                    0 <= j <= m,
                    requests@ =~= spec_flush_move_resize(
                        self.move_resize_queue@.take(i as int),
                    ) + step@.take(j as int),
                decreases m - j,
            {
                requests.push(step[j]);
                j += 1;
            }
            proof {
                let q = self.move_resize_queue@;
                assert(step@.take(m as int) =~= step@);
                assert(q.take(i as int + 1).drop_last() =~= q.take(i as int));
                assert(q.take(i as int + 1).last() == q[i as int]);
                assert(requests@ =~= spec_flush_move_resize(q.take(i as int + 1)));
            }
            i += 1;
        }
        proof {
            let q = self.move_resize_queue@;
            assert(q.take(n as int) =~= q);
        }
        let dn = self.draw_queue.entries().len();
        let mut k: usize = 0;
        while k < dn
            invariant
                self == old(self),
                self.wf(),
                dn == self.draw_queue@.len(),
                0 <= k <= dn,
                requests@ =~= spec_flush_move_resize(self.move_resize_queue@) + spec_flush_draw(
                    self.draw_queue@.take(k as int),
                ),
            decreases dn - k,
        {
            let entry_client = self.draw_queue.entries()[k].0;
            requests.push(Request::DrawFrame { client: entry_client });
            proof {
                let q = self.draw_queue@;
                assert(q.take(k as int + 1).drop_last() =~= q.take(k as int));
                assert(q.take(k as int + 1).last() == q[k as int]);
            }
            k += 1;
        }
        proof {
            let q = self.draw_queue@;
            assert(q.take(dn as int) =~= q);
        }
        self.draw_queue.clear();
        self.move_resize_queue.clear();
        requests
    }
}

} // verus!
