//! The drag state machine: whether, and how, a client is currently being
//! moved or resized by pointer input.
//!
//! There is one logical pointer, so one drag state exists per reconciler.
//! The machine has three states: idle, dragging (button held on a frame),
//! and dragged (button released, detail retained until the next drag starts
//! so callers may still ask what was just dragged).

use vstd::prelude::*;

use crate::client::Client;
use crate::geometry::GeometryControl;

verus! {

/// What a drag in progress is doing: the client it moves, the operation the
/// initial hit-test selected, and the root position the pointer was last
/// seen at.
#[derive(Debug, Clone, Copy)]
pub struct DragDetail {
    pub client: Client,
    pub geometry_control: GeometryControl,
    pub last_root_position: (i32, i32),
}

impl DragDetail {
    pub fn last_root_position(&self) -> (r: (i32, i32))
        ensures
            r == self.last_root_position,
    {
        self.last_root_position
    }

    pub fn geometry_control(&self) -> (r: GeometryControl)
        ensures
            r == self.geometry_control,
    {
        self.geometry_control
    }
}

/// The drag state: `Idle` between drags, `Dragging` while the button is
/// held, `Dragged` once it is released (the detail of the finished drag is
/// kept until a new drag begins).
#[derive(Debug, Clone, Copy)]
pub enum DragState {
    Dragging(DragDetail),
    Dragged(DragDetail),
    Idle,
}

impl DragState {
    /// Begin a drag: a button press on a managed frame supersedes whatever
    /// state was held before.
    pub fn new_as_dragging(client: Client, geometry_control: GeometryControl, last_root_position: (i32, i32)) -> (r: DragState)
        ensures
            r == DragState::Dragging(DragDetail { client, geometry_control, last_root_position }),
    {
        DragState::Dragging(DragDetail { client, geometry_control, last_root_position })
    }

    /// Record the pointer's new root position while dragging; in any other
    /// state the call changes nothing.
    pub fn change_root_position(&mut self, new_root_position: (i32, i32))
        ensures
            ({
                match *old(self) {
                    DragState::Dragging(d) => *final(self) == DragState::Dragging(DragDetail {
                        client: d.client,
                        geometry_control: d.geometry_control,
                        last_root_position: new_root_position,
                    }),
                    _ => *final(self) == *old(self),
                }
            }),
    {
        if let DragState::Dragging(drag_detail) = self {
            *self = DragState::Dragging(DragDetail {
                client: drag_detail.client,
                geometry_control: drag_detail.geometry_control,
                last_root_position: new_root_position,
            });
        }
    }

    /// End a drag: a button release turns `Dragging` into `Dragged`, keeping
    /// the detail unchanged; any other state is unaffected.
    pub fn release_from_dragging(&mut self)
        ensures
            ({
                match *old(self) {
                    DragState::Dragging(d) => *final(self) == DragState::Dragged(d),
                    _ => *final(self) == *old(self),
                }
            }),
    {
        if let DragState::Dragging(drag_detail) = self {
            *self = DragState::Dragged(*drag_detail);
        }
    }

    /// The detail of the drag in progress, provided it is dragging exactly
    /// this client; motion addressed to any other client is not part of the
    /// drag.
    pub fn parse_with_check_dragging(&self, client: Client) -> (r: Option<DragDetail>)
        ensures
            ({
                match *self {
                    DragState::Dragging(d) => r == if d.client == client {
                        Option::Some(d)
                    } else {
                        Option::<DragDetail>::None
                    },
                    _ => r == Option::<DragDetail>::None,
                }
            }),
    {
        if let DragState::Dragging(drag_detail) = self {
            if drag_detail.client == client {
                return Some(*drag_detail);
            }
        }
        None
    }
}

} // verus!
