//! The lifecycle of a staging buffer: unmapped, map requested, mapped (the
//! host may read), unmapped again. At most one map is in flight, and a
//! requested map is never cancelled: it ends mapped, denied or with the
//! device lost.
use vstd::prelude::*;
use crate::error::PipelineError;
use crate::readback::ReadbackLayout;

verus! {

/// Where a staging buffer is in its lifecycle.
#[derive(Clone, Copy, Debug, PartialEq, Eq, Structural)]
pub enum MapState {
    Unmapped,
    MapPending,
    Mapped,
}

/// What happens to a staging buffer.
#[derive(Clone, Copy, Debug, PartialEq, Eq, Structural)]
pub enum MapEvent {
    /// The host asks for a read map.
    RequestMap,
    /// The pending map completed.
    MapSucceeded,
    /// The pending map was denied.
    MapDenied,
    /// The device was lost while the map was pending.
    DeviceLost,
    /// The host is done reading.
    Unmap,
}

/// The lifecycle step on `e`: the new state and whether the event was
/// accepted. An event the state does not allow changes nothing and is
/// refused as a map failure: a second request while one is pending, an
/// unmap of a pending map, a completion with no map pending.
pub open spec fn map_transition(s: MapState, e: MapEvent) -> (MapState, Result<(), PipelineError>) {
    match (s, e) {
        (MapState::Unmapped, MapEvent::RequestMap) => (MapState::MapPending, Ok(())),
        (MapState::MapPending, MapEvent::MapSucceeded) => (MapState::Mapped, Ok(())),
        (MapState::MapPending, MapEvent::MapDenied) => (MapState::Unmapped, Err(PipelineError::MapFailure)),
        (MapState::MapPending, MapEvent::DeviceLost) => (MapState::Unmapped, Err(PipelineError::DeviceLost)),
        (MapState::Mapped, MapEvent::Unmap) => (MapState::Unmapped, Ok(())),
        _ => (s, Err(PipelineError::MapFailure)),
    }
}

/// A host-visible buffer sized to the padded layout of one target.
pub struct StagingBuffer {
    layout: ReadbackLayout,
    state: MapState,
}

impl StagingBuffer {
    pub closed spec fn spec_layout(&self) -> ReadbackLayout {
        self.layout
    }

    pub closed spec fn spec_state(&self) -> MapState {
        self.state
    }

    /// An unmapped buffer for `layout`.
    pub fn new(layout: ReadbackLayout) -> (r: StagingBuffer)
        ensures
            r.spec_layout() == layout,
            r.spec_state() == MapState::Unmapped,
    {
        StagingBuffer { layout, state: MapState::Unmapped }
    }

    pub fn layout(&self) -> (r: ReadbackLayout)
        ensures
            r == self.spec_layout(),
    {
        self.layout
    }

    pub fn state(&self) -> (r: MapState)
        ensures
            r == self.spec_state(),
    {
        self.state
    }

    /// Whether the host may read the buffer now.
    pub fn is_readable(&self) -> (r: bool)
        ensures
            r == (self.spec_state() == MapState::Mapped),
    {
        self.state == MapState::Mapped
    }

    /// Applies `event` to the lifecycle.
    pub fn apply(&mut self, event: MapEvent) -> (r: Result<(), PipelineError>)
        ensures
            (final(self).spec_state(), r) == map_transition(old(self).spec_state(), event),
            final(self).spec_layout() == old(self).spec_layout(),
    {
        match (self.state, event) {
            (MapState::Unmapped, MapEvent::RequestMap) => {
                self.state = MapState::MapPending;
                Ok(())
            },
            (MapState::MapPending, MapEvent::MapSucceeded) => {
                self.state = MapState::Mapped;
                Ok(())
            },
            (MapState::MapPending, MapEvent::MapDenied) => {
                self.state = MapState::Unmapped;
                Err(PipelineError::MapFailure)
            },
            (MapState::MapPending, MapEvent::DeviceLost) => {
                self.state = MapState::Unmapped;
                Err(PipelineError::DeviceLost)
            },
            (MapState::Mapped, MapEvent::Unmap) => {
                self.state = MapState::Unmapped;
                Ok(())
            },
            _ => Err(PipelineError::MapFailure),
        }
    }
}

/// A requested map ends either mapped, after a success, or unmapped again,
/// after a denial or a lost device; only a pending map can complete and
/// only a mapped buffer can be unmapped; a pending map can be neither
/// requested twice nor cancelled.
pub proof fn lemma_map_lifecycle(s: MapState)
    ensures
        map_transition(MapState::Unmapped, MapEvent::RequestMap) == (MapState::MapPending, Ok::<(), PipelineError>(())),
        map_transition(MapState::MapPending, MapEvent::MapSucceeded) == (MapState::Mapped, Ok::<(), PipelineError>(())),
        map_transition(MapState::MapPending, MapEvent::MapDenied).0 == MapState::Unmapped,
        map_transition(MapState::MapPending, MapEvent::DeviceLost).0 == MapState::Unmapped,
        map_transition(MapState::MapPending, MapEvent::RequestMap) == (MapState::MapPending, Err::<(), PipelineError>(
            PipelineError::MapFailure)),
        map_transition(MapState::MapPending, MapEvent::Unmap) == (MapState::MapPending, Err::<(), PipelineError>(
            PipelineError::MapFailure)),
        map_transition(s, MapEvent::MapSucceeded).1 is Ok ==> s == MapState::MapPending,
        map_transition(s, MapEvent::Unmap).1 is Ok ==> s == MapState::Mapped,
{
}

} // verus!
