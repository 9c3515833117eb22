//! A whole scene: one vertex list, the two index lists over it, and the
//! frame state that decides when they change.
//!
//! The scene keeps the three lists fit for each other. The vertex list always
//! has the length that the mesh size gives, the triangle list is the one
//! built for that size, and the line list is a rearrangement of the one built
//! for it. So no index ever points outside the vertex list.

use vstd::prelude::*;
use crate::driver::{FrameEvent, FramePlan, FrameState, Policy};
use crate::error::DeviceError;
use crate::indices::{
    is_line_list, is_triangle_list, lemma_indices_in_range,
    lemma_line_list_holds_each_vertex_twice, lemma_lists_are_unique, line_list, ring_len,
    triangle_list, MAX_VERTICES,
};
use crate::layout::{generate_with, layout, made_from, vertex_count, VertexSlot};
use crate::sync::{
    flush_outcome, lemma_permutation_keeps_bound, BufferSync, DeviceStatus, FlushAction,
};

verus! {

/// What a flush of the whole scene orders, list by list.
#[derive(Clone, Copy, Debug, PartialEq, Eq, Structural)]
pub struct FlushReport {
    pub vertices: FlushAction,
    pub lines: FlushAction,
    pub triangles: FlushAction,
}

/// One of the three lists of a scene.
#[derive(Clone, Copy, Debug, PartialEq, Eq, Structural)]
pub enum List {
    Vertices,
    Lines,
    Triangles,
}

/// The vertex list, the index lists and the frame state of one scene.
pub struct Scene<T> {
    policy: Policy,
    frames: FrameState,
    vertices: BufferSync<T>,
    lines: BufferSync<u16>,
    triangles: BufferSync<u16>,
}

/// The result of flushing a scene whose three lists have these flags.
pub open spec fn scene_flush_outcome(
    vertices_dirty: bool,
    lines_dirty: bool,
    triangles_dirty: bool,
    device: DeviceStatus,
) -> Result<FlushReport, DeviceError> {
    if device == DeviceStatus::Lost && (vertices_dirty || lines_dirty || triangles_dirty) {
        Err(DeviceError::InvalidHandle)
    } else {
        Ok(
            FlushReport {
                vertices: flush_outcome(vertices_dirty, device)->Ok_0,
                lines: flush_outcome(lines_dirty, device)->Ok_0,
                triangles: flush_outcome(triangles_dirty, device)->Ok_0,
            },
        )
    }
}

impl<T> Scene<T> {
    /// What is drawn and how often it changes.
    pub closed spec fn policy(&self) -> Policy {
        self.policy
    }

    /// The frame counter and the pause switch.
    pub closed spec fn frames(&self) -> FrameState {
        self.frames
    }

    /// The vertex list with its flag.
    pub closed spec fn vertex_sync(&self) -> BufferSync<T> {
        self.vertices
    }

    /// The line list with its flag.
    pub closed spec fn line_sync(&self) -> BufferSync<u16> {
        self.lines
    }

    /// The triangle list with its flag.
    pub closed spec fn triangle_sync(&self) -> BufferSync<u16> {
        self.triangles
    }

    /// The number of triangles of the mesh.
    pub open spec fn triangles(&self) -> nat {
        self.policy().mesh.triangles()
    }

    /// The number of steps per edge of the mesh.
    pub open spec fn steps(&self) -> nat {
        self.policy().mesh.steps()
    }

    /// The three lists fit the mesh size and each other.
    pub open spec fn inv(&self) -> bool {
        &&& self.steps() >= 1
        &&& vertex_count(self.triangles(), self.steps()) <= MAX_VERTICES
        &&& self.vertex_sync().contents().len() == vertex_count(self.triangles(), self.steps())
        &&& self.line_sync().contents().to_multiset() == line_list(
            self.triangles(),
            self.steps(),
        ).to_multiset()
        &&& self.triangle_sync().contents() == triangle_list(self.triangles(), self.steps())
    }

    /// In a scene that satisfies `inv`, every entry of the line list and of
    /// the triangle list is a position of the vertex list, and both index
    /// lists have the length of the lists built for the mesh.
    pub proof fn lemma_indices_fit(&self)
        requires
            self.inv(),
        ensures
            self.line_sync().contents().len() == self.triangles() * ring_len(self.steps()),
            self.triangle_sync().contents().len() == self.triangles() * 3,
            forall|i: int|
                0 <= i < self.line_sync().contents().len() ==> (
                #[trigger] self.line_sync().contents()[i]) < self.vertex_sync().contents().len(),
            forall|i: int|
                0 <= i < self.triangle_sync().contents().len() ==> (
                #[trigger] self.triangle_sync().contents()[i])
                    < self.vertex_sync().contents().len(),
    {
        let n = self.triangles();
        let s = self.steps();
        let count = vertex_count(n, s);
        let built = line_list(n, s);
        assert forall|i: int| 0 <= i < built.len() implies (#[trigger] built[i]) < count by {
            lemma_indices_in_range(n, s, i as nat);
        }
        lemma_permutation_keeps_bound(built, self.line_sync().contents(), count);
        let corners = triangle_list(n, s);
        assert forall|i: int| 0 <= i < corners.len() implies (#[trigger] corners[i]) < count by {
            lemma_indices_in_range(n, s, i as nat);
        }
    }

    /// In a scene that satisfies `inv`, the line list holds every vertex
    /// exactly twice, however often it was rearranged.
    pub proof fn lemma_lines_hold_each_vertex_twice(&self, v: u16)
        requires
            self.inv(),
            v < self.vertex_sync().contents().len(),
        ensures
            self.line_sync().contents().to_multiset().count(v) == 2,
    {
        lemma_line_list_holds_each_vertex_twice(self.triangles(), self.steps(), v);
    }

    /// Builds the scene for `policy`: the vertices are what `make` returns
    /// for the slots of the layout, the index lists are those of the mesh,
    /// no frame is drawn yet and nothing is uploaded yet.
    pub fn new<F: Fn(VertexSlot) -> T>(policy: Policy, paused: bool, make: &F) -> (scene: Self)
        requires
            forall|k: int|
                0 <= k < vertex_count(policy.mesh.triangles(), policy.mesh.steps())
                    ==> make.requires(
                    (#[trigger] layout(policy.mesh.triangles(), policy.mesh.steps())[k],),
                ),
        ensures
            scene.inv(),
            scene.policy() == policy,
            scene.frames() == (FrameState { frame_count: 0, paused }),
            made_from(
                scene.vertex_sync().contents(),
                layout(policy.mesh.triangles(), policy.mesh.steps()),
                *make,
            ),
            is_line_list(
                scene.line_sync().contents(),
                policy.mesh.triangles(),
                policy.mesh.steps(),
            ),
            is_triangle_list(
                scene.triangle_sync().contents(),
                policy.mesh.triangles(),
                policy.mesh.steps(),
            ),
            scene.vertex_sync().dirty() && scene.vertex_sync().device_contents() is None,
            scene.line_sync().dirty() && scene.line_sync().device_contents() is None,
            scene.triangle_sync().dirty() && scene.triangle_sync().device_contents() is None,
    {
        let n = policy.mesh.num_triangles();
        let s = policy.mesh.subdivisions();
        let count = policy.mesh.vertices();
        let made = generate_with(n, s, make).unwrap();
        let (lines, triangles) = policy.mesh.indices();
        proof {
            lemma_lists_are_unique(lines@, triangles@, n as nat, s as nat);
        }
        Scene {
            policy,
            frames: FrameState::new(paused),
            vertices: BufferSync::new(made),
            lines: BufferSync::new(lines),
            triangles: BufferSync::new(triangles),
        }
    }

    /// The number of frames drawn so far.
    pub fn frame_count(&self) -> (count: u64)
        ensures
            count == self.frames().frame_count,
    {
        self.frames.frame_count
    }

    /// Whether geometry is frozen.
    pub fn is_paused(&self) -> (paused: bool)
        ensures
            paused == self.frames().paused,
    {
        self.frames.paused
    }

    /// The vertex list, for the upload.
    pub fn vertices(&self) -> (list: &Vec<T>)
        ensures
            list@ == self.vertex_sync().contents(),
    {
        self.vertices.data()
    }

    /// The line list, for the upload. Its entries are positions of the
    /// vertex list.
    pub fn lines(&self) -> (list: &Vec<u16>)
        requires
            self.inv(),
        ensures
            list@ == self.line_sync().contents(),
            list@.len() == self.triangles() * ring_len(self.steps()),
            forall|i: int| 0 <= i < list@.len() ==> (#[trigger] list@[i]) < self.vertex_sync().contents().len(),
    {
        proof {
            self.lemma_indices_fit();
        }
        self.lines.data()
    }

    /// The triangle list, for the upload. Its entries are positions of the
    /// vertex list.
    pub fn triangles_list(&self) -> (list: &Vec<u16>)
        requires
            self.inv(),
        ensures
            list@ == self.triangle_sync().contents(),
            list@ == triangle_list(self.triangles(), self.steps()),
            forall|i: int| 0 <= i < list@.len() ==> (#[trigger] list@[i]) < self.vertex_sync().contents().len(),
    {
        proof {
            self.lemma_indices_fit();
        }
        self.triangles.data()
    }

    /// Takes one event of the render loop and changes the host-side lists
    /// as the plan for it says: a due regeneration replaces every vertex by
    /// what `make` returns for its slot, a due shuffle rearranges the line
    /// list. Nothing else changes, and nothing is uploaded: drawing, and then
    /// `flush`, are the caller's next steps.
    pub fn tick<F: Fn(VertexSlot) -> T>(&mut self, event: FrameEvent, make: &F) -> (plan: FramePlan)
        requires
            old(self).inv(),
            event == FrameEvent::Render ==> old(self).frames().frame_count < u64::MAX,
            forall|k: int|
                0 <= k < vertex_count(old(self).triangles(), old(self).steps())
                    ==> make.requires(
                    (#[trigger] layout(old(self).triangles(), old(self).steps())[k],),
                ),
        ensures
            final(self).inv(),
            final(self).policy() == old(self).policy(),
            final(self).frames() == old(self).frames().after(event),
            plan == old(self).frames().plan(old(self).policy(), event),
            final(self).triangle_sync() == old(self).triangle_sync(),
            !plan.regenerate ==> final(self).vertex_sync() == old(self).vertex_sync(),
            plan.regenerate ==> {
                &&& final(self).vertex_sync().dirty()
                &&& final(self).vertex_sync().device_contents() == old(
                    self,
                ).vertex_sync().device_contents()
                &&& made_from(
                    final(self).vertex_sync().contents(),
                    layout(old(self).triangles(), old(self).steps()),
                    *make,
                )
            },
            !plan.shuffle ==> final(self).line_sync() == old(self).line_sync(),
            plan.shuffle ==> {
                &&& final(self).line_sync().dirty()
                &&& final(self).line_sync().device_contents() == old(
                    self,
                ).line_sync().device_contents()
                &&& final(self).line_sync().contents().to_multiset() == old(
                    self,
                ).line_sync().contents().to_multiset()
            },
    {
        let plan = self.frames.handle(&self.policy, event);
        if plan.regenerate {
            let n = self.policy.mesh.num_triangles();
            let s = self.policy.mesh.subdivisions();
            let made = generate_with(n, s, make).unwrap();
            self.vertices.replace(made);
        }
        if plan.shuffle {
            self.lines.shuffle();
        }
        plan
    }

    /// Sets the flag of one list, so that the next flush uploads it again:
    /// for an upload that was ordered and could not be carried out.
    pub fn mark_dirty(&mut self, list: List)
        requires
            old(self).inv(),
        ensures
            final(self).inv(),
            final(self).policy() == old(self).policy(),
            final(self).frames() == old(self).frames(),
            final(self).vertex_sync().contents() == old(self).vertex_sync().contents(),
            final(self).line_sync().contents() == old(self).line_sync().contents(),
            final(self).triangle_sync().contents() == old(self).triangle_sync().contents(),
            final(self).vertex_sync().dirty() == (old(self).vertex_sync().dirty() || list
                == List::Vertices),
            final(self).line_sync().dirty() == (old(self).line_sync().dirty() || list
                == List::Lines),
            final(self).triangle_sync().dirty() == (old(self).triangle_sync().dirty() || list
                == List::Triangles),
            final(self).vertex_sync().device_contents() == old(
                self,
            ).vertex_sync().device_contents(),
            final(self).line_sync().device_contents() == old(self).line_sync().device_contents(),
            final(self).triangle_sync().device_contents() == old(
                self,
            ).triangle_sync().device_contents(),
    {
        match list {
            List::Vertices => self.vertices.mark_dirty(),
            List::Lines => self.lines.mark_dirty(),
            List::Triangles => self.triangles.mark_dirty(),
        }
    }

    /// Brings the device up to date with all three lists.
    ///
    /// On a ready device every dirty list is ordered for upload and its flag
    /// cleared; the report says which. On a lost device the flush fails if
    /// any list is dirty, and every flag stays as it was. The host-side
    /// lists are never changed.
    pub fn flush(&mut self, device: DeviceStatus) -> (r: Result<FlushReport, DeviceError>)
        requires
            old(self).inv(),
        ensures
            final(self).inv(),
            final(self).policy() == old(self).policy(),
            final(self).frames() == old(self).frames(),
            r == scene_flush_outcome(
                old(self).vertex_sync().dirty(),
                old(self).line_sync().dirty(),
                old(self).triangle_sync().dirty(),
                device,
            ),
            final(self).vertex_sync().flushed_from(&old(self).vertex_sync(), device),
            final(self).line_sync().flushed_from(&old(self).line_sync(), device),
            final(self).triangle_sync().flushed_from(&old(self).triangle_sync(), device),
    {
        let vertices = self.vertices.flush_if_dirty(device);
        let lines = self.lines.flush_if_dirty(device);
        let triangles = self.triangles.flush_if_dirty(device);
        match (vertices, lines, triangles) {
            (Ok(vertices), Ok(lines), Ok(triangles)) => Ok(
                FlushReport { vertices, lines, triangles },
            ),
            _ => Err(DeviceError::InvalidHandle),
        }
    }
}

} // verus!
