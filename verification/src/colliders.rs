use vstd::prelude::*;

verus! {

/// Which colliders a collider rebuild applies to.
#[derive(Clone, Copy, Debug, PartialEq, Eq, Structural)]
pub enum IncludeColliders {
    OnlyMeshes,
    All,
    NonMeshes,
}

impl IncludeColliders {
    /// The following choice, cycling `OnlyMeshes`, `All`, `NonMeshes`.
    pub open spec fn spec_next(self) -> IncludeColliders {
        match self {
            IncludeColliders::OnlyMeshes => IncludeColliders::All,
            IncludeColliders::All => IncludeColliders::NonMeshes,
            IncludeColliders::NonMeshes => IncludeColliders::OnlyMeshes,
        }
    }

    /// A collider whose shape is (`is_mesh`) or is not a triangle mesh is
    /// affected under this choice.
    pub open spec fn spec_includes(self, is_mesh: bool) -> bool {
        match self {
            IncludeColliders::OnlyMeshes => is_mesh,
            IncludeColliders::All => true,
            IncludeColliders::NonMeshes => !is_mesh,
        }
    }

    /// The following choice.
    pub fn next(self) -> (r: IncludeColliders)
        ensures
            r == self.spec_next(),
    {
        match self {
            IncludeColliders::OnlyMeshes => IncludeColliders::All,
            IncludeColliders::All => IncludeColliders::NonMeshes,
            IncludeColliders::NonMeshes => IncludeColliders::OnlyMeshes,
        }
    }

    /// Whether a collider that is (or is not) a triangle mesh is affected.
    pub fn includes(self, is_mesh: bool) -> (r: bool)
        ensures
            r == self.spec_includes(is_mesh),
    {
        match self {
            IncludeColliders::OnlyMeshes => is_mesh,
            IncludeColliders::All => true,
            IncludeColliders::NonMeshes => !is_mesh,
        }
    }
}

impl Default for IncludeColliders {
    fn default() -> (r: IncludeColliders)
        ensures
            r == IncludeColliders::OnlyMeshes,
    {
        IncludeColliders::OnlyMeshes
    }
}

/// Three steps of `next` come back to the start, and the three choices met on
/// the way are all different.
pub proof fn lemma_include_cycle(c: IncludeColliders)
    ensures
        c.spec_next().spec_next().spec_next() == c,
        c.spec_next() != c,
        c.spec_next().spec_next() != c,
{
}

/// Meshes only and non-meshes only split the colliders between them; `All`
/// takes every collider.
pub proof fn lemma_include_partition(is_mesh: bool)
    ensures
        IncludeColliders::OnlyMeshes.spec_includes(is_mesh) != IncludeColliders::NonMeshes.spec_includes(is_mesh),
        IncludeColliders::All.spec_includes(is_mesh),
{
}

/// The flags a triangle-mesh collider is rebuilt with.
#[derive(Clone, Copy, Debug, PartialEq, Eq, Structural)]
pub enum TrimeshFlagChoice {
    /// No flags.
    Empty,
    /// Only the flag that fixes internal edges.
    FixInternalEdges,
    /// Every flag but the one that fixes internal edges: half-edge topology,
    /// connected components, deletion of bad-topology triangles, orientation,
    /// merging of duplicate vertices, deletion of degenerate and of duplicate
    /// triangles.
    AllButFixInternalEdges,
}

/// A triangle with its corners in the opposite order.
pub open spec fn reversed_triangle(t: Seq<u32>) -> Seq<u32> {
    t.reverse()
}

/// Reverses the corner order of every triangle, which flips the face normals.
pub fn flip_triangle_winding(indices: &mut Vec<[u32; 3]>)
    ensures
        final(indices)@.len() == old(indices)@.len(),
        forall|i: int|
            0 <= i < old(indices)@.len() ==> (#[trigger] final(indices)@[i])@ == reversed_triangle(
                old(indices)@[i]@,
            ),
        forall|i: int|
            0 <= i < old(indices)@.len() ==> {
                &&& (#[trigger] final(indices)@[i])[0] == old(indices)@[i][2]
                &&& final(indices)@[i][1] == old(indices)@[i][1]
                &&& final(indices)@[i][2] == old(indices)@[i][0]
            },
{
    let n = indices.len();
    let mut i: usize = 0;
    while i < n
        invariant
            n == old(indices)@.len(),
            indices@.len() == n,
            i <= n,
            forall|j: int| 0 <= j < i ==> (#[trigger] indices@[j])@ == reversed_triangle(old(indices)@[j]@),
            forall|j: int| i <= j < n ==> #[trigger] indices@[j] == old(indices)@[j],
        decreases n - i,
    {
        let t = indices[i];
        let r: [u32; 3] = [t[2], t[1], t[0]];
        assert(r@ =~= reversed_triangle(t@));
        indices.set(i, r);
        i = i + 1;
    }
    assert forall|j: int| 0 <= j < n implies {
        &&& (#[trigger] indices@[j])[0] == old(indices)@[j][2]
        &&& indices@[j][1] == old(indices)@[j][1]
        &&& indices@[j][2] == old(indices)@[j][0]
    } by {
        lemma_reversed_triangle_corners(old(indices)@[j]@);
        assert(indices@[j]@[0] == indices@[j][0]);
    }
}

/// Reversing a triangle swaps its first and last corners and keeps the middle one.
pub proof fn lemma_reversed_triangle_corners(t: Seq<u32>)
    requires
        t.len() == 3,
    ensures
        reversed_triangle(t) == seq![t[2], t[1], t[0]],
        reversed_triangle(t)[0] == t[2],
        reversed_triangle(t)[1] == t[1],
        reversed_triangle(t)[2] == t[0],
{
    assert(reversed_triangle(t) =~= seq![t[2], t[1], t[0]]);
}

/// Flipping the winding twice gives back the triangles one started with.
pub proof fn lemma_flip_twice(t: Seq<u32>)
    ensures
        reversed_triangle(reversed_triangle(t)) == t,
{
    assert(t.reverse().reverse() =~= t);
}

/// Which of the drawn normals of collider meshes are switched on.
#[derive(Clone, Copy, Debug, PartialEq, Eq, Structural)]
pub struct NormalGizmoFlags {
    pub draw_face_normal: bool,
    pub draw_edge_normal: bool,
    pub draw_vert_normal: bool,
}

/// One kind of drawn normal.
#[derive(Clone, Copy, Debug, PartialEq, Eq, Structural)]
pub enum NormalKind {
    Vertex,
    Edge,
    Face,
}

impl NormalGizmoFlags {
    /// The flags with the switch of `kind` turned over.
    pub open spec fn spec_toggled(self, kind: NormalKind) -> NormalGizmoFlags {
        match kind {
            NormalKind::Vertex => NormalGizmoFlags { draw_vert_normal: !self.draw_vert_normal, ..self },
            NormalKind::Edge => NormalGizmoFlags { draw_edge_normal: !self.draw_edge_normal, ..self },
            NormalKind::Face => NormalGizmoFlags { draw_face_normal: !self.draw_face_normal, ..self },
        }
    }

    /// Turns over the switch of one kind of normal and leaves the others.
    pub fn toggle(&mut self, kind: NormalKind)
        ensures
            *final(self) == old(self).spec_toggled(kind),
            final(self).draw_vert_normal == (old(self).draw_vert_normal != (kind == NormalKind::Vertex)),
            final(self).draw_edge_normal == (old(self).draw_edge_normal != (kind == NormalKind::Edge)),
            final(self).draw_face_normal == (old(self).draw_face_normal != (kind == NormalKind::Face)),
    {
        match kind {
            NormalKind::Vertex => self.draw_vert_normal = !self.draw_vert_normal,
            NormalKind::Edge => self.draw_edge_normal = !self.draw_edge_normal,
            NormalKind::Face => self.draw_face_normal = !self.draw_face_normal,
        }
    }
}

impl Default for NormalGizmoFlags {
    /// All normals are drawn.
    fn default() -> (r: NormalGizmoFlags)
        ensures
            r.draw_face_normal && r.draw_edge_normal && r.draw_vert_normal,
    {
        NormalGizmoFlags { draw_face_normal: true, draw_edge_normal: true, draw_vert_normal: true }
    }
}

/// Toggling one kind of normal turns over exactly that switch and leaves the
/// other two as they were.
pub proof fn lemma_toggle_touches_one_switch(f: NormalGizmoFlags, kind: NormalKind)
    ensures
        f.spec_toggled(kind).draw_vert_normal == (f.draw_vert_normal != (kind == NormalKind::Vertex)),
        f.spec_toggled(kind).draw_edge_normal == (f.draw_edge_normal != (kind == NormalKind::Edge)),
        f.spec_toggled(kind).draw_face_normal == (f.draw_face_normal != (kind == NormalKind::Face)),
{
}

/// Turning a switch over twice leaves the flags as they were.
pub proof fn lemma_toggle_twice(f: NormalGizmoFlags, kind: NormalKind)
    ensures
        f.spec_toggled(kind).spec_toggled(kind) == f,
{
}

} // verus!
