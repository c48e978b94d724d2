use trimesh_testbed::colliders::{
    flip_triangle_winding, IncludeColliders, NormalGizmoFlags, NormalKind,
};

#[test]
fn include_cycle_has_period_three() {
    let c = IncludeColliders::default();
    assert_eq!(c, IncludeColliders::OnlyMeshes);
    assert_eq!(c.next(), IncludeColliders::All);
    assert_eq!(c.next().next(), IncludeColliders::NonMeshes);
    assert_eq!(c.next().next().next(), c);
}

#[test]
fn include_rules() {
    assert!(IncludeColliders::OnlyMeshes.includes(true));
    assert!(!IncludeColliders::OnlyMeshes.includes(false));
    assert!(IncludeColliders::All.includes(true));
    assert!(IncludeColliders::All.includes(false));
    assert!(!IncludeColliders::NonMeshes.includes(true));
    assert!(IncludeColliders::NonMeshes.includes(false));
}

#[test]
fn flip_reverses_each_triangle() {
    let mut tris = vec![[0u32, 1, 2], [3, 4, 5], [7, 7, 9]];
    flip_triangle_winding(&mut tris);
    assert_eq!(tris, vec![[2, 1, 0], [5, 4, 3], [9, 7, 7]]);
}

#[test]
fn flip_twice_restores() {
    let orig = vec![[10u32, 20, 30], [1, 0, 2]];
    let mut tris = orig.clone();
    flip_triangle_winding(&mut tris);
    assert_ne!(tris, orig);
    flip_triangle_winding(&mut tris);
    assert_eq!(tris, orig);
}

#[test]
fn flip_empty() {
    let mut tris: Vec<[u32; 3]> = Vec::new();
    flip_triangle_winding(&mut tris);
    assert!(tris.is_empty());
}

#[test]
fn normal_flags_default_and_toggle() {
    let mut f = NormalGizmoFlags::default();
    assert!(f.draw_face_normal && f.draw_edge_normal && f.draw_vert_normal);
    f.toggle(NormalKind::Vertex);
    assert!(!f.draw_vert_normal && f.draw_edge_normal && f.draw_face_normal);
    f.toggle(NormalKind::Edge);
    assert!(!f.draw_edge_normal && f.draw_face_normal);
    f.toggle(NormalKind::Face);
    assert!(!f.draw_face_normal);
    f.toggle(NormalKind::Vertex);
    f.toggle(NormalKind::Edge);
    f.toggle(NormalKind::Face);
    assert_eq!(f, NormalGizmoFlags::default());
}
