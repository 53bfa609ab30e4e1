use std::f64::consts::PI;

use strand_der::bend::{bend_force_plan, bend_hessian_plan, bend_terms, grad_index};
use strand_der::step::{pinned_vertices, unpinned_vertices, StrandState};
use strand_der::stretch::{stretch_force_plan, stretch_hessian_plan};
use strand_der::topology::{SimError, StrandTopology};

fn topo(v_num: usize, last_pin: usize) -> StrandTopology {
    StrandTopology::new(v_num, last_pin).unwrap()
}

#[test]
fn stretch_forces_three_vertices() {
    let f = stretch_force_plan(&topo(3, 0));
    assert_eq!(f.len(), 3);
    // edge 0: lower vertex pinned, only the pull on vertex 1
    assert_eq!((f[0].edge, f[0].vertex, f[0].positive), (0, 1, false));
    // edge 1: push on vertex 1, pull on vertex 2
    assert_eq!((f[1].edge, f[1].vertex, f[1].positive), (1, 1, true));
    assert_eq!((f[2].edge, f[2].vertex, f[2].positive), (1, 2, false));
}

#[test]
fn stretch_forces_never_push_pinned() {
    let t = topo(6, 2);
    for e in stretch_force_plan(&t) {
        if e.positive {
            assert!(e.vertex > t.last_pin);
            assert_eq!(e.vertex, e.edge);
        } else {
            assert_eq!(e.vertex, e.edge + 1);
        }
    }
}

#[test]
fn stretch_hessian_three_vertices() {
    let h = stretch_hessian_plan(&topo(3, 0));
    let got: Vec<(usize, usize, usize, bool)> =
        h.iter().map(|s| (s.edge, s.row, s.col, s.negate)).collect();
    assert_eq!(
        got,
        vec![
            // edge 0: vertex 0 is pinned, its diagonal block is skipped
            (0, 0, 1, true),
            (0, 1, 0, true),
            (0, 1, 1, false),
            // edge 1: full stencil
            (1, 1, 1, false),
            (1, 1, 2, true),
            (1, 2, 1, true),
            (1, 2, 2, false),
        ]
    );
}

#[test]
fn stretch_hessian_pattern_is_symmetric() {
    let h = stretch_hessian_plan(&topo(7, 1));
    let places: Vec<(usize, usize)> = h.iter().map(|s| (s.row, s.col)).collect();
    for &(a, b) in &places {
        assert!(places.contains(&(b, a)), "missing mirror of ({a},{b})");
    }
}

#[test]
fn bend_hessian_five_vertices() {
    let p = bend_hessian_plan(&topo(5, 0));
    let got: Vec<(usize, usize, Vec<usize>)> =
        p.iter().map(|s| (s.row, s.col, s.terms.clone())).collect();
    assert_eq!(
        got,
        vec![
            (1, 1, vec![1, 2]),
            (1, 2, vec![1, 2]),
            (1, 3, vec![2]),
            (2, 1, vec![1, 2]),
            (2, 2, vec![1, 2, 3]),
            (2, 3, vec![2, 3]),
            (3, 1, vec![2]),
            (3, 2, vec![2, 3]),
            (3, 3, vec![2, 3]),
        ]
    );
}

#[test]
fn bend_hessian_minimal_interior() {
    let p = bend_hessian_plan(&topo(3, 0));
    assert_eq!(p.len(), 1);
    assert_eq!((p[0].row, p[0].col), (1, 1));
    assert_eq!(p[0].terms, vec![1]);
}

#[test]
fn bend_hessian_empty_without_interior() {
    assert!(bend_hessian_plan(&topo(2, 0)).is_empty());
    assert!(bend_force_plan(&topo(2, 0)).is_empty());
}

#[test]
fn bend_pattern_is_symmetric_with_equal_terms() {
    let p = bend_hessian_plan(&topo(9, 0));
    for s in &p {
        let mirror = p
            .iter()
            .find(|m| m.row == s.col && m.col == s.row)
            .expect("mirror slot missing");
        assert_eq!(mirror.terms, s.terms);
    }
}

#[test]
fn bend_band_is_two_vertices_wide() {
    for s in bend_hessian_plan(&topo(12, 3)) {
        let w = s.row.abs_diff(s.col);
        assert!(w <= 2);
        for &k in &s.terms {
            assert!(k.abs_diff(s.row) <= 1 && k.abs_diff(s.col) <= 1);
        }
    }
}

#[test]
fn bend_entries_cover_pinned_interior_vertices_too() {
    // pins constrain integration, not the bend stencil: interior vertices
    // below the pin still carry curvature entries
    let p = bend_force_plan(&topo(5, 2));
    let vertices: Vec<usize> = p.iter().map(|s| s.vertex).collect();
    assert_eq!(vertices, vec![1, 2, 3]);
}

#[test]
fn bend_terms_examples() {
    let t = topo(5, 0);
    assert_eq!(bend_terms(&t, 1, 1), vec![1, 2]);
    assert_eq!(bend_terms(&t, 1, 3), vec![2]);
    assert_eq!(bend_terms(&t, 3, 3), vec![2, 3]);
}

#[test]
fn grad_index_maps_the_three_neighbour_blocks() {
    assert_eq!(grad_index(2, 1), 0);
    assert_eq!(grad_index(2, 2), 1);
    assert_eq!(grad_index(2, 3), 2);
}

#[test]
fn bend_forces_one_per_interior_vertex() {
    let p = bend_force_plan(&topo(5, 0));
    let got: Vec<(usize, Vec<usize>)> = p.iter().map(|s| (s.vertex, s.terms.clone())).collect();
    assert_eq!(got, vec![(1, vec![1, 2]), (2, vec![1, 2, 3]), (3, vec![2, 3])]);
}

#[test]
fn target_sets_partition_the_vertices() {
    let t = topo(5, 1);
    assert_eq!(pinned_vertices(&t), vec![0, 1]);
    assert_eq!(unpinned_vertices(&t), vec![2, 3, 4]);
    let t = topo(5, 4);
    assert_eq!(pinned_vertices(&t), vec![0, 1, 2, 3, 4]);
    assert_eq!(unpinned_vertices(&t), Vec::<usize>::new());
}

#[test]
fn seed_validates_topology() {
    assert_eq!(StrandState::seed(1, 0, 0), Err(SimError::InvalidTopology));
    assert_eq!(StrandState::seed(3, 3, 0), Err(SimError::InvalidTopology));
    let s = StrandState::seed(3, 0, 7).unwrap();
    assert_eq!(s.topology, topo(3, 0));
    assert_eq!(s.attachment, 7);
    assert!(!s.kappa_captured);
}

#[test]
fn rest_curvature_captured_on_first_tick_only() {
    let mut s = StrandState::seed(4, 0, 0).unwrap();
    let first = s.plan_tick();
    assert!(first.capture_rest_curvature);
    assert!(s.kappa_captured);
    for _ in 0..5 {
        let later = s.plan_tick();
        assert!(!later.capture_rest_curvature);
    }
}

#[test]
fn tick_plan_targets_respect_pins() {
    let mut s = StrandState::seed(6, 2, 0).unwrap();
    let p = s.plan_tick();
    assert_eq!(p.pinned_drive, vec![0, 1, 2]);
    assert_eq!(p.integration_targets, vec![3, 4, 5]);
    assert_eq!(p.gravity_targets, p.integration_targets);
    assert_eq!(p.contact_targets, p.integration_targets);
    for v in &p.pinned_drive {
        assert!(!p.integration_targets.contains(v));
    }
}

/// Executes the stretch force entries of a plan on concrete float
/// positions, exactly as a host does: per edge the force is
/// `pi * r^2 * E * (len / rest - 1) * t`, applied with the planned signs
/// at the planned vertices.
fn run_stretch_forces(
    t: &StrandTopology,
    positions: &[[f64; 3]],
    rest: &[f64],
    radius: f64,
    youngs: f64,
) -> Vec<f64> {
    let mut force = vec![0.0f64; 3 * positions.len()];
    for e in stretch_force_plan(t) {
        let p0 = positions[e.edge];
        let p1 = positions[e.edge + 1];
        let d = [p1[0] - p0[0], p1[1] - p0[1], p1[2] - p0[2]];
        let len = (d[0] * d[0] + d[1] * d[1] + d[2] * d[2]).sqrt();
        let tang = [d[0] / len, d[1] / len, d[2] / len];
        let factor = PI * radius * radius * youngs * (len / rest[e.edge] - 1.0);
        let sign = if e.positive { 1.0 } else { -1.0 };
        for c in 0..3 {
            force[3 * e.vertex + c] += sign * factor * tang[c];
        }
    }
    force
}

#[test]
fn stretched_edge_pulls_vertex_one_and_spares_the_pinned_root() {
    // three vertices, rest length 0.1 per edge, first edge stretched to 0.2
    // (the second edge runs along y so its length is exactly 0.1)
    let t = topo(3, 0);
    let positions = [[0.0, 0.0, 0.0], [0.2, 0.0, 0.0], [0.2, 0.1, 0.0]];
    let rest = [0.1, 0.1];
    let radius = 0.0001;
    let youngs = 1.9e10;
    let force = run_stretch_forces(&t, &positions, &rest, radius, youngs);
    let unit = PI * radius * radius * youngs;
    // vertex 0 is pinned: no stretch force lands on it
    assert_eq!(&force[0..3], &[0.0, 0.0, 0.0]);
    // vertex 1: pulled back along the stretched edge's tangent with
    // magnitude exactly pi * r^2 * E * (0.2 / 0.1 - 1) = pi * r^2 * E
    assert_eq!(force[3], -unit);
    assert_eq!(force[4], 0.0);
    assert_eq!(force[5], 0.0);
    // vertex 2: its edge is at rest length, zero force
    assert_eq!(&force[6..9], &[0.0, 0.0, 0.0]);
}

#[test]
fn rest_configuration_yields_exactly_zero_stretch_force() {
    // rest lengths taken from the initial configuration, as at strand
    // creation: every ratio len / rest is then exactly 1
    let t = topo(4, 0);
    let positions: [[f64; 3]; 4] = [
        [0.0, 2.0, 0.0],
        [0.1, 2.0, 0.0],
        [0.2, 2.03, 0.0],
        [0.31, 2.0, 0.07],
    ];
    let mut rest = [0.0f64; 3];
    for (e, r) in rest.iter_mut().enumerate() {
        let d = [
            positions[e + 1][0] - positions[e][0],
            positions[e + 1][1] - positions[e][1],
            positions[e + 1][2] - positions[e][2],
        ];
        *r = (d[0] * d[0] + d[1] * d[1] + d[2] * d[2]).sqrt();
    }
    let force = run_stretch_forces(&t, &positions, &rest, 0.0001, 1.9e10);
    for entry in force {
        assert_eq!(entry, 0.0);
    }
}
