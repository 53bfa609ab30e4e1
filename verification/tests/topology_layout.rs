use strand_der::layout::{twist_row, vertex_row};
use strand_der::topology::{SimError, StrandArrays, StrandTopology, MAX_VERTICES};

#[test]
fn accepts_minimal_strand() {
    let t = StrandTopology::new(2, 0).unwrap();
    assert_eq!(t.v_num, 2);
    assert_eq!(t.last_pin, 0);
    assert_eq!(t.l_num(), 1);
    assert_eq!(t.sys_dim(), 7);
}

#[test]
fn rejects_single_vertex() {
    assert_eq!(StrandTopology::new(1, 0), Err(SimError::InvalidTopology));
}

#[test]
fn rejects_empty_strand() {
    assert_eq!(StrandTopology::new(0, 0), Err(SimError::InvalidTopology));
}

#[test]
fn rejects_pin_past_end() {
    assert_eq!(StrandTopology::new(4, 4), Err(SimError::InvalidTopology));
    assert_eq!(StrandTopology::new(4, 100), Err(SimError::InvalidTopology));
}

#[test]
fn rejects_oversized_strand() {
    assert_eq!(
        StrandTopology::new(MAX_VERTICES + 1, 0),
        Err(SimError::InvalidTopology)
    );
}

#[test]
fn accepts_pin_at_end() {
    let t = StrandTopology::new(4, 3).unwrap();
    assert_eq!(t.l_num(), 3);
    assert_eq!(t.sys_dim(), 15);
}

#[test]
fn interior_vertices() {
    let t = StrandTopology::new(5, 0).unwrap();
    assert!(!t.is_interior(0));
    assert!(t.is_interior(1));
    assert!(t.is_interior(2));
    assert!(t.is_interior(3));
    assert!(!t.is_interior(4));
}

#[test]
fn pinned_vertices_by_index() {
    let t = StrandTopology::new(5, 2).unwrap();
    assert!(t.is_pinned(0));
    assert!(t.is_pinned(2));
    assert!(!t.is_pinned(3));
}

#[test]
fn array_lengths_must_match_topology() {
    let t = StrandTopology::new(4, 0).unwrap();
    let good = StrandArrays {
        v_mass: 4,
        v_position: 4,
        v_velocity: 4,
        l_rest_length: 3,
        l_twist: 3,
        l_angular: 3,
        l_momentum: 3,
        reference_frame: 3,
    };
    assert!(good.matches(&t));
    let missing_rest_length = StrandArrays {
        l_rest_length: 2,
        ..good
    };
    assert!(!missing_rest_length.matches(&t));
    let extra_vertex_mass = StrandArrays { v_mass: 5, ..good };
    assert!(!extra_vertex_mass.matches(&t));
}

#[test]
fn row_layout() {
    let t = StrandTopology::new(5, 0).unwrap();
    assert_eq!(vertex_row(&t, 0), 0);
    assert_eq!(vertex_row(&t, 4), 12);
    assert_eq!(twist_row(&t, 0), 15);
    assert_eq!(twist_row(&t, 3), 18);
    assert_eq!(t.sys_dim(), 19);
}
