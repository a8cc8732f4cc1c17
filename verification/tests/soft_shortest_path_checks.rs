use soft_dp::soft_shortest_path::{
    incoming_lists, outgoing_lists, reachable, validate, validate_inputs, Edge, Error,
};

fn edge(from: usize, to: usize, cost: f64) -> Edge {
    Edge { from, to, cost_bits: cost.to_bits() }
}

fn diamond() -> Vec<Edge> {
    vec![edge(0, 1, 1.0), edge(1, 3, 2.0), edge(0, 2, 3.0), edge(2, 3, 4.0)]
}

#[test]
fn backward_edge_with_three_nodes_is_non_dag_order() {
    let edges = vec![edge(2, 1, 1.0)];
    assert_eq!(validate(3, &edges), Err(Error::NotDagOrder { edge_idx: 0, from: 2, to: 1 }));
}

#[test]
fn self_loop_is_non_dag_order() {
    let edges = vec![edge(1, 1, 1.0)];
    assert_eq!(validate(3, &edges), Err(Error::NotDagOrder { edge_idx: 0, from: 1, to: 1 }));
}

#[test]
fn endpoint_out_of_bounds_is_reported_with_its_edge() {
    let edges = vec![edge(0, 5, 1.0)];
    assert_eq!(
        validate(3, &edges),
        Err(Error::EdgeOutOfBounds { edge_idx: 0, from: 0, to: 5, n: 3 })
    );
}

#[test]
fn out_of_bounds_wins_over_dag_order_on_the_same_edge() {
    let edges = vec![edge(5, 1, 1.0)];
    assert_eq!(
        validate(3, &edges),
        Err(Error::EdgeOutOfBounds { edge_idx: 0, from: 5, to: 1, n: 3 })
    );
}

#[test]
fn non_finite_cost_is_reported_as_out_of_bounds() {
    for bad in [f64::NAN, f64::INFINITY, f64::NEG_INFINITY] {
        let edges = vec![edge(0, 1, bad)];
        assert_eq!(
            validate(2, &edges),
            Err(Error::EdgeOutOfBounds { edge_idx: 0, from: 0, to: 1, n: 2 })
        );
    }
}

#[test]
fn fewer_than_two_nodes_is_rejected() {
    assert_eq!(validate(0, &vec![]), Err(Error::TooFewNodes { n: 0 }));
    assert_eq!(validate(1, &vec![]), Err(Error::TooFewNodes { n: 1 }));
    assert_eq!(validate(2, &vec![]), Ok(()));
}

#[test]
fn first_offending_edge_wins() {
    let edges = vec![edge(0, 1, 1.0), edge(1, 0, 1.0), edge(9, 9, f64::NAN)];
    assert_eq!(validate(3, &edges), Err(Error::NotDagOrder { edge_idx: 1, from: 1, to: 0 }));
}

#[test]
fn diamond_graph_is_valid() {
    assert_eq!(validate(4, &diamond()), Ok(()));
}

#[test]
fn invalid_gamma_is_reported_before_the_graph() {
    let g = (-1.0f64).to_bits();
    let edges = vec![edge(2, 1, 1.0)];
    assert_eq!(validate_inputs(3, &edges, g), Err(Error::InvalidGamma { gamma_bits: g }));
    for g in [0.0f64.to_bits(), f64::NAN.to_bits()] {
        assert_eq!(
            validate_inputs(4, &diamond(), g),
            Err(Error::InvalidGamma { gamma_bits: g })
        );
    }
    assert_eq!(validate_inputs(4, &diamond(), 0.5f64.to_bits()), Ok(()));
}

#[test]
fn incoming_lists_on_the_diamond() {
    let inc = incoming_lists(4, &diamond());
    assert_eq!(inc, vec![vec![], vec![0], vec![2], vec![1, 3]]);
}

#[test]
fn outgoing_lists_on_the_diamond() {
    let out = outgoing_lists(4, &diamond());
    assert_eq!(out, vec![vec![0, 2], vec![1], vec![3], vec![]]);
}

#[test]
fn every_diamond_node_is_reachable() {
    assert_eq!(reachable(4, &diamond()), vec![true, true, true, true]);
}

#[test]
fn unreachable_sink_is_detected() {
    let edges = vec![edge(0, 1, 1.0)];
    assert_eq!(reachable(3, &edges), vec![true, true, false]);
    assert_eq!(reachable(2, &vec![]), vec![true, false]);
}

#[test]
fn reachability_follows_edges_not_node_order() {
    // 0 -> 2 -> 3; node 1 has no incoming edge.
    let edges = vec![edge(0, 2, 1.0), edge(2, 3, 1.0)];
    assert_eq!(reachable(4, &edges), vec![true, false, true, true]);
}
