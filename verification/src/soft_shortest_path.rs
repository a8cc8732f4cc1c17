//! Structural core of the soft shortest-path engine.
//!
//! The engine relaxes shortest-path over a DAG: a forward pass assigns each
//! node the softmin of `value(from) + cost` over its incoming edges, a
//! backward pass does the same over outgoing edges, and combining the two
//! yields per-edge marginal probabilities.  The softmin arithmetic runs over
//! binary64 values outside this crate.  This module owns everything the
//! engine decides about the graph itself: which inputs are structurally
//! acceptable (and exactly which error each bad input earns), which edges
//! enter and leave each node, and which nodes the source can reach — the
//! reachability pattern is exactly the set of nodes whose forward potential
//! is not left at the unreachable marker.
//!
//! Node 0 is the source and node `n - 1` the sink.  Every edge must point
//! forward (`from < to`): the forward pass visits nodes in increasing index
//! order and the backward pass in decreasing order, so the edge list itself
//! must witness a topological order.

use vstd::prelude::*;

verus! {

use crate::ieee754::check_finite_bits;
use crate::ieee754::check_positive_finite_bits;
use crate::ieee754::is_finite_bits;
use crate::ieee754::is_positive_finite_bits;

/// Directed edge in a DAG.
#[derive(Clone, Copy, Debug, PartialEq, Eq)]
pub struct Edge {
    /// Source node index.
    pub from: usize,
    /// Destination node index.
    pub to: usize,
    /// Edge cost as an IEEE 754 binary64 bit pattern; it must encode a
    /// finite number.
    pub cost_bits: u64,
}

/// Errors for the soft shortest-path operators.
#[derive(Clone, Copy, Debug, PartialEq, Eq)]
pub enum Error {
    /// The smoothing parameter must encode a positive finite number; carries
    /// the offending bit pattern.
    InvalidGamma { gamma_bits: u64 },
    /// The graph must have at least 2 nodes (source and sink).
    TooFewNodes { n: usize },
    /// An edge endpoint is out of bounds, or an edge cost is not finite.
    EdgeOutOfBounds {
        /// Index of the offending edge in the provided list.
        edge_idx: usize,
        /// Source endpoint of that edge.
        from: usize,
        /// Destination endpoint of that edge.
        to: usize,
        /// Number of nodes in the graph.
        n: usize,
    },
    /// An edge violates the required topological order `from < to`.
    NotDagOrder {
        /// Index of the offending edge in the provided list.
        edge_idx: usize,
        /// Source endpoint of that edge.
        from: usize,
        /// Destination endpoint of that edge.
        to: usize,
    },
    /// No path exists from source to sink.  Validation never reports this;
    /// the engine does, when the sink's forward potential is left at the
    /// unreachable marker.
    NoPath,
}

/// A single edge is acceptable for a graph on `n` nodes: endpoints in range,
/// pointing forward, with a finite cost.
pub open spec fn edge_ok(e: Edge, n: usize) -> bool {
    e.from < n && e.to < n && e.from < e.to && is_finite_bits(e.cost_bits)
}

/// The whole input graph is acceptable: enough nodes, every edge acceptable.
pub open spec fn graph_ok(n: usize, edges: Seq<Edge>) -> bool {
    n >= 2 && forall|k: int| 0 <= k < edges.len() ==> edge_ok(#[trigger] edges[k], n)
}

/// The error reported for an unacceptable edge: an endpoint out of range is
/// out-of-bounds; an in-range edge pointing backward breaks the DAG order; an
/// edge failing only by a non-finite cost is also reported as out-of-bounds.
pub open spec fn edge_error(edge_idx: usize, e: Edge, n: usize) -> Error {
    if e.from >= n || e.to >= n {
        Error::EdgeOutOfBounds { edge_idx, from: e.from, to: e.to, n }
    } else if e.from >= e.to {
        Error::NotDagOrder { edge_idx, from: e.from, to: e.to }
    } else {
        Error::EdgeOutOfBounds { edge_idx, from: e.from, to: e.to, n }
    }
}

/// Outcome of scanning `edges[k..]` for its first unacceptable edge: `Ok` if
/// there is none, otherwise the error that edge earns.
pub open spec fn scan_edges(n: usize, edges: Seq<Edge>, k: int) -> Result<(), Error>
    decreases edges.len() - k,
{
    if k < 0 || k >= edges.len() {
        Ok(())
    } else if !edge_ok(edges[k], n) {
        Err(edge_error(k as usize, edges[k], n))
    } else {
        scan_edges(n, edges, k + 1)
    }
}

/// The exact outcome of validation: too few nodes first, otherwise the error
/// of the first unacceptable edge, otherwise `Ok`.
pub open spec fn validate_spec(n: usize, edges: Seq<Edge>) -> Result<(), Error> {
    if n < 2 {
        Err(Error::TooFewNodes { n })
    } else {
        scan_edges(n, edges, 0)
    }
}

/// Checks the structural preconditions of both operators, before any
/// arithmetic: at least 2 nodes, every endpoint in `[0, n)`, every edge
/// pointing forward, every cost finite.  Reports the first violation, in the
/// order the edges were given.
pub fn validate(n: usize, edges: &Vec<Edge>) -> (r: Result<(), Error>)
    ensures
        r == validate_spec(n, edges@),
        r is Ok <==> graph_ok(n, edges@),
{
    if n < 2 {
        return Err(Error::TooFewNodes { n });
    }
    let mut k: usize = 0;
    while k < edges.len()
        invariant
            k <= edges@.len(),
            n >= 2,
            forall|j: int| 0 <= j < k ==> edge_ok(#[trigger] edges@[j], n),
            scan_edges(n, edges@, 0) == scan_edges(n, edges@, k as int),
        decreases edges@.len() - k,
    {
        let e = edges[k];
        if e.from >= n || e.to >= n {
            return Err(Error::EdgeOutOfBounds { edge_idx: k, from: e.from, to: e.to, n });
        }
        if e.from >= e.to {
            return Err(Error::NotDagOrder { edge_idx: k, from: e.from, to: e.to });
        }
        if !check_finite_bits(e.cost_bits) {
            return Err(Error::EdgeOutOfBounds { edge_idx: k, from: e.from, to: e.to, n });
        }
        k += 1;
    }
    Ok(())
}

/// Checks the full prologue of both operators: the smoothing parameter
/// first, then the graph structure.
pub fn validate_inputs(n: usize, edges: &Vec<Edge>, gamma_bits: u64) -> (r: Result<(), Error>)
    ensures
        !is_positive_finite_bits(gamma_bits) ==> r == Err::<(), Error>(Error::InvalidGamma {
            gamma_bits,
        }),
        is_positive_finite_bits(gamma_bits) ==> r == validate_spec(n, edges@),
        r is Ok <==> is_positive_finite_bits(gamma_bits) && graph_ok(n, edges@),
{
    if !check_positive_finite_bits(gamma_bits) {
        return Err(Error::InvalidGamma { gamma_bits });
    }
    validate(n, edges)
}

/// Indices of the edges among `edges[..upto]` entering node `v`, in
/// increasing order.
pub open spec fn incoming_upto(edges: Seq<Edge>, v: usize, upto: int) -> Seq<usize>
    decreases upto,
{
    if upto <= 0 {
        Seq::empty()
    } else if edges[upto - 1].to == v {
        incoming_upto(edges, v, upto - 1).push((upto - 1) as usize)
    } else {
        incoming_upto(edges, v, upto - 1)
    }
}

/// Indices of the edges entering node `v`, in increasing order.
pub open spec fn incoming_of(edges: Seq<Edge>, v: usize) -> Seq<usize> {
    incoming_upto(edges, v, edges.len() as int)
}

/// Indices of the edges among `edges[..upto]` leaving node `v`, in
/// increasing order.
pub open spec fn outgoing_upto(edges: Seq<Edge>, v: usize, upto: int) -> Seq<usize>
    decreases upto,
{
    if upto <= 0 {
        Seq::empty()
    } else if edges[upto - 1].from == v {
        outgoing_upto(edges, v, upto - 1).push((upto - 1) as usize)
    } else {
        outgoing_upto(edges, v, upto - 1)
    }
}

/// Indices of the edges leaving node `v`, in increasing order.
pub open spec fn outgoing_of(edges: Seq<Edge>, v: usize) -> Seq<usize> {
    outgoing_upto(edges, v, edges.len() as int)
}

/// Per-node lists of incoming edge indices, as the forward pass consumes
/// them: entry `v` holds exactly the indices of the edges entering `v`, in
/// the order the edges were given.
pub fn incoming_lists(n: usize, edges: &Vec<Edge>) -> (r: Vec<Vec<usize>>)
    ensures
        r@.len() == n,
        forall|v: int| 0 <= v < n ==> (#[trigger] r@[v])@ == incoming_of(edges@, v as usize),
{
    let mut r: Vec<Vec<usize>> = Vec::new();
    let mut v: usize = 0;
    while v < n
        invariant
            v <= n,
            r@.len() == v,
            forall|u: int| 0 <= u < v ==> (#[trigger] r@[u])@ == incoming_of(edges@, u as usize),
        decreases n - v,
    {
        let mut row: Vec<usize> = Vec::new();
        let mut k: usize = 0;
        while k < edges.len()
            invariant
                k <= edges@.len(),
                row@ == incoming_upto(edges@, v, k as int),
            decreases edges@.len() - k,
        {
            if edges[k].to == v {
                row.push(k);
            }
            k += 1;
        }
        r.push(row);
        v += 1;
    }
    r
}

/// Per-node lists of outgoing edge indices, as the backward pass consumes
/// them: entry `v` holds exactly the indices of the edges leaving `v`, in
/// the order the edges were given.
pub fn outgoing_lists(n: usize, edges: &Vec<Edge>) -> (r: Vec<Vec<usize>>)
    ensures
        r@.len() == n,
        forall|v: int| 0 <= v < n ==> (#[trigger] r@[v])@ == outgoing_of(edges@, v as usize),
{
    let mut r: Vec<Vec<usize>> = Vec::new();
    let mut v: usize = 0;
    while v < n
        invariant
            v <= n,
            r@.len() == v,
            forall|u: int| 0 <= u < v ==> (#[trigger] r@[u])@ == outgoing_of(edges@, u as usize),
        decreases n - v,
    {
        let mut row: Vec<usize> = Vec::new();
        let mut k: usize = 0;
        while k < edges.len()
            invariant
                k <= edges@.len(),
                row@ == outgoing_upto(edges@, v, k as int),
            decreases edges@.len() - k,
        {
            if edges[k].from == v {
                row.push(k);
            }
            k += 1;
        }
        r.push(row);
        v += 1;
    }
    r
}

/// Node `v` is reachable from the source (node 0) along the given edges.
/// Node 0 is reachable by definition; a later node is reachable through any
/// entering edge whose tail is a reachable earlier node.  The `from < v`
/// guard is what the required topological order guarantees of every edge the
/// engines accept, and is what bounds the recursion.
pub open spec fn reachable_spec(edges: Seq<Edge>, v: int) -> bool
    decreases v,
{
    if v <= 0 {
        v == 0
    } else {
        exists|k: int|
            0 <= k < edges.len() && ((#[trigger] edges[k]).to as int) == v && (
            edges[k].from as int) < v && reachable_spec(edges, edges[k].from as int)
    }
}

/// Which nodes the source can reach: the exact pattern of nodes whose
/// forward potential the engine leaves finite, and in particular — through
/// its last entry — whether the engine must report `NoPath`.
pub fn reachable(n: usize, edges: &Vec<Edge>) -> (r: Vec<bool>)
    requires
        graph_ok(n, edges@),
    ensures
        r@.len() == n,
        forall|v: int| 0 <= v < n ==> r@[v] == reachable_spec(edges@, v),
{
    let mut r: Vec<bool> = Vec::new();
    r.push(true);
    let mut v: usize = 1;
    while v < n
        invariant
            1 <= v <= n,
            r@.len() == v,
            graph_ok(n, edges@),
            forall|u: int| 0 <= u < v ==> r@[u] == reachable_spec(edges@, u),
        decreases n - v,
    {
        let mut found = false;
        let mut k: usize = 0;
        while k < edges.len()
            invariant
                k <= edges@.len(),
                1 <= v < n,
                r@.len() == v,
                graph_ok(n, edges@),
                forall|u: int| 0 <= u < v ==> r@[u] == reachable_spec(edges@, u),
                found == exists|j: int|
                    0 <= j < k && ((#[trigger] edges@[j]).to as int) == v && (
                    edges@[j].from as int) < v && reachable_spec(edges@, edges@[j].from as int),
            decreases edges@.len() - k,
        {
            let e = edges[k];
            if e.to == v {
                assert(edge_ok(edges@[k as int], n));
                if r[e.from] {
                    found = true;
                }
            }
            k += 1;
        }
        r.push(found);
        v += 1;
    }
    r
}

} // verus!
