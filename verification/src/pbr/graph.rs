use vstd::prelude::*;
use std::collections::{HashMap, HashSet};
use vstd::std_specs::hash::{spec_hash_keys_iter, spec_hash_map_iter};
use vstd::std_specs::iter::IteratorSpec;

verus! {

/// Unique identifier for a shader graph node
#[derive(Clone, Copy, Debug, PartialEq, Eq, Hash, Structural)]
pub struct NodeId(pub u32);

impl Default for NodeId {
    fn default() -> (r: Self)
        ensures
            r.0 == 0,
    {
        NodeId(0)
    }
}

/// Unique identifier for a shader graph edge
#[derive(Clone, Copy, Debug, PartialEq, Eq, Hash, Structural)]
pub struct EdgeId(pub u32);

impl Default for EdgeId {
    fn default() -> (r: Self)
        ensures
            r.0 == 0,
    {
        EdgeId(0)
    }
}

/// Shader node value type
#[derive(Clone, Copy, Debug, PartialEq, Eq, Hash, Structural)]
pub enum ShaderNodeType {
    /// Float scalar
    Float,
    /// 2D vector
    Vec2,
    /// 3D vector
    Vec3,
    /// 4D vector
    Vec4,
    /// Color (RGBA)
    Color,
    /// Boolean
    Bool,
    /// Texture sampler
    Sampler,
    /// Void (no output)
    Void,
}

/// Edge connecting an output slot of one node to an input slot of another
#[derive(Clone, Copy, Debug, PartialEq, Eq, Structural)]
pub struct Edge {
    /// Edge identifier
    pub id: EdgeId,
    /// Source node (output)
    pub from: NodeId,
    /// Target node (input)
    pub to: NodeId,
    /// Output slot index on source node
    pub from_slot: u32,
    /// Input slot index on target node
    pub to_slot: u32,
}

/// Error when the graph has no topological order
#[derive(Clone, Copy, Debug, PartialEq, Eq, Structural)]
pub struct CycleError;

/// The connectivity of a shader graph: its name, the ids of its nodes, its
/// edges by id, and the next ids to hand out. Node payloads are kept by the
/// caller under the same ids.
#[derive(Debug)]
pub struct ShaderGraphTopology {
    name: String,
    nodes: HashSet<u32>,
    edges: HashMap<u32, Edge>,
    next_node_id: u32,
    next_edge_id: u32,
}

/// Whether an edge touches a node, at either end.
pub open spec fn touches(e: Edge, n: u32) -> bool {
    e.from.0 == n || e.to.0 == n
}

/// Whether an edge joins two nodes of the graph (an edge may name ids that
/// are not nodes; such an edge takes no part in the order).
pub open spec fn joins_nodes(nodes: Set<u32>, e: Edge) -> bool {
    nodes.contains(e.from.0) && nodes.contains(e.to.0)
}

/// `order` lists every node exactly once, and for every edge between two
/// nodes its source is listed before its target.
pub open spec fn is_topological_order(nodes: Set<u32>, edges: Map<u32, Edge>, order: Seq<NodeId>) -> bool {
    &&& order.no_duplicates()
    &&& forall|i: int| 0 <= i < order.len() ==> nodes.contains(#[trigger] order[i].0)
    &&& forall|n: u32| nodes.contains(n) ==> exists|i: int| 0 <= i < order.len() && #[trigger] order[i].0 == n
    &&& forall|k: u32| #![trigger edges[k]] edges.contains_key(k) && joins_nodes(nodes, edges[k]) ==> {
        forall|i: int, j: int| 0 <= i < order.len() && 0 <= j < order.len() && order[i].0 == edges[k].from.0
            && order[j].0 == edges[k].to.0 ==> i < j
    }
}

impl Clone for ShaderGraphTopology {
    fn clone(&self) -> (r: Self)
        ensures
            self.wf() ==> r.wf(),
            r.spec_name() == self.spec_name(),
            r.node_set() == self.node_set(),
            r.edge_map() == self.edge_map(),
            r.spec_next_node_id() == self.spec_next_node_id(),
            r.spec_next_edge_id() == self.spec_next_edge_id(),
    {
        broadcast use vstd::std_specs::hash::group_hash_axioms;
        let mut nodes: HashSet<u32> = HashSet::new();
        let ghost all = spec_hash_keys_iter(&self.nodes).remaining();
        for n in it: self.nodes.iter()
            invariant
                it.seq() == all,
                all == spec_hash_keys_iter(&self.nodes).remaining(),
                nodes@ == all.take(it.index() as int).unref().to_set(),
        {
            proof {
                assert(all.take(it.index() + 1).unref() == all.take(it.index() as int).unref().push(
                    *all[it.index() as int],
                ));
                all.take(it.index() as int).unref().lemma_push_to_set_commute(*all[it.index() as int]);
            }
            nodes.insert(*n);
        }
        assert(all.take(all.len() as int) == all);
        ShaderGraphTopology {
            name: self.name.clone(),
            nodes,
            edges: self.edges.clone(),
            next_node_id: self.next_node_id,
            next_edge_id: self.next_edge_id,
        }
    }
}

impl ShaderGraphTopology {
    /// The graph name
    pub closed spec fn spec_name(&self) -> Seq<char> {
        self.name@
    }

    /// The ids of the nodes
    pub closed spec fn node_set(&self) -> Set<u32> {
        self.nodes@
    }

    /// The edges by id
    pub closed spec fn edge_map(&self) -> Map<u32, Edge> {
        self.edges@
    }

    /// The id the next added node gets
    pub closed spec fn spec_next_node_id(&self) -> u32 {
        self.next_node_id
    }

    /// The id the next added edge gets
    pub closed spec fn spec_next_edge_id(&self) -> u32 {
        self.next_edge_id
    }

    /// Every node id and edge id was handed out before, and every edge is
    /// stored under its own id: then the next ids added are fresh. Every
    /// graph built by `new` and the operations below is so; one put together
    /// by `from_parts` is so when its parts are.
    pub closed spec fn wf(&self) -> bool {
        &&& forall|n: u32| #[trigger] self.nodes@.contains(n) ==> n < self.next_node_id
        &&& forall|k: u32| #[trigger] self.edges@.contains_key(k) ==> k < self.next_edge_id
            && self.edges@[k].id.0 == k
    }

    /// An empty graph with an empty name
    pub fn new() -> (r: Self)
        ensures
            r.wf(),
            r.spec_name() == Seq::<char>::empty(),
            r.node_set() == Set::<u32>::empty(),
            r.edge_map() == Map::<u32, Edge>::empty(),
            r.spec_next_node_id() == 0,
            r.spec_next_edge_id() == 0,
    {
        ShaderGraphTopology {
            name: String::new(),
            nodes: HashSet::new(),
            edges: HashMap::new(),
            next_node_id: 0,
            next_edge_id: 0,
        }
    }

    /// The graph name
    pub fn name(&self) -> (r: &str)
        ensures
            r@ == self.spec_name(),
    {
        self.name.as_str()
    }

    /// Set the graph name
    pub fn set_name(&mut self, name: String)
        ensures
            final(self).spec_name() == name@,
            final(self).node_set() == old(self).node_set(),
            final(self).edge_map() == old(self).edge_map(),
            final(self).spec_next_node_id() == old(self).spec_next_node_id(),
            final(self).spec_next_edge_id() == old(self).spec_next_edge_id(),
    {
        self.name = name;
    }

    /// Whether a node with this id is in the graph
    pub fn contains_node(&self, id: NodeId) -> (r: bool)
        ensures
            r == self.node_set().contains(id.0),
    {
        broadcast use vstd::std_specs::hash::group_hash_axioms;
        self.nodes.contains(&id.0)
    }

    /// Whether an edge with this id is in the graph
    pub fn contains_edge(&self, id: EdgeId) -> (r: bool)
        ensures
            r == self.edge_map().contains_key(id.0),
    {
        broadcast use vstd::std_specs::hash::group_hash_axioms;
        self.edges.contains_key(&id.0)
    }

    /// The edge with this id, if any
    pub fn edge(&self, id: EdgeId) -> (r: Option<Edge>)
        ensures
            r == (if self.edge_map().contains_key(id.0) { Some(self.edge_map()[id.0]) } else { None }),
    {
        broadcast use vstd::std_specs::hash::group_hash_axioms;
        match self.edges.get(&id.0) {
            Some(e) => Some(*e),
            None => None,
        }
    }

    /// The id the next added node gets
    pub fn next_node_id(&self) -> (r: u32)
        ensures
            r == self.spec_next_node_id(),
    {
        self.next_node_id
    }

    /// The id the next added edge gets
    pub fn next_edge_id(&self) -> (r: u32)
        ensures
            r == self.spec_next_edge_id(),
    {
        self.next_edge_id
    }

    /// The number of nodes
    pub fn node_count(&self) -> (r: usize)
        ensures
            r == self.node_set().len(),
    {
        broadcast use vstd::std_specs::hash::group_hash_axioms;
        self.nodes.len()
    }

    /// The number of edges
    pub fn edge_count(&self) -> (r: usize)
        ensures
            r == self.edge_map().len(),
    {
        broadcast use vstd::std_specs::hash::group_hash_axioms;
        self.edges.len()
    }

    /// Add a node under the next node id and return that id
    pub fn add_node(&mut self) -> (r: NodeId)
        requires
            old(self).spec_next_node_id() < u32::MAX,
        ensures
            old(self).wf() ==> final(self).wf(),
            r.0 == old(self).spec_next_node_id(),
            old(self).wf() ==> !old(self).node_set().contains(r.0),
            final(self).node_set() == old(self).node_set().insert(r.0),
            final(self).edge_map() == old(self).edge_map(),
            final(self).spec_next_node_id() == old(self).spec_next_node_id() + 1,
            final(self).spec_next_edge_id() == old(self).spec_next_edge_id(),
            final(self).spec_name() == old(self).spec_name(),
    {
        broadcast use vstd::std_specs::hash::group_hash_axioms;
        let id = self.next_node_id;
        self.next_node_id = self.next_node_id + 1;
        self.nodes.insert(id);
        proof {
            if old(self).wf() {
                assert forall|n: u32| self.nodes@.contains(n) implies n < self.next_node_id by {
                    if n != id {
                        assert(old(self).nodes@.contains(n));
                    }
                }
            }
        }
        NodeId(id)
    }

    /// Remove a node and every edge that touches it
    pub fn remove_node(&mut self, id: NodeId)
        ensures
            old(self).wf() ==> final(self).wf(),
            final(self).node_set() == old(self).node_set().remove(id.0),
            forall|k: u32| #[trigger] final(self).edge_map().contains_key(k) <==> old(self).edge_map().contains_key(k)
                && !touches(old(self).edge_map()[k], id.0),
            forall|k: u32| #[trigger] final(self).edge_map().contains_key(k) ==> final(self).edge_map()[k]
                == old(self).edge_map()[k],
            final(self).spec_next_node_id() == old(self).spec_next_node_id(),
            final(self).spec_next_edge_id() == old(self).spec_next_edge_id(),
            final(self).spec_name() == old(self).spec_name(),
    {
        broadcast use vstd::std_specs::hash::group_hash_axioms;
        self.nodes.remove(&id.0);
        let mut doomed: Vec<u32> = Vec::new();
        let ghost all = spec_hash_map_iter(&self.edges).remaining();
        for entry in it: self.edges.iter()
            invariant
                it.seq() == all,
                all == spec_hash_map_iter(&self.edges).remaining(),
                forall|j: int| 0 <= j < doomed@.len() ==> self.edges@.contains_key(#[trigger] doomed@[j])
                    && touches(self.edges@[doomed@[j]], id.0),
                forall|i: int| 0 <= i < it.index() && touches(*all[i].1, id.0) ==> exists|j: int|
                    0 <= j < doomed@.len() && doomed@[j] == *(#[trigger] all[i]).0,
        {
            let (k, e) = entry;
            proof {
                assert(*k == *all[it.index() as int].0 && *e == *all[it.index() as int].1);
                assert(self.edges@.contains_key(*k) && self.edges@[*k] == *e);
            }
            let ghost prev = doomed@;
            if e.from.0 == id.0 || e.to.0 == id.0 {
                doomed.push(*k);
            }
            proof {
                assert forall|i: int| 0 <= i < it.index() + 1 && touches(*all[i].1, id.0) implies exists|j: int|
                    0 <= j < doomed@.len() && doomed@[j] == *(#[trigger] all[i]).0 by {
                    if i < it.index() {
                        let j = choose|j: int| 0 <= j < prev.len() && prev[j] == *all[i].0;
                        assert(doomed@[j] == prev[j]);
                    } else {
                        assert(doomed@[doomed@.len() - 1] == *k);
                    }
                }
            }
        }
        let ghost before = self.edges@;
        assert forall|k: u32| before.contains_key(k) && touches(before[k], id.0) implies exists|j: int|
            0 <= j < doomed@.len() && doomed@[j] == k by {
            assert(all.contains((&k, &before[k])));
            let i = choose|i: int| 0 <= i < all.len() && all[i] == (&k, &before[k]);
            assert(touches(*all[i].1, id.0));
        }
        let n = doomed.len();
        let mut i: usize = 0;
        while i < n
            invariant
                n == doomed@.len(),
                i <= n,
                self.nodes@ == old(self).nodes@.remove(id.0),
                self.next_node_id == old(self).next_node_id,
                self.next_edge_id == old(self).next_edge_id,
                self.name == old(self).name,
                before == old(self).edges@,
                forall|j: int| 0 <= j < doomed@.len() ==> before.contains_key(#[trigger] doomed@[j])
                    && touches(before[doomed@[j]], id.0),
                forall|k: u32| #[trigger] self.edges@.contains_key(k) <==> before.contains_key(k)
                    && forall|j: int| 0 <= j < i ==> doomed@[j] != k,
                forall|k: u32| #[trigger] self.edges@.contains_key(k) ==> self.edges@[k] == before[k],
            decreases n - i,
        {
            let k = doomed[i];
            self.edges.remove(&k);
            i += 1;
        }
        proof {
            if old(self).wf() {
                assert forall|n: u32| self.nodes@.contains(n) implies n < self.next_node_id by {
                    assert(old(self).nodes@.contains(n));
                }
                assert forall|k: u32| #[trigger] self.edges@.contains_key(k) implies k < self.next_edge_id
                    && self.edges@[k].id.0 == k by {
                    assert(old(self).edges@.contains_key(k));
                }
            }
        }
        assert forall|k: u32| #[trigger] self.edges@.contains_key(k) <==> old(self).edges@.contains_key(k)
            && !touches(old(self).edges@[k], id.0) by {
            if old(self).edges@.contains_key(k) && touches(old(self).edges@[k], id.0) {
                let j = choose|j: int| 0 <= j < doomed@.len() && doomed@[j] == k;
            }
        }
    }

    /// Add an edge under the next edge id and return that id. The end points
    /// need not be nodes of the graph.
    pub fn add_edge(&mut self, from: NodeId, to: NodeId, from_slot: u32, to_slot: u32) -> (r: EdgeId)
        requires
            old(self).spec_next_edge_id() < u32::MAX,
        ensures
            old(self).wf() ==> final(self).wf(),
            r.0 == old(self).spec_next_edge_id(),
            old(self).wf() ==> !old(self).edge_map().contains_key(r.0),
            final(self).edge_map() == old(self).edge_map().insert(
                r.0,
                Edge { id: r, from, to, from_slot, to_slot },
            ),
            final(self).node_set() == old(self).node_set(),
            final(self).spec_next_node_id() == old(self).spec_next_node_id(),
            final(self).spec_next_edge_id() == old(self).spec_next_edge_id() + 1,
            final(self).spec_name() == old(self).spec_name(),
    {
        broadcast use vstd::std_specs::hash::group_hash_axioms;
        let id = EdgeId(self.next_edge_id);
        self.next_edge_id = self.next_edge_id + 1;
        let edge = Edge { id, from, to, from_slot, to_slot };
        self.edges.insert(id.0, edge);
        proof {
            if old(self).wf() {
                assert forall|k: u32| #[trigger] self.edges@.contains_key(k) implies k < self.next_edge_id
                    && self.edges@[k].id.0 == k by {
                    if k != id.0 {
                        assert(old(self).edges@.contains_key(k));
                    }
                }
            }
        }
        id
    }

    /// Remove an edge
    pub fn remove_edge(&mut self, id: EdgeId)
        ensures
            old(self).wf() ==> final(self).wf(),
            final(self).edge_map() == old(self).edge_map().remove(id.0),
            final(self).node_set() == old(self).node_set(),
            final(self).spec_next_node_id() == old(self).spec_next_node_id(),
            final(self).spec_next_edge_id() == old(self).spec_next_edge_id(),
            final(self).spec_name() == old(self).spec_name(),
    {
        broadcast use vstd::std_specs::hash::group_hash_axioms;
        self.edges.remove(&id.0);
        proof {
            if old(self).wf() {
                assert forall|k: u32| #[trigger] self.edges@.contains_key(k) implies k < self.next_edge_id
                    && self.edges@[k].id.0 == k by {
                    assert(old(self).edges@.contains_key(k));
                }
            }
        }
    }
}

/// The edges stored under the given ids, in order: a later entry replaces
/// an earlier one with the same id.
pub open spec fn edges_by_key(entries: Seq<(u32, Edge)>) -> Map<u32, Edge>
    decreases entries.len(),
{
    if entries.len() == 0 {
        Map::empty()
    } else {
        edges_by_key(entries.drop_last()).insert(entries.last().0, entries.last().1)
    }
}

/// Each edge paired with its own id
pub open spec fn keyed_by_own_id(es: Seq<Edge>) -> Seq<(u32, Edge)> {
    es.map_values(|e: Edge| (e.id.0, e))
}

/// Storing edges under their own ids is storing them by id.
pub proof fn lemma_keyed_by_own_id(es: Seq<Edge>)
    ensures
        edges_by_key(keyed_by_own_id(es)) == edges_by_id(es),
    decreases es.len(),
{
    if es.len() > 0 {
        assert(keyed_by_own_id(es).drop_last() =~= keyed_by_own_id(es.drop_last()));
        lemma_keyed_by_own_id(es.drop_last());
    }
}

/// The edges stored under their ids, in order: a later edge replaces an
/// earlier one with the same id.
pub open spec fn edges_by_id(edges: Seq<Edge>) -> Map<u32, Edge>
    decreases edges.len(),
{
    if edges.len() == 0 {
        Map::empty()
    } else {
        edges_by_id(edges.drop_last()).insert(edges.last().id.0, edges.last())
    }
}

/// When every listed edge is the one stored under its id in `m`, and every
/// stored edge is listed, storing the list by id gives back `m`.
pub proof fn lemma_edges_by_id_of_listing(m: Map<u32, Edge>, es: Seq<Edge>)
    requires
        forall|i: int| 0 <= i < es.len() ==> m.contains_key((#[trigger] es[i]).id.0) && m[es[i].id.0] == es[i],
        forall|k: u32| #[trigger] m.contains_key(k) ==> exists|i: int| 0 <= i < es.len() && es[i].id.0 == k,
    ensures
        edges_by_id(es) == m,
{
    lemma_edges_by_id_sub(m, es);
    assert forall|k: u32| #[trigger] m.contains_key(k) implies edges_by_id(es).contains_key(k) by {
        let i = choose|i: int| 0 <= i < es.len() && es[i].id.0 == k;
        lemma_edges_by_id_has(es, i);
    }
    assert(edges_by_id(es) =~= m);
}

proof fn lemma_edges_by_id_sub(m: Map<u32, Edge>, es: Seq<Edge>)
    requires
        forall|i: int| 0 <= i < es.len() ==> m.contains_key((#[trigger] es[i]).id.0) && m[es[i].id.0] == es[i],
    ensures
        forall|k: u32| #[trigger] edges_by_id(es).contains_key(k) ==> m.contains_key(k) && edges_by_id(es)[k] == m[k],
    decreases es.len(),
{
    if es.len() > 0 {
        let p = es.drop_last();
        assert forall|i: int| 0 <= i < p.len() implies m.contains_key((#[trigger] p[i]).id.0) && m[p[i].id.0] == p[i] by {
            assert(p[i] == es[i]);
        }
        lemma_edges_by_id_sub(m, p);
        let l = es[es.len() - 1];
        assert(es.last() == l);
        assert(m.contains_key(l.id.0) && m[l.id.0] == l);
        assert(edges_by_id(es) == edges_by_id(p).insert(l.id.0, l));
        assert forall|k: u32| #[trigger] edges_by_id(es).contains_key(k) implies m.contains_key(k) && edges_by_id(es)[k] == m[k] by {
            if k != l.id.0 {
                assert(edges_by_id(p).contains_key(k));
            }
        }
    }
}

proof fn lemma_edges_by_id_has(es: Seq<Edge>, i: int)
    requires
        0 <= i < es.len(),
    ensures
        edges_by_id(es).contains_key(es[i].id.0),
    decreases es.len(),
{
    if i < es.len() - 1 {
        lemma_edges_by_id_has(es.drop_last(), i);
        assert(es.drop_last()[i] == es[i]);
    }
}

/// `e` is stored in `edges` under some id.
pub open spec fn is_edge_of(edges: Map<u32, Edge>, e: Edge) -> bool {
    exists|k: u32| edges.contains_key(k) && edges[k] == e
}

impl ShaderGraphTopology {
    /// The node ids, each once, in no fixed order
    pub fn node_list(&self) -> (ns: Vec<u32>)
        ensures
            ns@.no_duplicates(),
            forall|i: int| 0 <= i < ns@.len() ==> self.node_set().contains(#[trigger] ns@[i]),
            forall|n: u32| #[trigger] self.node_set().contains(n) ==> exists|i: int| 0 <= i < ns@.len() && ns@[i] == n,
    {
        broadcast use vstd::std_specs::hash::group_hash_axioms;
        let mut out: Vec<u32> = Vec::new();
        let ghost all = spec_hash_keys_iter(&self.nodes).remaining();
        for n in it: self.nodes.iter()
            invariant
                it.seq() == all,
                all == spec_hash_keys_iter(&self.nodes).remaining(),
                out@ == all.take(it.index() as int).unref(),
        {
            proof {
                assert(all.take(it.index() + 1).unref() == all.take(it.index() as int).unref().push(
                    *all[it.index() as int],
                ));
            }
            out.push(*n);
        }
        proof {
            assert(all.take(all.len() as int) == all);
            assert forall|i: int, j: int| 0 <= i < j < out@.len() implies out@[i] != out@[j] by {
                assert(all[i] != all[j]);
            }
            assert forall|i: int| 0 <= i < out@.len() implies self.nodes@.contains(#[trigger] out@[i]) by {
                assert(all.unref().to_set().contains(out@[i]));
            }
            assert forall|n: u32| #[trigger] self.nodes@.contains(n) implies exists|i: int| 0 <= i < out@.len() && out@[i] == n by {
                assert(all.unref().to_set().contains(n));
            }
        }
        out
    }

    /// The edges, each once, in no fixed order
    pub fn edge_list(&self) -> (es: Vec<Edge>)
        ensures
            es@.len() == self.edge_map().len(),
            forall|i: int| 0 <= i < es@.len() ==> #[trigger] is_edge_of(self.edge_map(), es@[i]),
            forall|k: u32| #[trigger] self.edge_map().contains_key(k) ==> exists|i: int| 0 <= i < es@.len() && es@[i] == self.edge_map()[k],
    {
        broadcast use vstd::std_specs::hash::group_hash_axioms;
        let mut out: Vec<Edge> = Vec::new();
        let ghost all = spec_hash_map_iter(&self.edges).remaining();
        for entry in it: self.edges.iter()
            invariant
                it.seq() == all,
                all == spec_hash_map_iter(&self.edges).remaining(),
                out@.len() == it.index(),
                forall|i: int| 0 <= i < it.index() ==> out@[i] == *(#[trigger] all[i]).1,
        {
            let (_k, e) = entry;
            proof {
                assert(*e == *all[it.index() as int].1);
            }
            out.push(*e);
        }
        proof {
            assert(out@.len() == self.edges@.dom().len());
            assert forall|i: int| 0 <= i < out@.len() implies #[trigger] is_edge_of(self.edges@, out@[i]) by {
                assert(out@[i] == *all[i].1);
                let k = *all[i].0;
                assert(self.edges@.contains_key(k) && self.edges@[k] == *all[i].1);
            }
            assert forall|k: u32| #[trigger] self.edges@.contains_key(k) implies exists|i: int| 0 <= i < out@.len() && out@[i] == self.edges@[k] by {
                assert(all.contains((&k, &self.edges@[k])));
                let i = choose|i: int| 0 <= i < all.len() && all[i] == (&k, &self.edges@[k]);
                assert(out@[i] == *all[i].1);
            }
        }
        out
    }
}

impl ShaderGraphTopology {
    /// A graph from its parts: name, node ids, edges with the ids they are
    /// stored under (a later entry replaces an earlier one under the same
    /// id), and the next ids to hand out. The graph is well-formed when every
    /// id was handed out before the next ids and every edge is stored under
    /// its own id.
    pub fn from_parts(
        name: String,
        nodes: Vec<u32>,
        edges: Vec<(u32, Edge)>,
        next_node_id: u32,
        next_edge_id: u32,
    ) -> (r: Self)
        ensures
            r.spec_name() == name@,
            r.node_set() == nodes@.to_set(),
            r.edge_map() == edges_by_key(edges@),
            r.spec_next_node_id() == next_node_id,
            r.spec_next_edge_id() == next_edge_id,
            r.wf() <==> (forall|n: u32| #[trigger] r.node_set().contains(n) ==> n < next_node_id) && (
            forall|k: u32| #[trigger] r.edge_map().contains_key(k) ==> k < next_edge_id
                && r.edge_map()[k].id.0 == k),
    {
        broadcast use vstd::std_specs::hash::group_hash_axioms;

        let mut node_set: HashSet<u32> = HashSet::new();
        let n = nodes.len();
        let mut i: usize = 0;
        while i < n
            invariant
                n == nodes@.len(),
                0 <= i <= n,
                node_set@ == nodes@.take(i as int).to_set(),
            decreases n - i,
        {
            let id = nodes[i];
            proof {
                assert(nodes@.take(i as int + 1) == nodes@.take(i as int).push(id));
                nodes@.take(i as int).lemma_push_to_set_commute(id);
            }
            node_set.insert(id);
            i += 1;
        }
        proof {
            assert(nodes@.take(n as int) == nodes@);
        }
        let mut edge_map: HashMap<u32, Edge> = HashMap::new();
        let m = edges.len();
        let mut j: usize = 0;
        while j < m
            invariant
                m == edges@.len(),
                0 <= j <= m,
                edge_map@ == edges_by_key(edges@.take(j as int)),
            decreases m - j,
        {
            let (k, e) = edges[j];
            proof {
                assert(edges@.take(j as int + 1).drop_last() == edges@.take(j as int));
            }
            edge_map.insert(k, e);
            j += 1;
        }
        proof {
            assert(edges@.take(m as int) == edges@);
        }
        let t = ShaderGraphTopology { name, nodes: node_set, edges: edge_map, next_node_id, next_edge_id };
        proof {
            let a = forall|n: u32| #[trigger] t.node_set().contains(n) ==> n < next_node_id;
            let b = forall|k: u32| #[trigger] t.edge_map().contains_key(k) ==> k < next_edge_id
                && t.edge_map()[k].id.0 == k;
            if a && b {
                assert forall|n: u32| #[trigger] t.nodes@.contains(n) implies n < t.next_node_id by {
                    assert(t.node_set().contains(n));
                }
                assert forall|k: u32| #[trigger] t.edges@.contains_key(k) implies k < t.next_edge_id
                    && t.edges@[k].id.0 == k by {
                    assert(t.edge_map().contains_key(k));
                }
            }
            if t.wf() {
                assert forall|n: u32| #[trigger] t.node_set().contains(n) implies n < next_node_id by {
                    assert(t.nodes@.contains(n));
                }
                assert forall|k: u32| #[trigger] t.edge_map().contains_key(k) implies k < next_edge_id
                    && t.edge_map()[k].id.0 == k by {
                    assert(t.edges@.contains_key(k));
                }
            }
        }
        t
    }
}

/// Listing a well-formed graph's nodes and edges and putting them back
/// together with `from_parts` (each edge under its own id, with the same
/// name and next ids) gives the same, still well-formed, graph.
pub proof fn lemma_parts_roundtrip(t: ShaderGraphTopology, ns: Seq<u32>, es: Seq<Edge>)
    requires
        t.wf(),
        forall|i: int| 0 <= i < ns.len() ==> t.node_set().contains(#[trigger] ns[i]),
        forall|n: u32| #[trigger] t.node_set().contains(n) ==> exists|i: int| 0 <= i < ns.len() && ns[i] == n,
        forall|i: int| 0 <= i < es.len() ==> #[trigger] is_edge_of(t.edge_map(), es[i]),
        forall|k: u32| #[trigger] t.edge_map().contains_key(k) ==> exists|i: int| 0 <= i < es.len() && es[i] == t.edge_map()[k],
    ensures
        forall|i: int| 0 <= i < ns.len() ==> #[trigger] ns[i] < t.spec_next_node_id(),
        forall|i: int| 0 <= i < es.len() ==> (#[trigger] es[i]).id.0 < t.spec_next_edge_id(),
        ns.to_set() == t.node_set(),
        edges_by_key(keyed_by_own_id(es)) == t.edge_map(),
{
    lemma_keyed_by_own_id(es);
    let m = t.edge_map();
    assert forall|i: int| 0 <= i < es.len() implies m.contains_key((#[trigger] es[i]).id.0) && m[es[i].id.0] == es[i] by {
        assert(is_edge_of(m, es[i]));
        let k = choose|k: u32| m.contains_key(k) && m[k] == es[i];
        assert(t.edges@.contains_key(k));
    }
    assert forall|k: u32| #[trigger] m.contains_key(k) implies exists|i: int| 0 <= i < es.len() && es[i].id.0 == k by {
        assert(t.edges@.contains_key(k));
        let i = choose|i: int| 0 <= i < es.len() && es[i] == m[k];
        assert(es[i].id.0 == k);
    }
    lemma_edges_by_id_of_listing(m, es);
    assert forall|i: int| 0 <= i < ns.len() implies #[trigger] ns[i] < t.spec_next_node_id() by {
        assert(t.nodes@.contains(ns[i]));
    }
    assert forall|i: int| 0 <= i < es.len() implies (#[trigger] es[i]).id.0 < t.spec_next_edge_id() by {
        assert(t.edges@.contains_key(es[i].id.0));
    }
    assert(ns.to_set() =~= t.node_set());
}


impl ShaderGraphTopology {
    /// The edges that join two nodes, in no fixed order
    fn inner_edges(&self) -> (es: Vec<Edge>)
        ensures
            forall|i: int| 0 <= i < es@.len() ==> #[trigger] is_edge_of(self.edges@, es@[i]) && joins_nodes(
                self.nodes@,
                es@[i],
            ),
            forall|k: u32| #[trigger] self.edges@.contains_key(k) && joins_nodes(self.nodes@, self.edges@[k])
                ==> exists|i: int| 0 <= i < es@.len() && es@[i] == self.edges@[k],
    {
        broadcast use vstd::std_specs::hash::group_hash_axioms;
        let all = self.edge_list();
        let n = all.len();
        let mut out: Vec<Edge> = Vec::new();
        proof {
            assert forall|j: int| 0 <= j < all@.len() implies #[trigger] is_edge_of(self.edges@, all@[j]) by {
                assert(is_edge_of(self.edge_map(), all@[j]));
            }
        }
        let mut i: usize = 0;
        while i < n
            invariant
                n == all@.len(),
                0 <= i <= n,
                forall|j: int| 0 <= j < all@.len() ==> #[trigger] is_edge_of(self.edges@, all@[j]),
                forall|j: int| 0 <= j < out@.len() ==> #[trigger] is_edge_of(self.edges@, out@[j]) && joins_nodes(
                    self.nodes@,
                    out@[j],
                ),
                forall|j: int| 0 <= j < i && joins_nodes(self.nodes@, #[trigger] all@[j]) ==> exists|m: int|
                    0 <= m < out@.len() && out@[m] == all@[j],
            decreases n - i,
        {
            let e = all[i];
            let ghost before = out@;
            if self.nodes.contains(&e.from.0) && self.nodes.contains(&e.to.0) {
                out.push(e);
                proof {
                    assert(out@[before.len() as int] == e);
                }
            }
            proof {
                assert forall|j: int| 0 <= j < i + 1 && joins_nodes(self.nodes@, #[trigger] all@[j]) implies exists|m: int|
                    0 <= m < out@.len() && out@[m] == all@[j] by {
                    if j < i {
                        let m = choose|m: int| 0 <= m < before.len() && before[m] == all@[j];
                        assert(out@[m] == before[m]);
                    } else {
                        assert(out@[before.len() as int] == e);
                    }
                }
            }
            i += 1;
        }
        proof {
            assert forall|k: u32| #[trigger] self.edges@.contains_key(k) && joins_nodes(self.nodes@, self.edges@[k])
                implies exists|i: int| 0 <= i < out@.len() && out@[i] == self.edges@[k] by {
                assert(self.edge_map().contains_key(k));
                let j = choose|j: int| 0 <= j < all@.len() && all@[j] == self.edge_map()[k];
                assert(joins_nodes(self.nodes@, all@[j]));
            }
        }
        out
    }
}

/// Where each node id stands in `ns`.
fn position_map(ns: &Vec<u32>) -> (pos: HashMap<u32, usize>)
    requires
        ns@.no_duplicates(),
    ensures
        forall|i: int| 0 <= i < ns@.len() ==> pos@.contains_key(#[trigger] ns@[i]) && pos@[ns@[i]] == i,
        forall|x: u32| #[trigger] pos@.contains_key(x) ==> pos@[x] < ns@.len() && ns@[pos@[x] as int] == x,
{
    broadcast use vstd::std_specs::hash::group_hash_axioms;
    let mut pos: HashMap<u32, usize> = HashMap::new();
    let n = ns.len();
    let mut i: usize = 0;
    while i < n
        invariant
            n == ns@.len(),
            i <= n,
            ns@.no_duplicates(),
            forall|j: int| 0 <= j < i ==> pos@.contains_key(#[trigger] ns@[j]) && pos@[ns@[j]] == j,
            forall|x: u32| #[trigger] pos@.contains_key(x) ==> pos@[x] < i && ns@[pos@[x] as int] == x,
        decreases n - i,
    {
        pos.insert(ns[i], i);
        proof {
            assert forall|j: int| 0 <= j < i + 1 implies pos@.contains_key(#[trigger] ns@[j]) && pos@[ns@[j]] == j by {
                if j < i {
                    assert(ns@[j] != ns@[i as int]);
                }
            }
        }
        i += 1;
    }
    pos
}

/// How many of the indices `0 .. n` satisfy `p`.
pub open spec fn count_where(p: spec_fn(int) -> bool, n: int) -> nat
    decreases n,
{
    if n <= 0 {
        0
    } else {
        count_where(p, n - 1) + if p(n - 1) { 1nat } else { 0nat }
    }
}

proof fn lemma_count_ext(p: spec_fn(int) -> bool, q: spec_fn(int) -> bool, n: int)
    requires
        forall|k: int| 0 <= k < n ==> #[trigger] p(k) == q(k),
    ensures
        count_where(p, n) == count_where(q, n),
    decreases n,
{
    if n > 0 {
        lemma_count_ext(p, q, n - 1);
    }
}

proof fn lemma_count_drop_one(p: spec_fn(int) -> bool, q: spec_fn(int) -> bool, n: int, k0: int)
    requires
        0 <= k0 < n,
        p(k0),
        !q(k0),
        forall|k: int| 0 <= k < n && k != k0 ==> #[trigger] p(k) == q(k),
    ensures
        count_where(q, n) + 1 == count_where(p, n),
    decreases n,
{
    if n - 1 == k0 {
        lemma_count_ext(p, q, n - 1);
    } else {
        lemma_count_drop_one(p, q, n - 1, k0);
    }
}

proof fn lemma_count_positive(p: spec_fn(int) -> bool, n: int) -> (k: int)
    requires
        count_where(p, n) > 0,
    ensures
        0 <= k < n,
        p(k),
    decreases n,
{
    if p(n - 1) {
        n - 1
    } else {
        lemma_count_positive(p, n - 1)
    }
}

proof fn lemma_count_bound(p: spec_fn(int) -> bool, n: int)
    requires
        n >= 0,
    ensures
        count_where(p, n) <= n,
        count_where(p, n) == n ==> forall|k: int| 0 <= k < n ==> #[trigger] p(k),
        (forall|k: int| 0 <= k < n ==> #[trigger] p(k)) ==> count_where(p, n) == n,
    decreases n,
{
    if n > 0 {
        lemma_count_bound(p, n - 1);
    }
}

/// The edges (by index into `es`) that come into `target` from a node not in `done`.
pub open spec fn pending_into(es: Seq<Edge>, target: u32, done: Set<u32>) -> spec_fn(int) -> bool {
    |k: int| 0 <= k < es.len() && es[k].to.0 == target && !done.contains(es[k].from.0)
}

/// The indices below `n` of the edges that leave `src`, in increasing order.
pub open spec fn edges_from(es: Seq<Edge>, src: u32, n: int) -> Seq<usize>
    decreases n,
{
    if n <= 0 {
        Seq::empty()
    } else if es[n - 1].from.0 == src {
        edges_from(es, src, n - 1).push((n - 1) as usize)
    } else {
        edges_from(es, src, n - 1)
    }
}

proof fn lemma_edges_from(es: Seq<Edge>, src: u32, n: int)
    requires
        0 <= n <= es.len(),
        n <= usize::MAX,
    ensures
        forall|j: int| 0 <= j < edges_from(es, src, n).len() ==> (#[trigger] edges_from(es, src, n)[j]) < n
            && es[edges_from(es, src, n)[j] as int].from.0 == src,
        forall|j1: int, j2: int| 0 <= j1 < j2 < edges_from(es, src, n).len() ==> edges_from(es, src, n)[j1]
            < edges_from(es, src, n)[j2],
        forall|k: int| 0 <= k < n && (#[trigger] es[k]).from.0 == src ==> exists|j: int|
            0 <= j < edges_from(es, src, n).len() && edges_from(es, src, n)[j] == k,
    decreases n,
{
    if n > 0 {
        lemma_edges_from(es, src, n - 1);
        let prev = edges_from(es, src, n - 1);
        if es[n - 1].from.0 == src {
            let cur = prev.push((n - 1) as usize);
            assert(cur == edges_from(es, src, n));
            assert forall|k: int| 0 <= k < n && (#[trigger] es[k]).from.0 == src implies exists|j: int|
                0 <= j < cur.len() && cur[j] == k by {
                if k == n - 1 {
                    assert(cur[prev.len() as int] == k);
                } else {
                    let j = choose|j: int| 0 <= j < prev.len() && prev[j] == k;
                    assert(cur[j] == k);
                }
            }
        } else {
            assert(prev == edges_from(es, src, n));
            assert forall|k: int| 0 <= k < n && (#[trigger] es[k]).from.0 == src implies exists|j: int|
                0 <= j < prev.len() && prev[j] == k by {
                assert(k < n - 1);
            }
        }
    }
}

/// The first entry of `order` whose node is not in `done`, given that `i0` is one.
proof fn lemma_first_outside(order: Seq<NodeId>, done: Set<u32>, i0: int) -> (i: int)
    requires
        0 <= i0 < order.len(),
        !done.contains(order[i0].0),
    ensures
        0 <= i <= i0,
        !done.contains(order[i].0),
        forall|j: int| 0 <= j < i ==> done.contains(#[trigger] order[j].0),
    decreases i0,
{
    if forall|j: int| 0 <= j < i0 ==> done.contains(#[trigger] order[j].0) {
        i0
    } else {
        let j = choose|j: int| 0 <= j < i0 && !done.contains(#[trigger] order[j].0);
        lemma_first_outside(order, done, j)
    }
}

/// The positions in `done` that are set.
pub open spec fn set_positions(done: Seq<bool>) -> spec_fn(int) -> bool {
    |p: int| 0 <= p < done.len() && done[p]
}

/// For each node position: how many edges come into it, and the indices of
/// the edges that leave it.
fn initial_counts(ns: &Vec<u32>, es: &Vec<Edge>, pos: &HashMap<u32, usize>) -> (res: (Vec<usize>, Vec<Vec<usize>>))
    requires
        ns@.no_duplicates(),
        forall|i: int| 0 <= i < ns@.len() ==> pos@.contains_key(#[trigger] ns@[i]) && pos@[ns@[i]] == i,
        forall|x: u32| #[trigger] pos@.contains_key(x) ==> pos@[x] < ns@.len() && ns@[pos@[x] as int] == x,
    ensures
        res.0@.len() == ns@.len(),
        res.1@.len() == ns@.len(),
        forall|p: int| 0 <= p < ns@.len() ==> #[trigger] res.0@[p] == count_where(
            pending_into(es@, ns@[p], Set::empty()),
            es@.len() as int,
        ),
        forall|p: int| 0 <= p < ns@.len() ==> (#[trigger] res.1@[p])@ == edges_from(es@, ns@[p], es@.len() as int),
{
    broadcast use vstd::std_specs::hash::group_hash_axioms;
    let nv = ns.len();
    let ne = es.len();
    let mut c: Vec<usize> = Vec::new();
    let mut deps: Vec<Vec<usize>> = Vec::new();
    let mut p: usize = 0;
    while p < nv
        invariant
            nv == ns@.len(),
            p <= nv,
            c@.len() == p,
            deps@.len() == p,
            forall|q: int| 0 <= q < p ==> #[trigger] c@[q] == 0,
            forall|q: int| 0 <= q < p ==> (#[trigger] deps@[q])@ == Seq::<usize>::empty(),
        decreases nv - p,
    {
        c.push(0);
        deps.push(Vec::new());
        p += 1;
    }
    let mut k: usize = 0;
    while k < ne
        invariant
            nv == ns@.len(),
            ne == es@.len(),
            k <= ne,
            c@.len() == nv,
            deps@.len() == nv,
            ns@.no_duplicates(),
            forall|i: int| 0 <= i < ns@.len() ==> pos@.contains_key(#[trigger] ns@[i]) && pos@[ns@[i]] == i,
            forall|x: u32| #[trigger] pos@.contains_key(x) ==> pos@[x] < ns@.len() && ns@[pos@[x] as int] == x,
            forall|q: int| 0 <= q < nv ==> #[trigger] c@[q] == count_where(
                pending_into(es@, ns@[q], Set::empty()),
                k as int,
            ),
            forall|q: int| 0 <= q < nv ==> (#[trigger] deps@[q])@ == edges_from(es@, ns@[q], k as int),
        decreases ne - k,
    {
        let e = es[k];
        let ghost c0 = c@;
        let ghost d0 = deps@;
            match pos.get(&e.to.0) {
            Some(pt) => {
                let pt = *pt;
                proof {
                    lemma_count_bound(pending_into(es@, ns@[pt as int], Set::empty()), k as int);
                }
                c.set(pt, c[pt] + 1);
            },
            None => {},
        }
        match pos.get(&e.from.0) {
            Some(pf) => {
                deps[*pf].push(k);
            },
            None => {},
        }
        proof {
            assert forall|q: int| 0 <= q < nv implies #[trigger] c@[q] == count_where(
                pending_into(es@, ns@[q], Set::empty()),
                k + 1,
            ) by {
                let pend = pending_into(es@, ns@[q], Set::empty());
                assert(count_where(pend, k + 1) == count_where(pend, k as int) + if pend(k as int) { 1nat } else { 0nat });
                if pos@.contains_key(e.to.0) && pos@[e.to.0] == q {
                    assert(pend(k as int));
                } else {
                    assert(!pend(k as int));
                    assert(c@[q] == c0[q]);
                }
            }
            assert forall|q: int| 0 <= q < nv implies (#[trigger] deps@[q])@ == edges_from(es@, ns@[q], k + 1) by {
                if pos@.contains_key(e.from.0) && pos@[e.from.0] == q {
                    assert(es@[k as int].from.0 == ns@[q]);
                } else {
                    assert(es@[k as int].from.0 != ns@[q]);
                    assert(deps@[q] == d0[q]);
                }
            }
        }
        k += 1;
    }
    (c, deps)
}

/// `pending_into`, leaving out the edges listed in `skip`.
pub open spec fn pending_except(es: Seq<Edge>, target: u32, done: Set<u32>, skip: Seq<usize>) -> spec_fn(int) -> bool {
    |k: int| pending_into(es, target, done)(k) && !skip.contains(k as usize)
}

/// The positions waiting in `stack` are exactly the unfinished ones whose
/// count is zero, each once.
pub open spec fn stack_ok(stack: Seq<usize>, c: Seq<usize>, done: Seq<bool>) -> bool {
    &&& stack.no_duplicates()
    &&& forall|j: int| 0 <= j < stack.len() ==> (#[trigger] stack[j]) < done.len() && !done[stack[j] as int]
        && c[stack[j] as int] == 0
    &&& forall|p: int| 0 <= p < done.len() && !done[p] && #[trigger] c[p] == 0 ==> stack.contains(p as usize)
}

/// After the node at position `u` is finished, take each edge leaving it off
/// the count of its target, and queue every target whose count drops to zero.
fn release_dependents(
    c: &mut Vec<usize>,
    stack: &mut Vec<usize>,
    done: &Vec<bool>,
    deps_u: &Vec<usize>,
    es: &Vec<Edge>,
    ns: &Vec<u32>,
    pos: &HashMap<u32, usize>,
    Ghost(finished): Ghost<Set<u32>>,
    u: usize,
)
    requires
        ns@.no_duplicates(),
        forall|i: int| 0 <= i < ns@.len() ==> pos@.contains_key(#[trigger] ns@[i]) && pos@[ns@[i]] == i,
        forall|x: u32| #[trigger] pos@.contains_key(x) ==> pos@[x] < ns@.len() && ns@[pos@[x] as int] == x,
        es@.len() <= usize::MAX,
        done@.len() == ns@.len(),
        old(c)@.len() == ns@.len(),
        u < ns@.len(),
        done@[u as int],
        !finished.contains(ns@[u as int]),
        forall|p: int| 0 <= p < ns@.len() ==> (#[trigger] done@[p] <==> finished.insert(ns@[u as int]).contains(ns@[p])),
        deps_u@ == edges_from(es@, ns@[u as int], es@.len() as int),
        forall|p: int| 0 <= p < ns@.len() && !done@[p] ==> #[trigger] old(c)@[p] == count_where(
            pending_into(es@, ns@[p], finished),
            es@.len() as int,
        ),
        stack_ok(old(stack)@, old(c)@, done@),
    ensures
        final(c)@.len() == ns@.len(),
        forall|p: int| 0 <= p < ns@.len() && !done@[p] ==> #[trigger] final(c)@[p] == count_where(
            pending_into(es@, ns@[p], finished.insert(ns@[u as int])),
            es@.len() as int,
        ),
        stack_ok(final(stack)@, final(c)@, done@),
{
    broadcast use vstd::std_specs::hash::group_hash_axioms;
    let ghost nv = ns@.len();
    let ghost ne = es@.len() as int;
    let ghost src = ns@[u as int];
    proof {
        lemma_edges_from(es@, src, ne);
    }
    let n = deps_u.len();
    let mut j: usize = 0;
    proof {
        assert forall|p: int| 0 <= p < nv && !done@[p] implies #[trigger] c@[p] == count_where(
            pending_except(es@, ns@[p], finished, deps_u@.take(0)),
            ne,
        ) by {
            let a = pending_into(es@, ns@[p], finished);
            let b = pending_except(es@, ns@[p], finished, deps_u@.take(0));
            assert forall|k: int| 0 <= k < ne implies #[trigger] a(k) == b(k) by {
                assert(!deps_u@.take(0).contains(k as usize));
            }
            lemma_count_ext(a, b, ne);
        }
    }
    while j < n
        invariant
            n == deps_u@.len(),
            j <= n,
            nv == ns@.len(),
            ne == es@.len(),
            u < nv,
            ne <= usize::MAX,
            src == ns@[u as int],
            ns@.no_duplicates(),
            forall|i: int| 0 <= i < ns@.len() ==> pos@.contains_key(#[trigger] ns@[i]) && pos@[ns@[i]] == i,
            forall|x: u32| #[trigger] pos@.contains_key(x) ==> pos@[x] < ns@.len() && ns@[pos@[x] as int] == x,
            done@.len() == nv,
            c@.len() == nv,
            !finished.contains(src),
            deps_u@ == edges_from(es@, src, ne),
            forall|jj: int| 0 <= jj < edges_from(es@, src, ne).len() ==> (#[trigger] edges_from(es@, src, ne)[jj]) < ne
                && es@[edges_from(es@, src, ne)[jj] as int].from.0 == src,
            forall|j1: int, j2: int| 0 <= j1 < j2 < edges_from(es@, src, ne).len() ==> edges_from(es@, src, ne)[j1]
                < edges_from(es@, src, ne)[j2],
            forall|p: int| 0 <= p < nv && !done@[p] ==> #[trigger] c@[p] == count_where(
                pending_except(es@, ns@[p], finished, deps_u@.take(j as int)),
                ne,
            ),
            stack_ok(stack@, c@, done@),
        decreases n - j,
    {
        let k0 = deps_u[j];
        let ghost skip = deps_u@.take(j as int);
        let ghost skip2 = deps_u@.take(j + 1);
        proof {
            assert(skip2 == skip.push(k0));
            assert(!skip.contains(k0)) by {
                if skip.contains(k0) {
                    let jj = choose|jj: int| 0 <= jj < skip.len() && skip[jj] == k0;
                    assert(deps_u@[jj] < deps_u@[j as int]);
                }
            }
            assert forall|x: usize| skip2.contains(x) <==> skip.contains(x) || x == k0 by {
                if skip2.contains(x) {
                    let jj = choose|jj: int| 0 <= jj < skip2.len() && skip2[jj] == x;
                    if jj < j {
                        assert(skip[jj] == x);
                    }
                }
                if skip.contains(x) {
                    let jj = choose|jj: int| 0 <= jj < skip.len() && skip[jj] == x;
                    assert(skip2[jj] == x);
                }
                if x == k0 {
                    assert(skip2[j as int] == x);
                }
            }
        }
        let e = es[k0];
        let ghost c0 = c@;
        let ghost st0 = stack@;
        proof {
            assert forall|p: int| 0 <= p < nv && !done@[p] && ns@[p] != e.to.0 implies #[trigger] c0[p] == count_where(
                pending_except(es@, ns@[p], finished, skip2),
                ne,
            ) by {
                let a = pending_except(es@, ns@[p], finished, skip);
                let b = pending_except(es@, ns@[p], finished, skip2);
                assert forall|k: int| 0 <= k < ne implies #[trigger] a(k) == b(k) by {
                    assert(skip2.contains(k as usize) == (skip.contains(k as usize) || k as usize == k0));
                    if k == k0 as int {
                        assert(!a(k));
                    }
                }
                lemma_count_ext(a, b, ne);
            }
        }
        match pos.get(&e.to.0) {
            Some(pt) => {
                let pt = *pt;
                if !done[pt] {
                    proof {
                        let a = pending_except(es@, ns@[pt as int], finished, skip);
                        let b = pending_except(es@, ns@[pt as int], finished, skip2);
                        assert(a(k0 as int));
                        assert forall|k: int| 0 <= k < ne && k != k0 as int implies #[trigger] a(k) == b(k) by {
                            assert(skip2.contains(k as usize) == (skip.contains(k as usize) || k as usize == k0));
                        }
                        lemma_count_drop_one(a, b, ne, k0 as int);
                    }
                    c.set(pt, c[pt] - 1);
                    if c[pt] == 0 {
                        proof {
                            assert(!stack@.contains(pt)) by {
                                if stack@.contains(pt) {
                                    let jj = choose|jj: int| 0 <= jj < stack@.len() && stack@[jj] == pt;
                                }
                            }
                        }
                        stack.push(pt);
                    }
                    proof {
                        assert forall|jj: int| 0 <= jj < stack@.len() implies (#[trigger] stack@[jj]) < done@.len()
                            && !done@[stack@[jj] as int] && c@[stack@[jj] as int] == 0 by {
                            if jj < st0.len() {
                                assert(stack@[jj] == st0[jj]);
                                assert(st0[jj] != pt);
                            }
                        }
                        assert forall|p: int| 0 <= p < done@.len() && !done@[p] && #[trigger] c@[p] == 0 implies stack@.contains(p as usize) by {
                            if p == pt as int {
                                assert(stack@[stack@.len() - 1] == pt);
                            } else {
                                assert(st0.contains(p as usize));
                                let jj = choose|jj: int| 0 <= jj < st0.len() && st0[jj] == p as usize;
                                assert(stack@[jj] == p as usize);
                            }
                        }
                    }
                }
            },
            None => {},
        }
        proof {
            assert(skip2 == deps_u@.take(j + 1));
        }
        j += 1;
    }
    proof {
        assert(deps_u@.take(n as int) == deps_u@);
        assert forall|p: int| 0 <= p < nv && !done@[p] implies #[trigger] c@[p] == count_where(
            pending_into(es@, ns@[p], finished.insert(src)),
            ne,
        ) by {
            let a = pending_except(es@, ns@[p], finished, deps_u@);
            let b = pending_into(es@, ns@[p], finished.insert(src));
            assert forall|k: int| 0 <= k < ne implies #[trigger] a(k) == b(k) by {
                if es@[k].from.0 == src {
                    let jj = choose|jj: int| 0 <= jj < edges_from(es@, src, ne).len() && edges_from(es@, src, ne)[jj] == k;
                    assert(deps_u@.contains(k as usize));
                } else {
                    assert(!deps_u@.contains(k as usize)) by {
                        if deps_u@.contains(k as usize) {
                            let jj = choose|jj: int| 0 <= jj < deps_u@.len() && deps_u@[jj] == k as usize;
                        }
                    }
                }
            }
            lemma_count_ext(a, b, ne);
        }
    }
}

/// The positions whose count is zero, in increasing order.
fn initial_stack(c: &Vec<usize>, done: &Vec<bool>) -> (stack: Vec<usize>)
    requires
        c@.len() == done@.len(),
        forall|p: int| 0 <= p < done@.len() ==> !#[trigger] done@[p],
    ensures
        stack_ok(stack@, c@, done@),
{
    let n = c.len();
    let mut stack: Vec<usize> = Vec::new();
    let mut p: usize = 0;
    while p < n
        invariant
            n == c@.len(),
            c@.len() == done@.len(),
            p <= n,
            forall|q: int| 0 <= q < done@.len() ==> !#[trigger] done@[q],
            forall|j: int| 0 <= j < stack@.len() ==> (#[trigger] stack@[j]) < p && c@[stack@[j] as int] == 0,
            forall|j1: int, j2: int| 0 <= j1 < j2 < stack@.len() ==> stack@[j1] < stack@[j2],
            forall|q: int| 0 <= q < p && #[trigger] c@[q] == 0 ==> stack@.contains(q as usize),
        decreases n - p,
    {
        if c[p] == 0 {
            let ghost st0 = stack@;
            stack.push(p);
            proof {
                assert forall|q: int| 0 <= q < p + 1 && #[trigger] c@[q] == 0 implies stack@.contains(q as usize) by {
                    if q == p {
                        assert(stack@[stack@.len() - 1] == p);
                    } else {
                        let j = choose|j: int| 0 <= j < st0.len() && st0[j] == q as usize;
                        assert(stack@[j] == q as usize);
                    }
                }
            }
        }
        p += 1;
    }
    proof {
        assert forall|j1: int, j2: int| 0 <= j1 < stack@.len() && 0 <= j2 < stack@.len() && j1 != j2 implies stack@[j1] != stack@[j2] by {
            if j1 < j2 {
                assert(stack@[j1] < stack@[j2]);
            } else {
                assert(stack@[j2] < stack@[j1]);
            }
        }
    }
    stack
}

impl ShaderGraphTopology {
    /// A topological order of the nodes (Kahn's algorithm): for every edge
    /// between two nodes, its source is listed before its target; edges that
    /// name an id that is not a node are ignored. Fails with `CycleError`
    /// exactly when no such order exists, that is, when the edges between
    /// nodes form a cycle.
    pub fn topological_order(&self) -> (r: Result<Vec<NodeId>, CycleError>)
        ensures
            match r {
                Ok(order) => is_topological_order(self.node_set(), self.edge_map(), order@),
                Err(_) => forall|order: Seq<NodeId>| !is_topological_order(self.node_set(), self.edge_map(), order),
            },
    {
        broadcast use vstd::std_specs::hash::group_hash_axioms;
        let ns = self.node_list();
        let es = self.inner_edges();
        let pos = position_map(&ns);
        let nv = ns.len();
        let ne = es.len();
        let (mut c, deps) = initial_counts(&ns, &es, &pos);
        let mut done: Vec<bool> = Vec::new();
        let mut p: usize = 0;
        while p < nv
            invariant
                p <= nv,
                done@.len() == p,
                forall|q: int| 0 <= q < p ==> !#[trigger] done@[q],
            decreases nv - p,
        {
            done.push(false);
            p += 1;
        }
        let mut stack = initial_stack(&c, &done);
        let mut result: Vec<NodeId> = Vec::new();
        let ghost mut fin: Set<u32> = Set::empty();
        proof {
            assert forall|n: u32| #[trigger] self.nodes@.contains(n) implies exists|i: int| 0 <= i < ns@.len() && ns@[i] == n by {
                assert(self.node_set().contains(n));
            }
            let a = set_positions(done@);
            assert forall|q: int| 0 <= q < nv implies !#[trigger] a(q) by {}
            let z = |q: int| false;
            lemma_count_ext(a, z, nv as int);
            assert(count_where(z, nv as int) == 0) by {
                lemma_count_zero(nv as int);
            }
            assert forall|q: int| 0 <= q < nv && !done@[q] implies #[trigger] c@[q] == count_where(
                pending_into(es@, ns@[q], fin),
                ne as int,
            ) by {
                assert(fin == Set::<u32>::empty());
            }
        }
        while stack.len() > 0
            invariant
                nv == ns@.len(),
                ne == es@.len(),
                ns@.no_duplicates(),
                forall|i: int| 0 <= i < ns@.len() ==> self.nodes@.contains(#[trigger] ns@[i]),
                forall|n: u32| #[trigger] self.nodes@.contains(n) ==> exists|i: int| 0 <= i < ns@.len() && ns@[i] == n,
                forall|i: int| 0 <= i < es@.len() ==> #[trigger] is_edge_of(self.edges@, es@[i]) && joins_nodes(
                    self.nodes@,
                    es@[i],
                ),
                forall|k: u32| #[trigger] self.edges@.contains_key(k) && joins_nodes(self.nodes@, self.edges@[k])
                    ==> exists|i: int| 0 <= i < es@.len() && es@[i] == self.edges@[k],
                forall|i: int| 0 <= i < ns@.len() ==> pos@.contains_key(#[trigger] ns@[i]) && pos@[ns@[i]] == i,
                forall|x: u32| #[trigger] pos@.contains_key(x) ==> pos@[x] < ns@.len() && ns@[pos@[x] as int] == x,
                done@.len() == nv,
                c@.len() == nv,
                deps@.len() == nv,
                forall|q: int| 0 <= q < nv ==> (#[trigger] deps@[q])@ == edges_from(es@, ns@[q], ne as int),
                forall|q: int| 0 <= q < nv ==> (#[trigger] done@[q] <==> fin.contains(ns@[q])),
                forall|x: u32| #[trigger] fin.contains(x) ==> self.nodes@.contains(x),
                forall|q: int| 0 <= q < nv && !done@[q] ==> #[trigger] c@[q] == count_where(
                    pending_into(es@, ns@[q], fin),
                    ne as int,
                ),
                stack_ok(stack@, c@, done@),
                result@.no_duplicates(),
                forall|i: int| 0 <= i < result@.len() ==> fin.contains(#[trigger] result@[i].0),
                forall|x: u32| #[trigger] fin.contains(x) ==> exists|i: int| 0 <= i < result@.len() && result@[i].0 == x,
                result@.len() == count_where(set_positions(done@), nv as int),
                forall|k: int| 0 <= k < ne && fin.contains((#[trigger] es@[k]).to.0) ==> {
                    &&& fin.contains(es@[k].from.0)
                    &&& forall|i: int, j: int| 0 <= i < result@.len() && 0 <= j < result@.len()
                        && result@[i].0 == es@[k].from.0 && result@[j].0 == es@[k].to.0 ==> i < j
                },
            decreases nv - result@.len(),
        {
            proof {
                lemma_count_bound(set_positions(done@), nv as int);
            }
            let ghost st0 = stack@;
            let u = stack.pop().unwrap();
            let ghost old_fin = fin;
            let ghost old_done = done@;
            let ghost old_result = result@;
            let ghost un = ns@[u as int];
            proof {
                assert(st0[st0.len() - 1] == u);
                assert(!done@[u as int] && c@[u as int] == 0);
                assert(!fin.contains(un));
                assert forall|k: int| 0 <= k < ne && (#[trigger] es@[k]).to.0 == un implies fin.contains(es@[k].from.0) by {
                    let pend = pending_into(es@, un, fin);
                    if !fin.contains(es@[k].from.0) {
                        assert(pend(k));
                        let q = |x: int| pend(x) && x != k;
                        assert forall|x: int| 0 <= x < ne && x != k implies #[trigger] pend(x) == q(x) by {}
                        lemma_count_drop_one(pend, q, ne as int, k);
                    }
                }
            }
            done.set(u, true);
            result.push(NodeId(ns[u]));
            proof {
                fin = fin.insert(un);
                // the stack without u still lists exactly the waiting positions
                assert forall|j: int| 0 <= j < stack@.len() implies (#[trigger] stack@[j]) < done@.len()
                    && !done@[stack@[j] as int] && c@[stack@[j] as int] == 0 by {
                    assert(stack@[j] == st0[j]);
                    assert(st0[j] != u);
                }
                assert forall|q: int| 0 <= q < done@.len() && !done@[q] && #[trigger] c@[q] == 0 implies stack@.contains(q as usize) by {
                    assert(q != u);
                    assert(st0.contains(q as usize));
                    let j = choose|j: int| 0 <= j < st0.len() && st0[j] == q as usize;
                    assert(j != st0.len() - 1);
                    assert(stack@[j] == q as usize);
                }
                assert forall|j1: int, j2: int| 0 <= j1 < stack@.len() && 0 <= j2 < stack@.len() && j1 != j2 implies stack@[j1] != stack@[j2] by {
                    assert(stack@[j1] == st0[j1] && stack@[j2] == st0[j2]);
                }
                assert forall|q: int| 0 <= q < nv && !done@[q] implies #[trigger] c@[q] == count_where(
                    pending_into(es@, ns@[q], old_fin),
                    ne as int,
                ) by {
                    assert(!old_done[q]);
                }
                assert forall|q: int| 0 <= q < nv implies (#[trigger] done@[q] <==> old_fin.insert(un).contains(ns@[q])) by {
                    if q != u {
                        assert(ns@[q] != un);
                    }
                }
            }
            release_dependents(&mut c, &mut stack, &done, &deps[u], &es, &ns, &pos, Ghost(old_fin), u);
            proof {
                // one more finished position
                let a = set_positions(old_done);
                let b = set_positions(done@);
                assert(b(u as int) && !a(u as int));
                assert forall|q: int| 0 <= q < nv && q != u implies #[trigger] b(q) == a(q) by {}
                lemma_count_drop_one(b, a, nv as int, u as int);
                // the new node was not listed before
                assert forall|i: int, j: int| 0 <= i < result@.len() && 0 <= j < result@.len() && i != j implies result@[i] != result@[j] by {
                    if i == old_result.len() {
                        assert(old_fin.contains(result@[j].0));
                    } else if j == old_result.len() {
                        assert(old_fin.contains(result@[i].0));
                    } else {
                        assert(result@[i] == old_result[i] && result@[j] == old_result[j]);
                    }
                }
                assert forall|i: int| 0 <= i < result@.len() implies fin.contains(#[trigger] result@[i].0) by {
                    if i < old_result.len() {
                        assert(result@[i] == old_result[i]);
                    }
                }
                assert forall|x: u32| #[trigger] fin.contains(x) implies exists|i: int| 0 <= i < result@.len() && result@[i].0 == x by {
                    if x == un {
                        assert(result@[old_result.len() as int].0 == x);
                    } else {
                        assert(old_fin.contains(x));
                        let i = choose|i: int| 0 <= i < old_result.len() && old_result[i].0 == x;
                        assert(result@[i] == old_result[i]);
                    }
                }
                assert forall|k: int| 0 <= k < ne && fin.contains((#[trigger] es@[k]).to.0) implies {
                    &&& fin.contains(es@[k].from.0)
                    &&& forall|i: int, j: int| 0 <= i < result@.len() && 0 <= j < result@.len()
                        && result@[i].0 == es@[k].from.0 && result@[j].0 == es@[k].to.0 ==> i < j
                } by {
                    let from = es@[k].from.0;
                    let to = es@[k].to.0;
                    if to == un {
                        assert(old_fin.contains(from));
                        assert forall|i: int, j: int| 0 <= i < result@.len() && 0 <= j < result@.len()
                            && result@[i].0 == from && result@[j].0 == to implies i < j by {
                            if i == old_result.len() {
                                assert(result@[i].0 == un);
                            }
                            if j < old_result.len() {
                                assert(result@[j] == old_result[j]);
                                assert(old_fin.contains(to));
                            }
                        }
                    } else {
                        assert(old_fin.contains(to));
                        assert(old_fin.contains(from));
                        assert forall|i: int, j: int| 0 <= i < result@.len() && 0 <= j < result@.len()
                            && result@[i].0 == from && result@[j].0 == to implies i < j by {
                            if i == old_result.len() {
                                assert(result@[i].0 == un);
                            }
                            if j == old_result.len() {
                                assert(result@[j].0 == un);
                            }
                            assert(result@[i] == old_result[i] && result@[j] == old_result[j]);
                        }
                    }
                }
                assert forall|x: u32| #[trigger] fin.contains(x) implies self.nodes@.contains(x) by {
                    if x == un {
                        assert(self.nodes@.contains(ns@[u as int]));
                    }
                }
            }
        }
        if result.len() == nv {
            proof {
                let a = set_positions(done@);
                lemma_count_bound(a, nv as int);
                assert forall|q: int| 0 <= q < nv implies fin.contains(#[trigger] ns@[q]) by {
                    assert(a(q));
                }
                assert forall|n: u32| self.nodes@.contains(n) implies exists|i: int| 0 <= i < result@.len() && #[trigger] result@[i].0 == n by {
                    let q = choose|q: int| 0 <= q < ns@.len() && ns@[q] == n;
                    assert(fin.contains(ns@[q]));
                }
                assert forall|k: u32| #![trigger self.edges@[k]] self.edges@.contains_key(k) && joins_nodes(self.nodes@, self.edges@[k]) implies {
                    forall|i: int, j: int| 0 <= i < result@.len() && 0 <= j < result@.len() && result@[i].0 == self.edges@[k].from.0
                        && result@[j].0 == self.edges@[k].to.0 ==> i < j
                } by {
                    let i = choose|i: int| 0 <= i < es@.len() && es@[i] == self.edges@[k];
                    let t = self.edges@[k].to.0;
                    let q = choose|q: int| 0 <= q < ns@.len() && ns@[q] == t;
                    assert(fin.contains(ns@[q]));
                    assert(fin.contains(es@[i].to.0));
                }
            }
            Ok(result)
        } else {
            proof {
                let a = set_positions(done@);
                lemma_count_bound(a, nv as int);
                assert(exists|q: int| 0 <= q < nv && !#[trigger] a(q));
                let q = choose|q: int| 0 <= q < nv && !#[trigger] a(q);
                assert forall|order: Seq<NodeId>| !is_topological_order(self.nodes@, self.edges@, order) by {
                    if is_topological_order(self.nodes@, self.edges@, order) {
                        let n = ns@[q as int];
                        assert(self.nodes@.contains(n));
                        assert(!fin.contains(n));
                        let i0 = choose|i0: int| 0 <= i0 < order.len() && #[trigger] order[i0].0 == n;
                        let i = lemma_first_outside(order, fin, i0);
                        let r = order[i].0;
                        assert(self.nodes@.contains(r));
                        let qq = choose|qq: int| 0 <= qq < ns@.len() && ns@[qq] == r;
                        assert(!done@[qq]);
                        if c@[qq] == 0 {
                            assert(stack@.contains(qq as usize));
                            assert(false);
                        }
                        let pend = pending_into(es@, r, fin);
                        let k = lemma_count_positive(pend, ne as int);
                        let e = es@[k];
                        assert(is_edge_of(self.edges@, es@[k]));
                        assert(joins_nodes(self.nodes@, e));
                        let kk = choose|kk: u32| self.edges@.contains_key(kk) && self.edges@[kk] == e;
                        assert(self.edges@[kk] == e);
                        assert(self.nodes@.contains(e.from.0));
                        let i1 = choose|i1: int| 0 <= i1 < order.len() && #[trigger] order[i1].0 == e.from.0;
                        assert(i1 < i);
                        assert(fin.contains(order[i1].0));
                        assert(false);
                    }
                }
            }
            Err(CycleError)
        }
    }
}

impl ShaderGraphTopology {
    /// Check that the graph has a topological order
    pub fn validate(&self) -> (r: Result<(), CycleError>)
        ensures
            r is Ok <==> exists|order: Seq<NodeId>| is_topological_order(self.node_set(), self.edge_map(), order),
    {
        match self.topological_order() {
            Ok(_) => Ok(()),
            Err(e) => Err(e),
        }
    }
}

proof fn lemma_count_zero(n: int)
    ensures
        count_where(|q: int| false, n) == 0,
    decreases n,
{
    if n > 0 {
        lemma_count_zero(n - 1);
    }
}

} // verus!
