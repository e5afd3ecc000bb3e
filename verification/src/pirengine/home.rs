//! Rooms and areas of the home and how they are connected to each other.

use vstd::prelude::*;

verus! {

pub type AreaId = String;

/// How many people an area is believed to hold.
#[derive(Debug)]
pub enum Presence {
    NoOne,
    AtLeast(u8),
    AtMost(u8),
}

/// A room or area of the home.
#[derive(Debug)]
pub struct Area {
    id: String,
    pub presence_esimate: Presence,
}

impl Area {
    /// The identifier of the area.
    pub closed spec fn spec_id(&self) -> Seq<char> {
        self.id@
    }

    /// How many people the area is believed to hold.
    pub closed spec fn spec_presence(&self) -> Presence {
        self.presence_esimate
    }

    /// An area that nobody is believed to be in.
    pub fn new(id: &str) -> (r: Area)
        ensures
            r.spec_id() == id@,
            r.spec_presence() is NoOne,
    {
        Area { id: id.to_owned(), presence_esimate: Presence::NoOne }
    }

    pub fn id(&self) -> (r: &str)
        ensures
            r@ == self.spec_id(),
    {
        self.id.as_str()
    }
}

} // verus!

verus! {

pub type NodeId = usize;

/// Whether the bit for the edge from `a` to `b` is set, in a graph of
/// `count` nodes whose bits stand row by row.
pub open spec fn connected(edges: Seq<bool>, count: nat, a: int, b: int) -> bool {
    0 <= a < count && 0 <= b < count && a * count + b < edges.len() && edges[a * count + b]
}

/// A graph with a fixed capacity of nodes, identified by their position.
pub trait Graph<N>: Sized {
    /// The nodes, by identifier.
    spec fn nodes(&self) -> Seq<N>;

    /// One bit for each ordered pair of nodes, row by row. The bit of the
    /// pair `(a, b)` stands at `a * count + b`, where `count` is the number
    /// of nodes at the time of asking.
    spec fn edges(&self) -> Seq<bool>;

    /// How many nodes the graph can hold.
    spec fn limit(&self) -> nat;

    /// The bits cover every pair that the capacity allows, their number fits
    /// the machine's word, and the graph holds no more nodes than its
    /// capacity.
    spec fn wf(&self) -> bool;

    /// An empty graph for up to `capacity` nodes.
    fn new_undirected(capacity: usize) -> (g: Self)
        requires
            capacity * capacity <= usize::MAX,
        ensures
            g.wf(),
            g.nodes().len() == 0,
            g.limit() == capacity,
            g.edges() == Seq::new((capacity * capacity) as nat, |i: int| false),
    ;

    /// Removes every node and every edge.
    fn clear(&mut self)
        requires
            old(self).wf(),
        ensures
            final(self).wf(),
            final(self).nodes().len() == 0,
            final(self).limit() == old(self).limit(),
            final(self).edges() == Seq::new(old(self).edges().len(), |i: int| false),
    ;

    /// Adds a node and returns its identifier; `None` where the graph is
    /// full, which leaves it unchanged.
    fn add_node(&mut self, node: N) -> (r: Option<NodeId>)
        requires
            old(self).wf(),
        ensures
            final(self).wf(),
            final(self).limit() == old(self).limit(),
            final(self).edges() == old(self).edges(),
            match r {
                Some(id) => id == old(self).nodes().len() && final(self).nodes() == old(
                    self,
                ).nodes().push(node),
                None => old(self).nodes().len() == old(self).limit() && final(self).nodes() == old(
                    self,
                ).nodes(),
            },
    ;

    /// The first node for which `predicate` holds.
    fn find_node_id<F: Fn(&N) -> bool>(&self, predicate: F) -> (r: Option<NodeId>)
        requires
            self.wf(),
            forall|i: int| 0 <= i < self.nodes().len() ==> call_requires(predicate, (&self.nodes()[i],)),
        ensures
            match r {
                Some(id) => id < self.nodes().len() && call_ensures(
                    predicate,
                    (&self.nodes()[id as int],),
                    true,
                ) && forall|j: int|
                    0 <= j < id ==> call_ensures(predicate, (&#[trigger] self.nodes()[j],), false),
                None => forall|j: int|
                    0 <= j < self.nodes().len() ==> call_ensures(
                        predicate,
                        (&#[trigger] self.nodes()[j],),
                        false,
                    ),
            },
    ;

    /// The node with the given identifier.
    fn get_node(&self, node_id: NodeId) -> (r: &N)
        requires
            self.wf(),
            node_id < self.nodes().len(),
        ensures
            *r == self.nodes()[node_id as int],
    ;

    /// Connects two nodes, in both directions.
    fn add_edge(&mut self, from: NodeId, to: NodeId)
        requires
            old(self).wf(),
            from < old(self).nodes().len(),
            to < old(self).nodes().len(),
        ensures
            final(self).wf(),
            final(self).nodes() == old(self).nodes(),
            final(self).limit() == old(self).limit(),
            final(self).edges() == old(self).edges().update(
                from * old(self).nodes().len() + to,
                true,
            ).update(to * old(self).nodes().len() + from, true),
    ;

    /// Disconnects two nodes, in both directions.
    fn remove_edge(&mut self, from: NodeId, to: NodeId)
        requires
            old(self).wf(),
            from < old(self).nodes().len(),
            to < old(self).nodes().len(),
        ensures
            final(self).wf(),
            final(self).nodes() == old(self).nodes(),
            final(self).limit() == old(self).limit(),
            final(self).edges() == old(self).edges().update(
                from * old(self).nodes().len() + to,
                false,
            ).update(to * old(self).nodes().len() + from, false),
    ;

    /// How many nodes the graph can hold.
    fn capacity(&self) -> (r: usize)
        requires
            self.wf(),
        ensures
            r == self.limit(),
    ;

    /// How many nodes the graph holds.
    fn node_count(&self) -> (r: usize)
        requires
            self.wf(),
        ensures
            r == self.nodes().len(),
    ;

    /// The nodes connected to `of`, other than `of` itself, in increasing
    /// order.
    fn neighbours(&mut self, of: NodeId) -> (r: &Vec<NodeId>)
        requires
            old(self).wf(),
            of < old(self).nodes().len(),
        ensures
            final(self).wf(),
            final(self).nodes() == old(self).nodes(),
            final(self).limit() == old(self).limit(),
            final(self).edges() == old(self).edges(),
            forall|k: int|
                0 <= k < r@.len() ==> r@[k] != of && connected(
                    old(self).edges(),
                    old(self).nodes().len(),
                    of as int,
                    #[trigger] r@[k] as int,
                ),
            forall|k: int, l: int| 0 <= k < l < r@.len() ==> r@[k] < r@[l],
            forall|i: int|
                i != of && #[trigger] connected(
                    old(self).edges(),
                    old(self).nodes().len(),
                    of as int,
                    i,
                ) ==> exists|k: int| 0 <= k < r@.len() && r@[k] == i,
    ;
}

/// A graph that keeps its edges as bits in one vector.
pub struct VecGraph<N> {
    edges: Vec<bool>,
    nodes: Vec<N>,
    capacity: usize,
    _neigh: Option<Vec<NodeId>>,
}

/// Row `a`, column `b` of a square of side `n` lies inside a square of side
/// `cap`, and no other cell of the smaller square lies at the same place.
pub proof fn lemma_cell(n: int, cap: int, a: int, b: int)
    requires
        0 <= a < n <= cap,
        0 <= b < n,
    ensures
        0 <= a * n <= a * n + b < n * n <= cap * cap,
        forall|c: int, d: int|
            0 <= c < n && 0 <= d < n && #[trigger] (c * n + d) == a * n + b ==> c == a && d == b,
{
    assert(0 <= a * n <= a * n + b < n * n <= cap * cap) by (nonlinear_arith)
        requires
            0 <= a < n <= cap,
            0 <= b < n,
    ;
    assert forall|c: int, d: int|
        0 <= c < n && 0 <= d < n && #[trigger] (c * n + d) == a * n + b implies c == a && d == b by {
        assert(c == a && d == b) by (nonlinear_arith)
            requires
                0 <= c < n,
                0 <= d < n,
                0 <= a < n,
                0 <= b < n,
                c * n + d == a * n + b,
        ;
    }
}

impl<N> VecGraph<N> {
    /// The places of the two bits of the edge between `from` and `to`.
    fn get_edge_id(&self, from: NodeId, to: NodeId) -> (r: (usize, usize))
        requires
            self.wf(),
            from < self.nodes().len(),
            to < self.nodes().len(),
        ensures
            r.0 == from * self.nodes().len() + to,
            r.1 == to * self.nodes().len() + from,
            r.0 < self.edges().len(),
            r.1 < self.edges().len(),
    {
        let sz = self.nodes.len();
        proof {
            lemma_cell(sz as int, self.capacity as int, from as int, to as int);
            lemma_cell(sz as int, self.capacity as int, to as int, from as int);
        }
        (from * sz + to, to * sz + from)
    }
}

impl<N> Graph<N> for VecGraph<N> {
    closed spec fn nodes(&self) -> Seq<N> {
        self.nodes@
    }

    closed spec fn edges(&self) -> Seq<bool> {
        self.edges@
    }

    closed spec fn limit(&self) -> nat {
        self.capacity as nat
    }

    closed spec fn wf(&self) -> bool {
        &&& self.capacity * self.capacity <= usize::MAX
        &&& self.edges@.len() == self.capacity * self.capacity
        &&& self.nodes@.len() <= self.capacity
    }

    fn new_undirected(capacity: usize) -> (g: VecGraph<N>) {
        let mut edges: Vec<bool> = Vec::new();
        let total = capacity * capacity;
        let mut i: usize = 0;
        while i < total
            invariant
                i <= total,
                edges@ == Seq::new(i as nat, |k: int| false),
            decreases total - i,
        {
            edges.push(false);
            i += 1;
        }
        VecGraph { edges, nodes: Vec::with_capacity(capacity), capacity, _neigh: None }
    }

    fn clear(&mut self) {
        self.nodes.clear();
        let total = self.edges.len();
        let mut i: usize = 0;
        while i < total
            invariant
                i <= total,
                self.edges@.len() == total,
                self.capacity == old(self).capacity,
                self.nodes@.len() == 0,
                forall|k: int| 0 <= k < i ==> !self.edges@[k],
            decreases total - i,
        {
            self.edges.set(i, false);
            i += 1;
        }
    }

    fn add_node(&mut self, node: N) -> (r: Option<NodeId>) {
        if self.nodes.len() == self.capacity {
            return None;
        }
        self.nodes.push(node);
        Some(self.nodes.len() - 1)
    }

    fn find_node_id<F: Fn(&N) -> bool>(&self, predicate: F) -> (r: Option<NodeId>) {
        let mut i: usize = 0;
        while i < self.nodes.len()
            invariant
                i <= self.nodes.len(),
                forall|k: int|
                    0 <= k < self.nodes().len() ==> call_requires(predicate, (&self.nodes()[k],)),
                forall|j: int|
                    0 <= j < i ==> call_ensures(predicate, (&#[trigger] self.nodes()[j],), false),
            decreases self.nodes.len() - i,
        {
            assert(call_requires(predicate, (&self.nodes()[i as int],)));
            if predicate(&self.nodes[i]) {
                return Some(i);
            }
            i += 1;
        }
        None
    }

    fn get_node(&self, node_id: NodeId) -> (r: &N) {
        &self.nodes[node_id]
    }

    fn add_edge(&mut self, from: NodeId, to: NodeId) {
        let (idx1, idx2) = self.get_edge_id(from, to);
        self.edges.set(idx1, true);
        self.edges.set(idx2, true);
    }

    fn remove_edge(&mut self, from: NodeId, to: NodeId) {
        let (idx1, idx2) = self.get_edge_id(from, to);
        self.edges.set(idx1, false);
        self.edges.set(idx2, false);
    }

    fn capacity(&self) -> (r: usize) {
        self.capacity
    }

    fn node_count(&self) -> (r: usize) {
        self.nodes.len()
    }

    fn neighbours(&mut self, of: NodeId) -> (r: &Vec<NodeId>) {
        let mut ns: Vec<NodeId> = Vec::new();
        let sz = self.nodes.len();
        let mut i: usize = 0;
        while i < sz
            invariant
                i <= sz,
                sz == self.nodes@.len(),
                of < sz,
                self.wf(),
                forall|k: int|
                    0 <= k < ns@.len() ==> ns@[k] != of && ns@[k] < i && connected(
                        self.edges@,
                        sz as nat,
                        of as int,
                        #[trigger] ns@[k] as int,
                    ),
                forall|k: int, l: int| 0 <= k < l < ns@.len() ==> ns@[k] < ns@[l],
                forall|j: int|
                    0 <= j < i && j != of && #[trigger] connected(
                        self.edges@,
                        sz as nat,
                        of as int,
                        j,
                    ) ==> exists|k: int| 0 <= k < ns@.len() && ns@[k] == j,
            decreases sz - i,
        {
            proof {
                lemma_cell(sz as int, self.capacity as int, of as int, i as int);
            }
            let ghost before = ns@;
            if self.edges[of * sz + i] && i != of {
                ns.push(i);
                assert(ns@[before.len() as int] == i);
            }
            assert forall|j: int|
                0 <= j < i + 1 && j != of && #[trigger] connected(
                    self.edges@,
                    sz as nat,
                    of as int,
                    j,
                ) implies exists|k: int| 0 <= k < ns@.len() && ns@[k] == j by {
                if j < i {
                    let k = choose|k: int| 0 <= k < before.len() && before[k] == j;
                    assert(ns@[k] == j);
                } else {
                    assert(ns@[before.len() as int] == j);
                }
            }
            i += 1;
        }
        self._neigh = Some(ns);
        self._neigh.as_ref().unwrap()
    }
}

} // verus!
