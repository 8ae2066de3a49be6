//! The order in which the nodes of a glTF file are loaded: every node after
//! all of its children.
//!
//! A file lists for each node the numbers of its children. A node belongs to
//! the last node that lists it. Nodes without children are loaded first; a
//! node is loaded as soon as the last of its children is, provided that all
//! of them belong to it. If the nodes form trees, this loads them all. If
//! they do not, the nodes that lie on or above a cycle, or list a child that
//! belongs to another node, are never loaded, and are reported.

use crate::gltf::loader::GltfError;
use vstd::prelude::*;
use vstd::set_lib::{lemma_int_range, lemma_len_subset, set_int_range};

verus! {

/// The nodes of a file in loading order, from the last to the first.
pub struct GltfTreeIterator {
    nodes: Vec<usize>,
}

/// Whether every child that is listed is the number of a node.
pub open spec fn spec_valid_children(children: Seq<Vec<usize>>) -> bool {
    forall|v: int, k: int|
        0 <= v < children.len() && 0 <= k < children[v]@.len() ==> #[trigger] children[v]@[k]
            < children.len()
}

/// Whether node `parent` lists `child` among its children.
pub open spec fn spec_lists(children: Seq<Vec<usize>>, parent: int, child: int) -> bool {
    &&& 0 <= parent < children.len()
    &&& exists|k: int| 0 <= k < children[parent]@.len() && #[trigger] children[parent]@[k] == child
}

/// Whether `child` belongs to `parent`: `parent` lists it, and no later node
/// does.
pub open spec fn spec_owns(children: Seq<Vec<usize>>, parent: int, child: int) -> bool {
    &&& spec_lists(children, parent, child)
    &&& forall|later: int|
        parent < later < children.len() ==> !#[trigger] spec_lists(children, later, child)
}

/// Whether `node` is among the first `limit` nodes of `order`.
pub open spec fn spec_loaded(order: Seq<usize>, limit: int, node: int) -> bool {
    exists|s: int| 0 <= s < limit && s < order.len() && #[trigger] order[s] == node
}

/// Whether child number `k` of `node` belongs to it and is among the first
/// `limit` nodes of `order`.
pub open spec fn spec_child_ready(
    children: Seq<Vec<usize>>,
    order: Seq<usize>,
    limit: int,
    node: int,
    k: int,
) -> bool {
    &&& spec_owns(children, node, children[node]@[k] as int)
    &&& spec_loaded(order, limit, children[node]@[k] as int)
}

/// Whether all children of `node` belong to it and are among the first
/// `limit` nodes of `order`.
pub open spec fn spec_ready(
    children: Seq<Vec<usize>>,
    order: Seq<usize>,
    limit: int,
    node: int,
) -> bool {
    forall|k: int|
        0 <= k < children[node]@.len() ==> #[trigger] spec_child_ready(
            children,
            order,
            limit,
            node,
            k,
        )
}

/// Whether `order` is a loading order of `children`: it names nodes, each at
/// most once; every node in it comes after all of its children, which all
/// belong to it; and no node outside of it could be appended.
pub open spec fn spec_is_tree_order(children: Seq<Vec<usize>>, order: Seq<usize>) -> bool {
    &&& order.no_duplicates()
    &&& forall|t: int| 0 <= t < order.len() ==> #[trigger] order[t] < children.len()
    &&& forall|t: int|
        0 <= t < order.len() ==> #[trigger] spec_ready(children, order, t, order[t] as int)
    &&& forall|node: int|
        0 <= node < children.len() && !spec_loaded(order, order.len() as int, node)
            ==> !#[trigger] spec_ready(children, order, order.len() as int, node)
}

/// Whether the nodes form trees: no node is listed by two nodes, and the
/// nodes can be ranked so that every child ranks below the node that lists
/// it.
pub open spec fn spec_is_forest(children: Seq<Vec<usize>>) -> bool {
    &&& forall|first: int, second: int, child: int|
        #[trigger] spec_lists(children, first, child) && #[trigger] spec_lists(
            children,
            second,
            child,
        ) ==> first == second
    &&& exists|rank: Seq<nat>| #[trigger] spec_ranks(children, rank)
}

/// Whether `rank` gives every node a rank above those of its children.
pub open spec fn spec_ranks(children: Seq<Vec<usize>>, rank: Seq<nat>) -> bool {
    &&& rank.len() == children.len()
    &&& forall|v: int, k: int|
        0 <= v < children.len() && 0 <= k < children[v]@.len() ==> rank[#[trigger] children[v]@[k]
            as int] < rank[v]
}

/// Whether `nodes` are, in ascending order, the nodes that are not in
/// `order`.
pub open spec fn spec_is_rest(children: Seq<Vec<usize>>, order: Seq<usize>, nodes: Seq<usize>) -> bool {
    &&& forall|a: int, b: int| 0 <= a < b < nodes.len() ==> nodes[a] < nodes[b]
    &&& forall|node: int|
        0 <= node < children.len() ==> (spec_loaded(nodes, nodes.len() as int, node)
            <==> !#[trigger] spec_loaded(order, order.len() as int, node))
    &&& forall|a: int| 0 <= a < nodes.len() ==> #[trigger] nodes[a] < children.len()
}

/// A list of distinct numbers below `count` is no longer than `count`.
pub proof fn lemma_distinct_numbers_are_few(numbers: Seq<int>, count: nat)
    requires
        numbers.no_duplicates(),
        forall|t: int| 0 <= t < numbers.len() ==> 0 <= #[trigger] numbers[t] < count,
    ensures
        numbers.len() <= count,
{
    numbers.unique_seq_to_set();
    lemma_int_range(0, count as int);
    assert(numbers.to_set().subset_of(set_int_range(0, count as int))) by {
        assert forall|x: int| numbers.to_set().contains(x) implies set_int_range(
            0,
            count as int,
        ).contains(x) by {
            let t = choose|t: int| 0 <= t < numbers.len() && numbers[t] == x;
            assert(0 <= numbers[t] < count);
        }
    }
    lemma_len_subset(numbers.to_set(), set_int_range(0, count as int));
}

/// A list of distinct nodes is no longer than there are nodes.
pub proof fn lemma_distinct_nodes_are_few(order: Seq<usize>, count: nat)
    requires
        order.no_duplicates(),
        forall|t: int| 0 <= t < order.len() ==> #[trigger] order[t] < count,
    ensures
        order.len() <= count,
{
    let numbers = Seq::new(order.len(), |t: int| order[t] as int);
    assert(numbers.no_duplicates());
    lemma_distinct_numbers_are_few(numbers, count);
}

/// A child belongs to one node only.
pub proof fn lemma_owner_is_unique(children: Seq<Vec<usize>>, first: int, second: int, child: int)
    requires
        spec_owns(children, first, child),
        spec_owns(children, second, child),
    ensures
        first == second,
{
    if first < second {
        assert(!spec_lists(children, second, child));
    } else if second < first {
        assert(!spec_lists(children, first, child));
    }
}

/// What is loaded among the first nodes of an order is loaded among more of
/// them.
pub proof fn lemma_ready_grows(
    children: Seq<Vec<usize>>,
    order: Seq<usize>,
    limit: int,
    later: int,
    node: int,
)
    requires
        limit <= later,
        spec_ready(children, order, limit, node),
    ensures
        spec_ready(children, order, later, node),
{
    assert forall|k: int| 0 <= k < children[node]@.len() implies #[trigger] spec_child_ready(
        children,
        order,
        later,
        node,
        k,
    ) by {
        assert(spec_child_ready(children, order, limit, node, k));
        let s = choose|s: int|
            0 <= s < limit && s < order.len() && #[trigger] order[s] == children[node]@[k];
        assert(order[s] == children[node]@[k]);
    }
}

/// A loading order holds all nodes exactly when the nodes form trees.
pub proof fn lemma_all_loaded_iff_forest(children: Seq<Vec<usize>>, order: Seq<usize>)
    requires
        spec_valid_children(children),
        spec_is_tree_order(children, order),
    ensures
        order.len() == children.len() <==> spec_is_forest(children),
{
    lemma_distinct_nodes_are_few(order, children.len());
    if spec_is_forest(children) {
        let rank = choose|rank: Seq<nat>| #[trigger] spec_ranks(children, rank);
        assert forall|node: int| 0 <= node < children.len() implies spec_loaded(
            order,
            order.len() as int,
            node,
        ) by {
            lemma_forest_loads_by_rank(children, order, rank, rank[node] + 1);
        }
        lemma_all_loaded_is_full(children, order);
    }
    if order.len() == children.len() {
        lemma_full_order_is_forest(children, order);
    }
}

/// In a forest, a loading order holds every node below any given rank.
proof fn lemma_forest_loads_by_rank(
    children: Seq<Vec<usize>>,
    order: Seq<usize>,
    rank: Seq<nat>,
    bound: nat,
)
    requires
        spec_valid_children(children),
        spec_is_tree_order(children, order),
        spec_is_forest(children),
        spec_ranks(children, rank),
    ensures
        forall|node: int|
            0 <= node < children.len() && rank[node] < bound ==> spec_loaded(
                order,
                order.len() as int,
                node,
            ),
    decreases bound,
{
    if bound > 0 {
        lemma_forest_loads_by_rank(children, order, rank, (bound - 1) as nat);
        assert forall|node: int|
            0 <= node < children.len() && rank[node] < bound implies spec_loaded(
            order,
            order.len() as int,
            node,
        ) by {
            if !spec_loaded(order, order.len() as int, node) {
                assert(!spec_ready(children, order, order.len() as int, node));
                let k = choose|k: int|
                    0 <= k < children[node]@.len() && !#[trigger] spec_child_ready(
                        children,
                        order,
                        order.len() as int,
                        node,
                        k,
                    );
                let child = children[node]@[k] as int;
                assert(children[node]@[k] < children.len());
                assert(rank[child] < rank[node]);
                assert(spec_loaded(order, order.len() as int, child));
                assert(spec_lists(children, node, child));
                assert forall|later: int| node < later < children.len() implies !#[trigger] spec_lists(
                    children,
                    later,
                    child,
                ) by {
                    if spec_lists(children, later, child) {
                        assert(later == node);
                    }
                }
                assert(spec_owns(children, node, child));
                assert(false);
            }
        }
    }
}

/// An order that has every node loaded holds as many nodes as there are.
proof fn lemma_all_loaded_is_full(children: Seq<Vec<usize>>, order: Seq<usize>)
    requires
        order.no_duplicates(),
        forall|t: int| 0 <= t < order.len() ==> #[trigger] order[t] < children.len(),
        forall|node: int|
            0 <= node < children.len() ==> spec_loaded(order, order.len() as int, node),
    ensures
        order.len() == children.len(),
{
    lemma_distinct_nodes_are_few(order, children.len());
    let position = Seq::new(
        children.len(),
        |node: int| choose|s: int| 0 <= s < order.len() && #[trigger] order[s] == node,
    );
    assert forall|a: int, b: int|
        0 <= a < position.len() && 0 <= b < position.len() && a != b implies position[a]
        != position[b] by {
        assert(spec_loaded(order, order.len() as int, a));
        assert(spec_loaded(order, order.len() as int, b));
    }
    assert forall|t: int| 0 <= t < position.len() implies 0 <= #[trigger] position[t]
        < order.len() by {
        assert(spec_loaded(order, order.len() as int, t));
    }
    lemma_distinct_numbers_are_few(position, order.len());
}

/// If a loading order holds all nodes, the nodes form trees.
proof fn lemma_full_order_is_forest(children: Seq<Vec<usize>>, order: Seq<usize>)
    requires
        spec_valid_children(children),
        spec_is_tree_order(children, order),
        order.len() == children.len(),
    ensures
        spec_is_forest(children),
{
    lemma_full_order_holds_all(children, order);
    let rank = Seq::new(
        children.len(),
        |node: int| (choose|s: int| 0 <= s < order.len() && #[trigger] order[s] == node) as nat,
    );
    assert forall|v: int, k: int|
        0 <= v < children.len() && 0 <= k < children[v]@.len() implies rank[#[trigger] children[v]@[k]
        as int] < rank[v] by {
        let child = children[v]@[k] as int;
        assert(spec_loaded(order, order.len() as int, v));
        let t = rank[v] as int;
        assert(order[t] == v);
        assert(spec_ready(children, order, t, v));
        assert(spec_child_ready(children, order, t, v, k));
        let s = choose|s: int| 0 <= s < t && s < order.len() && #[trigger] order[s] == child;
        assert(spec_loaded(order, order.len() as int, child));
        let r = rank[child] as int;
        assert(order[r] == child);
        assert(r == s);
    }
    assert(spec_ranks(children, rank));
    assert forall|first: int, second: int, child: int|
        #[trigger] spec_lists(children, first, child) && #[trigger] spec_lists(
            children,
            second,
            child,
        ) implies first == second by {
        lemma_listed_child_is_owned(children, order, first, child);
        lemma_listed_child_is_owned(children, order, second, child);
        lemma_owner_is_unique(children, first, second, child);
    }
}

/// An order of distinct nodes that is as long as there are nodes holds all
/// of them.
proof fn lemma_full_order_holds_all(children: Seq<Vec<usize>>, order: Seq<usize>)
    requires
        order.no_duplicates(),
        forall|t: int| 0 <= t < order.len() ==> #[trigger] order[t] < children.len(),
        order.len() == children.len(),
    ensures
        forall|node: int|
            0 <= node < children.len() ==> spec_loaded(order, order.len() as int, node),
{
    assert forall|node: int| 0 <= node < children.len() implies spec_loaded(
        order,
        order.len() as int,
        node,
    ) by {
        if !spec_loaded(order, order.len() as int, node) {
            let shifted = Seq::new(
                order.len(),
                |t: int|
                    if order[t] > node {
                        order[t] - 1
                    } else {
                        order[t] as int
                    },
            );
            assert forall|a: int, b: int|
                0 <= a < shifted.len() && 0 <= b < shifted.len() && a != b implies shifted[a]
                != shifted[b] by {
                assert(order[a] != order[b]);
                assert(order[a] != node);
                assert(order[b] != node);
            }
            assert forall|t: int| 0 <= t < shifted.len() implies 0 <= #[trigger] shifted[t]
                < children.len() - 1 by {
                assert(order[t] != node);
                assert(order[t] < children.len());
            }
            lemma_distinct_numbers_are_few(shifted, (children.len() - 1) as nat);
            assert(false);
        }
    }
}

/// In a loading order that holds all nodes, every listed child belongs to
/// the node that lists it.
proof fn lemma_listed_child_is_owned(
    children: Seq<Vec<usize>>,
    order: Seq<usize>,
    parent: int,
    child: int,
)
    requires
        spec_valid_children(children),
        spec_is_tree_order(children, order),
        order.len() == children.len(),
        spec_lists(children, parent, child),
    ensures
        spec_owns(children, parent, child),
{
    lemma_full_order_holds_all(children, order);
    assert(spec_loaded(order, order.len() as int, parent));
    let t = choose|t: int| 0 <= t < order.len() && #[trigger] order[t] == parent;
    let k = choose|k: int| 0 <= k < children[parent]@.len() && #[trigger] children[parent]@[k] == child;
    assert(spec_ready(children, order, t, order[t] as int));
    assert(spec_child_ready(children, order, t, parent, k));
}

/// Whether `parent` is what the books say of `child` after the first
/// `limit` nodes have been gone through: the last of them that lists it, or
/// `children.len()` if none does.
pub open spec fn spec_parent_among(
    children: Seq<Vec<usize>>,
    limit: int,
    child: int,
    parent: int,
) -> bool {
    if parent == children.len() {
        forall|q: int| 0 <= q < limit ==> !#[trigger] spec_lists(children, q, child)
    } else {
        &&& 0 <= parent < limit
        &&& spec_lists(children, parent, child)
        &&& forall|q: int| parent < q < limit ==> !#[trigger] spec_lists(children, q, child)
    }
}

/// Whether `parents` names for every node the node it belongs to, or
/// `children.len()` for a node that is nobody's child.
pub open spec fn spec_parents(children: Seq<Vec<usize>>, parents: Seq<usize>) -> bool {
    &&& parents.len() == children.len()
    &&& forall|child: int|
        0 <= child < children.len() ==> spec_parent_among(
            children,
            children.len() as int,
            child,
            #[trigger] parents[child] as int,
        )
}

/// Whether `flags` says of every node whether it is among the first `limit`
/// nodes of `order`.
pub open spec fn spec_marks(flags: Seq<bool>, order: Seq<usize>, limit: int) -> bool {
    forall|node: int|
        0 <= node < flags.len() ==> (#[trigger] flags[node] <==> spec_loaded(order, limit, node))
}

/// With the books in order, a node owns a child it lists exactly when the
/// books name it as the child's parent.
proof fn lemma_parent_is_owner(
    children: Seq<Vec<usize>>,
    parents: Seq<usize>,
    node: int,
    k: int,
)
    requires
        spec_valid_children(children),
        spec_parents(children, parents),
        0 <= node < children.len(),
        0 <= k < children[node]@.len(),
    ensures
        spec_owns(children, node, children[node]@[k] as int) <==> parents[children[node]@[k]
            as int] == node,
{
    let child = children[node]@[k] as int;
    assert(children[node]@[k] < children.len());
    assert(spec_lists(children, node, child));
    let parent = parents[child] as int;
    assert(spec_parent_among(children, children.len() as int, child, parent));
    if parent == node {
        assert(spec_owns(children, node, child));
    } else {
        assert(parent != children.len());
        if node < parent {
            assert(!spec_owns(children, node, child));
        } else {
            assert(!spec_lists(children, node, child));
        }
    }
}

/// Whether all children of `node` belong to it and have been loaded.
fn is_ready(
    children: &Vec<Vec<usize>>,
    parents: &Vec<usize>,
    done: &Vec<bool>,
    node: usize,
    Ghost(order): Ghost<Seq<usize>>,
    Ghost(limit): Ghost<int>,
) -> (ready: bool)
    requires
        spec_valid_children(children@),
        spec_parents(children@, parents@),
        done@.len() == children@.len(),
        spec_marks(done@, order, limit),
        node < children@.len(),
    ensures
        ready == spec_ready(children@, order, limit, node as int),
{
    let list: &Vec<usize> = &children[node];
    let mut k: usize = 0;
    while k < list.len()
        invariant
            spec_valid_children(children@),
            spec_parents(children@, parents@),
            done@.len() == children@.len(),
            spec_marks(done@, order, limit),
            node < children@.len(),
            list@ == children@[node as int]@,
            k <= list@.len(),
            forall|j: int|
                0 <= j < k ==> #[trigger] spec_child_ready(children@, order, limit, node as int, j),
        decreases list@.len() - k,
    {
        let child: usize = list[k];
        proof {
            assert(children@[node as int]@[k as int] < children@.len());
            lemma_parent_is_owner(children@, parents@, node as int, k as int);
        }
        if parents[child] != node || !done[child] {
            proof {
                assert(!spec_child_ready(children@, order, limit, node as int, k as int));
            }
            return false;
        }
        k = k + 1;
    }
    true
}

impl GltfTreeIterator {
    /// The nodes that are still to come, the next one last.
    pub closed spec fn spec_nodes(&self) -> Seq<usize> {
        self.nodes@
    }

    /// The nodes that are still to come, in the order in which they come.
    pub open spec fn spec_upcoming(&self) -> Seq<usize> {
        self.spec_nodes().reverse()
    }

    /// Orders the nodes of a file for loading. `children` lists for every
    /// node the numbers of its children, which must all be numbers of nodes.
    ///
    /// Succeeds exactly when the nodes form trees; the iterator then yields
    /// every node once, after all of its children. Otherwise fails with
    /// `CircularChildren` and the nodes that a loading order leaves out, in
    /// ascending order.
    pub fn try_new(children: &Vec<Vec<usize>>) -> (made: Result<Self, GltfError>)
        requires
            spec_valid_children(children@),
        ensures
            made is Ok <==> spec_is_forest(children@),
            made is Ok ==> spec_is_tree_order(children@, made->Ok_0.spec_upcoming())
                && made->Ok_0.spec_upcoming().len() == children@.len(),
            made is Err ==> made->Err_0 is CircularChildren && made->Err_0->CircularChildren_0@.len()
                > 0 && exists|order: Seq<usize>|
                #[trigger] spec_is_tree_order(children@, order) && spec_is_rest(
                    children@,
                    order,
                    made->Err_0->CircularChildren_0@,
                ),
    {
        let count: usize = children.len();
        let parents = find_parents(children);
        let mut queue: Vec<usize> = Vec::new();
        let mut queued: Vec<bool> = Vec::new();
        let mut done: Vec<bool> = Vec::new();
        let mut node: usize = 0;
        while node < count
            invariant
                count == children@.len(),
                node <= count,
                queued@.len() == node,
                done@.len() == node,
                forall|u: int| 0 <= u < node ==> !#[trigger] done@[u],
                forall|u: int|
                    0 <= u < node ==> (#[trigger] queued@[u] <==> children@[u]@.len() == 0),
                forall|u: int|
                    0 <= u < node ==> (queued@[u] <==> #[trigger] spec_loaded(
                        queue@,
                        queue@.len() as int,
                        u,
                    )),
                forall|t: int| 0 <= t < queue@.len() ==> #[trigger] queue@[t] < node,
                forall|a: int, b: int| 0 <= a < b < queue@.len() ==> queue@[a] < queue@[b],
            decreases count - node,
        {
            let ghost before = queue@;
            if children[node].len() == 0 {
                queue.push(node);
                queued.push(true);
                proof {
                    assert(queue@[before.len() as int] == node);
                    assert forall|u: int| 0 <= u < node + 1 implies (queued@[u]
                        <==> #[trigger] spec_loaded(queue@, queue@.len() as int, u)) by {
                        if u < node {
                            if spec_loaded(before, before.len() as int, u) {
                                let s = choose|s: int|
                                    0 <= s < before.len() && #[trigger] before[s] == u;
                                assert(queue@[s] == u);
                            }
                            if spec_loaded(queue@, queue@.len() as int, u) {
                                let s = choose|s: int|
                                    0 <= s < queue@.len() && #[trigger] queue@[s] == u;
                                assert(before[s] == u);
                            }
                        }
                    }
                }
            } else {
                queued.push(false);
                proof {
                    assert(!spec_loaded(queue@, queue@.len() as int, node as int));
                }
            }
            done.push(false);
            node = node + 1;
        }
        let mut head: usize = 0;
        proof {
            assert(queue@.no_duplicates());
            assert forall|t: int| 0 <= t < queue@.len() implies #[trigger] spec_ready(
                children@,
                queue@,
                t,
                queue@[t] as int,
            ) by {
                assert(spec_loaded(queue@, queue@.len() as int, queue@[t] as int));
            }
            assert forall|u: int| 0 <= u < count && !queued@[u] implies !#[trigger] spec_ready(
                children@,
                queue@,
                0,
                u,
            ) by {
                assert(!spec_child_ready(children@, queue@, 0, u, 0));
            }
        }
        while head < queue.len()
            invariant
                count == children@.len(),
                spec_valid_children(children@),
                spec_parents(children@, parents@),
                queued@.len() == count,
                done@.len() == count,
                head <= queue@.len(),
                queue@.no_duplicates(),
                forall|t: int| 0 <= t < queue@.len() ==> #[trigger] queue@[t] < count,
                spec_marks(queued@, queue@, queue@.len() as int),
                spec_marks(done@, queue@, head as int),
                forall|t: int|
                    0 <= t < queue@.len() ==> #[trigger] spec_ready(
                        children@,
                        queue@,
                        t,
                        queue@[t] as int,
                    ),
                forall|u: int|
                    0 <= u < count && !queued@[u] ==> !#[trigger] spec_ready(
                        children@,
                        queue@,
                        head as int,
                        u,
                    ),
            decreases count - head,
        {
            proof {
                lemma_distinct_nodes_are_few(queue@, count as nat);
            }
            let ghost old_queue = queue@;
            let ghost old_head = head as int;
            let ghost old_done = done@;
            let ghost old_queued = queued@;
            let index: usize = queue[head];
            done.set(index, true);
            head = head + 1;
            proof {
                assert forall|u: int| 0 <= u < count implies (#[trigger] done@[u] <==> spec_loaded(
                    old_queue,
                    head as int,
                    u,
                )) by {
                    if u == index {
                        assert(old_queue[old_head] == u);
                    } else {
                        if spec_loaded(old_queue, head as int, u) {
                            let s = choose|s: int|
                                0 <= s < head && s < old_queue.len() && #[trigger] old_queue[s]
                                    == u;
                            assert(s != old_head);
                            assert(old_queue[s] == u);
                        }
                        if spec_loaded(old_queue, old_head, u) {
                            let s = choose|s: int|
                                0 <= s < old_head && s < old_queue.len()
                                    && #[trigger] old_queue[s] == u;
                            assert(old_queue[s] == u);
                        }
                    }
                }
                assert(spec_marks(done@, old_queue, head as int));
            }
            let parent: usize = parents[index];
            let mut pushed: bool = false;
            if parent < count {
                if !queued[parent] {
                    if is_ready(children, &parents, &done, parent, Ghost(queue@), Ghost(head as int)) {
                        queue.push(parent);
                        queued.set(parent, true);
                        pushed = true;
                    }
                }
            }
            proof {
                let new_queue = queue@;
                assert(forall|s: int| 0 <= s < old_queue.len() ==> new_queue[s] == old_queue[s]);
                assert forall|order_limit: int, u: int|
                    0 <= order_limit <= old_queue.len() implies (#[trigger] spec_loaded(
                    new_queue,
                    order_limit,
                    u,
                ) <==> spec_loaded(old_queue, order_limit, u)) by {
                    if spec_loaded(new_queue, order_limit, u) {
                        let s = choose|s: int|
                            0 <= s < order_limit && s < new_queue.len() && #[trigger] new_queue[s]
                                == u;
                        assert(old_queue[s] == u);
                    }
                    if spec_loaded(old_queue, order_limit, u) {
                        let s = choose|s: int|
                            0 <= s < order_limit && s < old_queue.len() && #[trigger] old_queue[s]
                                == u;
                        assert(new_queue[s] == u);
                    }
                }
                assert forall|order_limit: int, u: int|
                    0 <= order_limit <= old_queue.len() && 0 <= u < count implies (
                #[trigger] spec_ready(children@, new_queue, order_limit, u) <==> spec_ready(
                    children@,
                    old_queue,
                    order_limit,
                    u,
                )) by {
                    if spec_ready(children@, new_queue, order_limit, u) {
                        assert forall|k: int|
                            0 <= k < children@[u]@.len() implies #[trigger] spec_child_ready(
                            children@,
                            old_queue,
                            order_limit,
                            u,
                            k,
                        ) by {
                            assert(spec_child_ready(children@, new_queue, order_limit, u, k));
                        }
                    }
                    if spec_ready(children@, old_queue, order_limit, u) {
                        assert forall|k: int|
                            0 <= k < children@[u]@.len() implies #[trigger] spec_child_ready(
                            children@,
                            new_queue,
                            order_limit,
                            u,
                            k,
                        ) by {
                            assert(spec_child_ready(children@, old_queue, order_limit, u, k));
                        }
                    }
                }
                // The queue still names distinct nodes and the marks follow it.
                if pushed {
                    assert(!spec_loaded(old_queue, old_queue.len() as int, parent as int));
                    assert forall|a: int, b: int|
                        0 <= a < new_queue.len() && 0 <= b < new_queue.len() && a != b implies new_queue[a]
                        != new_queue[b] by {
                        if a < old_queue.len() && b < old_queue.len() {
                            assert(old_queue[a] != old_queue[b]);
                        } else if a < old_queue.len() {
                            assert(old_queue[a] != parent);
                        } else {
                            assert(old_queue[b] != parent);
                        }
                    }
                    assert forall|u: int| 0 <= u < count implies (#[trigger] queued@[u]
                        <==> spec_loaded(new_queue, new_queue.len() as int, u)) by {
                        if u == parent {
                            assert(new_queue[old_queue.len() as int] == u);
                        } else {
                            if spec_loaded(new_queue, new_queue.len() as int, u) {
                                let s = choose|s: int|
                                    0 <= s < new_queue.len() && #[trigger] new_queue[s] == u;
                                assert(s < old_queue.len());
                                assert(old_queue[s] == u);
                            }
                            if spec_loaded(old_queue, old_queue.len() as int, u) {
                                let s = choose|s: int|
                                    0 <= s < old_queue.len() && #[trigger] old_queue[s] == u;
                                assert(new_queue[s] == u);
                            }
                        }
                    }
                    lemma_ready_grows(
                        children@,
                        new_queue,
                        head as int,
                        old_queue.len() as int,
                        parent as int,
                    );
                }
                assert(spec_marks(queued@, new_queue, new_queue.len() as int));
                assert(spec_marks(done@, new_queue, head as int));
                assert forall|t: int| 0 <= t < new_queue.len() implies #[trigger] spec_ready(
                    children@,
                    new_queue,
                    t,
                    new_queue[t] as int,
                ) by {
                    if t < old_queue.len() {
                        assert(spec_ready(children@, old_queue, t, old_queue[t] as int));
                    }
                }
                // A node that is not queued still waits for a child.
                assert forall|u: int| 0 <= u < count && !queued@[u] implies !#[trigger] spec_ready(
                    children@,
                    new_queue,
                    head as int,
                    u,
                ) by {
                    assert(!old_queued[u]);
                    if u == parent {
                        assert(!spec_ready(children@, old_queue, head as int, u));
                    } else {
                        assert(!spec_ready(children@, old_queue, old_head, u));
                        let k = choose|k: int|
                            0 <= k < children@[u]@.len() && !#[trigger] spec_child_ready(
                                children@,
                                old_queue,
                                old_head,
                                u,
                                k,
                            );
                        let child = children@[u]@[k] as int;
                        if spec_owns(children@, u, child) {
                            assert(!spec_loaded(old_queue, old_head, child));
                            if spec_loaded(old_queue, head as int, child) {
                                let s = choose|s: int|
                                    0 <= s < head && s < old_queue.len()
                                        && #[trigger] old_queue[s] == child;
                                if s < old_head {
                                    assert(old_queue[s] == child);
                                    assert(false);
                                }
                                assert(child == index);
                                assert(spec_parent_among(
                                    children@,
                                    count as int,
                                    index as int,
                                    parents@[index as int] as int,
                                ));
                                if parent < count {
                                    lemma_owner_is_unique(children@, u, parent as int, child);
                                }
                                assert(false);
                            }
                        }
                        assert(!spec_child_ready(children@, old_queue, head as int, u, k));
                    }
                }
            }
        }
        proof {
            assert(spec_is_tree_order(children@, queue@));
            lemma_all_loaded_iff_forest(children@, queue@);
            lemma_distinct_nodes_are_few(queue@, count as nat);
        }
        if queue.len() < count {
            let mut rest: Vec<usize> = Vec::new();
            let mut node: usize = 0;
            while node < count
                invariant
                    count == children@.len(),
                    node <= count,
                    queued@.len() == count,
                    spec_marks(queued@, queue@, queue@.len() as int),
                    forall|a: int, b: int| 0 <= a < b < rest@.len() ==> rest@[a] < rest@[b],
                    forall|a: int| 0 <= a < rest@.len() ==> #[trigger] rest@[a] < node,
                    forall|u: int|
                        0 <= u < node ==> (#[trigger] spec_loaded(rest@, rest@.len() as int, u)
                            <==> !queued@[u]),
                decreases count - node,
            {
                let ghost before = rest@;
                if !queued[node] {
                    rest.push(node);
                    proof {
                        assert(rest@[before.len() as int] == node);
                    }
                }
                proof {
                    assert forall|u: int| 0 <= u < node + 1 implies (#[trigger] spec_loaded(
                        rest@,
                        rest@.len() as int,
                        u,
                    ) <==> !queued@[u]) by {
                        if spec_loaded(rest@, rest@.len() as int, u) {
                            let s = choose|s: int|
                                0 <= s < rest@.len() && #[trigger] rest@[s] == u;
                            if s < before.len() {
                                assert(before[s] == u);
                                assert(spec_loaded(before, before.len() as int, u));
                            }
                        }
                        if u < node && spec_loaded(before, before.len() as int, u) {
                            let s = choose|s: int|
                                0 <= s < before.len() && #[trigger] before[s] == u;
                            assert(rest@[s] == u);
                        }
                    }
                }
                node = node + 1;
            }
            proof {
                assert(spec_is_rest(children@, queue@, rest@));
                if rest@.len() == 0 {
                    assert forall|u: int| 0 <= u < count implies spec_loaded(
                        queue@,
                        queue@.len() as int,
                        u,
                    ) by {
                        assert(!spec_loaded(rest@, rest@.len() as int, u));
                    }
                    lemma_all_loaded_is_full(children@, queue@);
                }
            }
            return Err(GltfError::CircularChildren(rest));
        }
        let mut nodes: Vec<usize> = Vec::new();
        let mut taken: usize = queue.len();
        while taken > 0
            invariant
                taken <= queue@.len(),
                nodes@.len() == queue@.len() - taken,
                forall|t: int|
                    0 <= t < nodes@.len() ==> #[trigger] nodes@[t] == queue@[queue@.len() - 1 - t],
            decreases taken,
        {
            taken = taken - 1;
            nodes.push(queue[taken]);
        }
        let made = GltfTreeIterator { nodes };
        proof {
            assert(made.spec_upcoming() =~= queue@);
        }
        Ok(made)
    }

    /// The next node in loading order, or nothing when all have been
    /// yielded.
    pub fn next(&mut self) -> (node: Option<usize>)
        ensures
            old(self).spec_upcoming().len() == 0 ==> node is None && final(self).spec_upcoming()
                == old(self).spec_upcoming(),
            old(self).spec_upcoming().len() > 0 ==> node == Some(old(self).spec_upcoming()[0])
                && final(self).spec_upcoming() == old(self).spec_upcoming().skip(1),
    {
        let node = self.nodes.pop();
        proof {
            assert(self.spec_upcoming().len() == self.nodes@.len());
            if old(self).nodes@.len() > 0 {
                assert(self.spec_upcoming() =~= old(self).spec_upcoming().skip(1));
            } else {
                assert(self.spec_upcoming() =~= old(self).spec_upcoming());
            }
        }
        node
    }

    /// Number of nodes that are still to come.
    pub fn len(&self) -> (len: usize)
        ensures
            len == self.spec_upcoming().len(),
    {
        self.nodes.len()
    }
}

/// Finds for every node the node it belongs to: the last node that lists it.
/// A node that no node lists gets the number of nodes.
fn find_parents(children: &Vec<Vec<usize>>) -> (parents: Vec<usize>)
    requires
        spec_valid_children(children@),
    ensures
        spec_parents(children@, parents@),
{
    let count: usize = children.len();
    let mut parents: Vec<usize> = Vec::new();
    let mut filled: usize = 0;
    while filled < count
        invariant
            filled <= count,
            parents@.len() == filled,
            forall|c: int| 0 <= c < filled ==> #[trigger] parents@[c] == count,
        decreases count - filled,
    {
        parents.push(count);
        filled = filled + 1;
    }
    let mut node: usize = 0;
    while node < count
        invariant
            count == children@.len(),
            spec_valid_children(children@),
            node <= count,
            parents@.len() == count,
            forall|c: int|
                0 <= c < count ==> spec_parent_among(
                    children@,
                    node as int,
                    c,
                    #[trigger] parents@[c] as int,
                ),
        decreases count - node,
    {
        let list: &Vec<usize> = &children[node];
        let ghost before = parents@;
        let mut k: usize = 0;
        while k < list.len()
            invariant
                count == children@.len(),
                spec_valid_children(children@),
                node < count,
                list@ == children@[node as int]@,
                k <= list@.len(),
                parents@.len() == count,
                before.len() == count,
                forall|c: int|
                    0 <= c < count ==> spec_parent_among(
                        children@,
                        node as int,
                        c,
                        #[trigger] before[c] as int,
                    ),
                forall|c: int|
                    0 <= c < count ==> #[trigger] parents@[c] == (if exists|j: int|
                        0 <= j < k && #[trigger] list@[j] == c {
                        node
                    } else {
                        before[c]
                    }),
            decreases list@.len() - k,
        {
            let child: usize = list[k];
            proof {
                assert(children@[node as int]@[k as int] < children@.len());
            }
            let ghost earlier = parents@;
            parents.set(child, node);
            proof {
                assert forall|c: int| 0 <= c < count implies #[trigger] parents@[c] == (if exists|
                    j: int,
                |
                    0 <= j < k + 1 && #[trigger] list@[j] == c {
                    node
                } else {
                    before[c]
                }) by {
                    if c == child {
                        assert(list@[k as int] == c);
                    } else {
                        if exists|j: int| 0 <= j < k + 1 && #[trigger] list@[j] == c {
                            let j = choose|j: int| 0 <= j < k + 1 && #[trigger] list@[j] == c;
                            assert(j < k);
                            assert(list@[j] == c);
                        }
                    }
                }
            }
            k = k + 1;
        }
        proof {
            assert forall|c: int| 0 <= c < count implies spec_parent_among(
                children@,
                node + 1,
                c,
                #[trigger] parents@[c] as int,
            ) by {
                assert(spec_parent_among(children@, node as int, c, before[c] as int));
                if exists|j: int| 0 <= j < list@.len() && #[trigger] list@[j] == c {
                    let j = choose|j: int| 0 <= j < list@.len() && #[trigger] list@[j] == c;
                    assert(children@[node as int]@[j] == c);
                    assert(spec_lists(children@, node as int, c));
                } else {
                    assert(!spec_lists(children@, node as int, c));
                }
            }
        }
        node = node + 1;
    }
    parents
}

} // verus!
