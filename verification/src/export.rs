use vstd::prelude::*;

use petgraph::Directed;
use petgraph::graph::EdgeIndex;
use petgraph::graph::Graph;
use petgraph::graph::NodeIndex;

use crate::digits::dec_digits;
use crate::text::find_char_from;
use crate::text::sp_find_from;
use crate::text::sp_trim;
use crate::text::trim_bounds;
use crate::digits::push_dec_usize;

verus! {

// The graph export: a finished tree's rendered text is read back into a
// directed graph — one vertex per label, one edge per parent-child pair —
// and written out in the DOT graph-description format. The graph itself is
// petgraph's; the library speaks of it through `graph_labels` and
// `graph_edge_list` and a handful of trusted wrappers, and everything
// around those calls is verified.

#[verifier::external_type_specification]
#[verifier::external_body]
#[verifier::reject_recursive_types(N)]
#[verifier::reject_recursive_types(E)]
#[verifier::reject_recursive_types(Ty)]
#[verifier::reject_recursive_types(Ix)]
pub struct ExGraph<N, E, Ty, Ix>(Graph<N, E, Ty, Ix>);

#[verifier::external_type_specification]
#[verifier::external_body]
pub struct ExDirected(Directed);

/// The directed graph the exporter builds: string labels on the vertices,
/// nothing on the edges.
pub type LabelGraph = Graph<String, (), Directed, u32>;

/// The labels of the graph's vertices, in insertion order; petgraph hands
/// out node indices sequentially, so the vertex with index `i` carries
/// `graph_labels(g)[i]`.
pub uninterp spec fn graph_labels(g: LabelGraph) -> Seq<Seq<char>>;

/// The graph's edges as (source, target) index pairs, in insertion order.
pub uninterp spec fn graph_edge_list(g: LabelGraph) -> Seq<(int, int)>;

/// Relies on petgraph's `Graph::new`: a fresh graph has no nodes and no
/// edges.
#[verifier::external_body]
fn graph_new() -> (g: LabelGraph)
    ensures
        graph_labels(g) == Seq::<Seq<char>>::empty(),
        graph_edge_list(g) == Seq::<(int, int)>::empty(),
{
    Graph::new()
}

/// Relies on petgraph's `Graph::add_node`: the new node's index is the old
/// node count, nodes are kept in insertion order, and edges are untouched;
/// the call panics only when the node count reaches the index type's
/// maximum, which the bound below rules out.
#[verifier::external_body]
fn graph_add_node(g: &mut LabelGraph, label: String) -> (ix: usize)
    requires
        graph_labels(*old(g)).len() < 4294967295,
    ensures
        graph_labels(*final(g)) == graph_labels(*old(g)).push(label@),
        graph_edge_list(*final(g)) == graph_edge_list(*old(g)),
        ix == graph_labels(*old(g)).len(),
{
    g.add_node(label).index()
}

/// Relies on petgraph's `Graph::add_edge`: the new edge is appended with
/// the endpoints as given and nodes are untouched; the call panics only on
/// a missing endpoint or when the edge count reaches the index type's
/// maximum, which the bounds below rule out.
#[verifier::external_body]
fn graph_add_edge(g: &mut LabelGraph, a: usize, b: usize)
    requires
        a < graph_labels(*old(g)).len(),
        b < graph_labels(*old(g)).len(),
        a < 4294967295,
        b < 4294967295,
        graph_edge_list(*old(g)).len() < 4294967295,
    ensures
        graph_labels(*final(g)) == graph_labels(*old(g)),
        graph_edge_list(*final(g)) == graph_edge_list(*old(g)).push((a as int, b as int)),
{
    g.add_edge(NodeIndex::new(a), NodeIndex::new(b), ());
}

/// Relies on petgraph's `Graph::node_count`: the number of nodes.
#[verifier::external_body]
pub(crate) fn graph_node_count(g: &LabelGraph) -> (n: usize)
    ensures
        n == graph_labels(*g).len(),
{
    g.node_count()
}

/// Relies on petgraph's `Graph::edge_count`: the number of edges.
#[verifier::external_body]
pub(crate) fn graph_edge_count(g: &LabelGraph) -> (n: usize)
    ensures
        n == graph_edge_list(*g).len(),
{
    g.edge_count()
}

/// Relies on petgraph's `Graph::node_weight`: the weight stored at a live
/// index, which exists for every index below the node count.
#[verifier::external_body]
pub(crate) fn graph_node_label(g: &LabelGraph, i: usize) -> (r: String)
    requires
        i < graph_labels(*g).len(),
    ensures
        r@ == graph_labels(*g)[i as int],
{
    g.node_weight(NodeIndex::new(i)).unwrap().clone()
}

/// Relies on petgraph's `Graph::edge_endpoints`: the (source, target) pair
/// an edge was inserted with, which exists for every index below the edge
/// count.
#[verifier::external_body]
pub(crate) fn graph_edge_endpoints(g: &LabelGraph, e: usize) -> (r: (usize, usize))
    requires
        e < graph_edge_list(*g).len(),
    ensures
        r.0 as int == graph_edge_list(*g)[e as int].0,
        r.1 as int == graph_edge_list(*g)[e as int].1,
{
    let (a, b) = g.edge_endpoints(EdgeIndex::new(e)).unwrap();
    (a.index(), b.index())
}

/// The reader's state while it scans a rendered tree: the labels and edges
/// already in the graph, the stack of open vertices, and the label text
/// gathered since the last delimiter.
pub struct TreeSketch {
    pub labels: Seq<Seq<char>>,
    pub edges: Seq<(int, int)>,
    pub stack: Seq<int>,
    pub label: Seq<char>,
}

/// The state before anything is read.
pub open spec fn sp_tree_start() -> TreeSketch {
    TreeSketch {
        labels: Seq::empty(),
        edges: Seq::empty(),
        stack: Seq::empty(),
        label: Seq::empty(),
    }
}

/// A gathered label becomes a vertex, with an edge from the vertex on top
/// of the stack, if any; an empty label becomes nothing.
pub open spec fn sp_flush(st: TreeSketch) -> TreeSketch {
    if st.label.len() > 0 {
        let ix = st.labels.len() as int;
        TreeSketch {
            labels: st.labels.push(st.label),
            edges: if st.stack.len() > 0 {
                st.edges.push((st.stack.last(), ix))
            } else {
                st.edges
            },
            stack: st.stack,
            label: Seq::empty(),
        }
    } else {
        st
    }
}

/// One character of the rendered tree: `(` flushes the label and opens it
/// as a new parent, `)` flushes and closes the innermost parent, `,`
/// flushes between siblings, and anything else extends the label.
pub open spec fn sp_step(st: TreeSketch, c: char) -> TreeSketch {
    if c == '(' {
        if st.label.len() > 0 {
            let ix = st.labels.len() as int;
            let st1 = sp_flush(st);
            TreeSketch { stack: st1.stack.push(ix), ..st1 }
        } else {
            st
        }
    } else if c == ')' {
        let st1 = sp_flush(st);
        TreeSketch {
            stack: if st1.stack.len() > 0 {
                st1.stack.drop_last()
            } else {
                st1.stack
            },
            ..st1
        }
    } else if c == ',' {
        sp_flush(st)
    } else {
        TreeSketch { label: st.label.push(c), ..st }
    }
}

/// The state after reading every character of `s`, left to right.
pub open spec fn sp_run(st: TreeSketch, s: Seq<char>) -> TreeSketch
    decreases s.len(),
{
    if s.len() == 0 {
        st
    } else {
        sp_run(sp_step(st, s[0]), s.subrange(1, s.len() as int))
    }
}

/// The characters the reader actually sees, from position `pos` on: the
/// text is split at line feeds and each line is trimmed of surrounding
/// whitespace, exactly as reading the text line by line and trimming each
/// line would give.
pub open spec fn sp_effective_from(s: Seq<char>, pos: int) -> Seq<char>
    decreases s.len() - pos,
{
    if pos > s.len() || pos < 0 {
        Seq::empty()
    } else {
        let k = sp_find_from(s, '\n', pos);
        if pos <= k && k < s.len() {
            sp_trim(s.subrange(pos, k)) + sp_effective_from(s, k + 1)
        } else {
            sp_trim(s.subrange(pos, s.len() as int))
        }
    }
}

/// The state a rendered tree's whole text leaves the reader in.
pub open spec fn sp_parse_tree(content: Seq<char>) -> TreeSketch {
    sp_run(sp_tree_start(), sp_effective_from(content, 0))
}

/// The stack's entries as mathematical integers.
pub open spec fn ints_of(s: Seq<usize>) -> Seq<int> {
    Seq::new(s.len(), |i: int| s[i] as int)
}

/// The sketch a graph, stack and gathered label stand for.
pub open spec fn sketch_of(g: LabelGraph, stack: Seq<usize>, label: Seq<char>) -> TreeSketch {
    TreeSketch {
        labels: graph_labels(g),
        edges: graph_edge_list(g),
        stack: ints_of(stack),
        label: label,
    }
}

/// Turns a gathered label into a vertex, with an edge from the vertex on
/// top of the stack, if any, and hands back the new vertex's index.
fn flush_node(graph: &mut LabelGraph, stack: &Vec<usize>, label: String) -> (ix: usize)
    requires
        graph_labels(*old(graph)).len() < 4294967295,
        graph_edge_list(*old(graph)).len() < 4294967295,
        forall|j: int|
            0 <= j < stack@.len() ==> #[trigger] stack@[j] < graph_labels(*old(graph)).len(),
        label@.len() > 0,
    ensures
        sketch_of(*final(graph), stack@, Seq::empty()) == sp_flush(
            sketch_of(*old(graph), stack@, label@),
        ),
        ix == graph_labels(*old(graph)).len(),
        graph_labels(*final(graph)).len() == graph_labels(*old(graph)).len() + 1,
        graph_edge_list(*final(graph)).len() <= graph_edge_list(*old(graph)).len() + 1,
{
    let ix = graph_add_node(graph, label);
    if stack.len() > 0 {
        let p = stack[stack.len() - 1];
        graph_add_edge(graph, p, ix);
        proof {
            assert(ints_of(stack@).last() == p as int);
        }
    }
    ix
}

/// Reads a rendered tree's text back into a directed graph: every label
/// becomes a vertex, every enclosing label its parent (see
/// `sp_parse_tree`). The text is read line by line, each line trimmed.
pub fn parse_tree(content: &str) -> (g: LabelGraph)
    requires
        content@.len() < 4294967295,
    ensures
        graph_labels(g) == sp_parse_tree(content@).labels,
        graph_edge_list(g) == sp_parse_tree(content@).edges,
{
    let ghost target = sp_parse_tree(content@);
    let n = content.unicode_len();
    let mut graph = graph_new();
    let mut stack: Vec<usize> = Vec::new();
    let mut current_label = String::new();
    let mut pos: usize = 0;
    let ghost mut consumed: int = 0;
    proof {
        assert(ints_of(stack@) =~= Seq::<int>::empty());
        assert(sketch_of(graph, stack@, current_label@) == sp_tree_start());
    }
    let mut done = false;
    while !done
        invariant
            pos <= n,
            n == content@.len(),
            n < 4294967295,
            !done ==> 0 <= consumed <= pos,
            !done ==> graph_labels(graph).len() + current_label@.len() <= consumed,
            !done ==> graph_edge_list(graph).len() <= graph_labels(graph).len(),
            !done ==> forall|j: int|
                0 <= j < stack@.len() ==> #[trigger] stack@[j] < graph_labels(graph).len(),
            !done ==> sp_run(
                sketch_of(graph, stack@, current_label@),
                sp_effective_from(content@, pos as int),
            ) == target,
            done ==> graph_labels(graph) == target.labels && graph_edge_list(graph)
                == target.edges,
        decreases n - pos + (if done {
            0int
        } else {
            1int
        }),
    {
        let k = find_char_from(content, pos, '\n');
        let (a, b) = trim_bounds(content, pos, k);
        let ghost seg = sp_trim(content@.subrange(pos as int, k as int));
        let ghost rest = if k < n {
            sp_effective_from(content@, k + 1 as int)
        } else {
            Seq::<char>::empty()
        };
        proof {
            if k < n {
                assert(sp_effective_from(content@, pos as int) == seg + rest);
            } else {
                assert(sp_effective_from(content@, pos as int) == seg);
                assert(seg + rest =~= seg);
            }
        }
        let mut i: usize = a;
        while i < b
            invariant
                pos <= a <= i <= b <= k <= n,
                n == content@.len(),
                n < 4294967295,
                0 <= consumed <= i,
                graph_labels(graph).len() + current_label@.len() <= consumed,
                graph_edge_list(graph).len() <= graph_labels(graph).len(),
                forall|j: int|
                    0 <= j < stack@.len() ==> #[trigger] stack@[j] < graph_labels(graph).len(),
                seg == sp_trim(content@.subrange(pos as int, k as int)),
                seg == content@.subrange(a as int, b as int),
                sp_run(
                    sketch_of(graph, stack@, current_label@),
                    content@.subrange(i as int, b as int) + rest,
                ) == target,
            decreases b - i,
        {
            let ghost st0 = sketch_of(graph, stack@, current_label@);
            let ghost remaining = content@.subrange(i as int, b as int) + rest;
            let c = content.get_char(i);
            proof {
                assert(remaining[0] == c);
                assert(remaining.subrange(1, remaining.len() as int) =~= content@.subrange(
                    i + 1 as int,
                    b as int,
                ) + rest);
            }
            if c == '(' {
                if current_label.as_str().unicode_len() > 0 {
                    let ghost stk0 = stack@;
                    let ix = flush_node(&mut graph, &stack, current_label);
                    stack.push(ix);
                    current_label = String::new();
                    proof {
                        assert(ints_of(stack@) =~= ints_of(stk0).push(ix as int));
                        assert(sketch_of(graph, stack@, current_label@) == sp_step(st0, c));
                    }
                }
            } else if c == ')' {
                if current_label.as_str().unicode_len() > 0 {
                    flush_node(&mut graph, &stack, current_label);
                    current_label = String::new();
                }
                if stack.len() > 0 {
                    let ghost stk0 = stack@;
                    let _ = stack.pop();
                    proof {
                        assert(ints_of(stack@) =~= ints_of(stk0).drop_last());
                    }
                }
                proof {
                    assert(sketch_of(graph, stack@, current_label@) == sp_step(st0, c));
                }
            } else if c == ',' {
                if current_label.as_str().unicode_len() > 0 {
                    flush_node(&mut graph, &stack, current_label);
                    current_label = String::new();
                }
                proof {
                    assert(sketch_of(graph, stack@, current_label@) == sp_step(st0, c));
                }
            } else {
                current_label.append(content.substring_char(i, i + 1));
                proof {
                    assert(content@.subrange(i as int, i + 1 as int) =~= seq![c]);
                    assert(current_label@ =~= st0.label.push(c));
                    assert(sketch_of(graph, stack@, current_label@) == sp_step(st0, c));
                }
            }
            proof {
                consumed = consumed + 1;
                assert(sp_run(st0, remaining) == sp_run(
                    sp_step(st0, c),
                    remaining.subrange(1, remaining.len() as int),
                ));
            }
            i = i + 1;
        }
        proof {
            assert(content@.subrange(b as int, b as int) + rest =~= rest);
            consumed = if k < n {
                k + 1
            } else {
                consumed
            };
        }
        if k < n {
            pos = k + 1;
        } else {
            proof {
                assert(sp_run(sketch_of(graph, stack@, current_label@), rest) == target);
            }
            done = true;
        }
    }
    graph
}

/// A label with every double quote replaced by a single quote, so that it
/// cannot break the DOT format's quoting.
pub open spec fn sp_sanitize(s: Seq<char>) -> Seq<char> {
    s.map_values(
        |c: char|
            if c == '"' {
                '\''
            } else {
                c
            },
    )
}

/// Replaces every double quote in `label` by a single quote (see
/// `sp_sanitize`).
pub fn sanitize_label(label: &str) -> (r: String)
    ensures
        r@ == sp_sanitize(label@),
{
    let n = label.unicode_len();
    let mut s = String::new();
    let mut i: usize = 0;
    while i < n
        invariant
            0 <= i <= n,
            n == label@.len(),
            s@ == sp_sanitize(label@.subrange(0, i as int)),
        decreases n - i,
    {
        let c = label.get_char(i);
        if c == '"' {
            s.append("'");
            proof {
                reveal_strlit("'");
            }
        } else {
            s.append(label.substring_char(i, i + 1));
        }
        proof {
            assert(s@ =~= sp_sanitize(label@.subrange(0, i + 1 as int)));
        }
        i = i + 1;
    }
    proof {
        assert(label@.subrange(0, n as int) =~= label@);
    }
    s
}

/// The DOT lines for the vertices from index `i` on: four spaces, the
/// index, the sanitized label in a quoted label attribute, and a
/// semicolon, one vertex per line.
pub open spec fn sp_dot_nodes(labels: Seq<Seq<char>>, i: int) -> Seq<char>
    decreases labels.len() - i,
{
    if 0 <= i < labels.len() {
        "    "@ + dec_digits(i) + " [label=\""@ + sp_sanitize(labels[i]) + "\"];\n"@
            + sp_dot_nodes(labels, i + 1)
    } else {
        Seq::empty()
    }
}

/// The DOT lines for the edges from index `i` on: four spaces, the source
/// index, an arrow, the target index, and a semicolon, one edge per line.
pub open spec fn sp_dot_edges(edges: Seq<(int, int)>, i: int) -> Seq<char>
    decreases edges.len() - i,
{
    if 0 <= i < edges.len() {
        "    "@ + dec_digits(edges[i].0) + " -> "@ + dec_digits(edges[i].1) + ";\n"@
            + sp_dot_edges(edges, i + 1)
    } else {
        Seq::empty()
    }
}

/// The whole DOT text of a graph: the header, the vertex lines, the edge
/// lines, and the closing brace.
pub open spec fn sp_dot(labels: Seq<Seq<char>>, edges: Seq<(int, int)>) -> Seq<char> {
    "digraph G {\n"@ + sp_dot_nodes(labels, 0) + sp_dot_edges(edges, 0) + "}\n"@
}

/// Renders a graph in the DOT graph-description format (see `sp_dot`).
pub fn graph_dot(g: &LabelGraph) -> (r: String)
    ensures
        r@ == sp_dot(graph_labels(*g), graph_edge_list(*g)),
{
    let ghost labels = graph_labels(*g);
    let ghost edges = graph_edge_list(*g);
    let mut s = String::from_str("digraph G {\n");
    let n = graph_node_count(g);
    let mut i: usize = 0;
    while i < n
        invariant
            0 <= i <= n,
            n == labels.len(),
            labels == graph_labels(*g),
            edges == graph_edge_list(*g),
            s@ + sp_dot_nodes(labels, i as int) == "digraph G {\n"@ + sp_dot_nodes(labels, 0),
        decreases n - i,
    {
        let ghost s0 = s@;
        s.append("    ");
        push_dec_usize(&mut s, i);
        s.append(" [label=\"");
        let lab = graph_node_label(g, i);
        let sane = sanitize_label(lab.as_str());
        s.append(sane.as_str());
        s.append("\"];\n");
        proof {
            assert(s@ =~= s0 + ("    "@ + dec_digits(i as int) + " [label=\""@ + sp_sanitize(
                labels[i as int],
            ) + "\"];\n"@));
            assert(s@ + sp_dot_nodes(labels, i + 1 as int) =~= s0 + sp_dot_nodes(
                labels,
                i as int,
            ));
        }
        i = i + 1;
    }
    let m = graph_edge_count(g);
    let mut e: usize = 0;
    proof {
        assert(s@ + sp_dot_edges(edges, 0) =~= s@ + Seq::<char>::empty() + sp_dot_edges(edges, 0));
    }
    while e < m
        invariant
            0 <= e <= m,
            m == edges.len(),
            labels == graph_labels(*g),
            edges == graph_edge_list(*g),
            s@ + sp_dot_edges(edges, e as int) == ("digraph G {\n"@ + sp_dot_nodes(labels, 0))
                + sp_dot_edges(edges, 0),
        decreases m - e,
    {
        let ghost s0 = s@;
        let (src, dst) = graph_edge_endpoints(g, e);
        s.append("    ");
        push_dec_usize(&mut s, src);
        s.append(" -> ");
        push_dec_usize(&mut s, dst);
        s.append(";\n");
        proof {
            assert(s@ =~= s0 + ("    "@ + dec_digits(edges[e as int].0) + " -> "@ + dec_digits(
                edges[e as int].1,
            ) + ";\n"@));
            assert(s@ + sp_dot_edges(edges, e + 1 as int) =~= s0 + sp_dot_edges(edges, e as int));
        }
        e = e + 1;
    }
    s.append("}\n");
    proof {
        assert(s@ =~= sp_dot(labels, edges));
    }
    s
}

} // verus!
