//! The static dependency-graph document: a fixed table of named nodes, each
//! referencing a module file and an optional successor, rendered as one JSON
//! object. The document is hand-authored data; the server never parses or
//! interprets it.

use vstd::prelude::*;

verus! {

/// One node of the dependency-graph document: its name, the module file it
/// references, and the node that follows it, if any.
pub struct GraphNode {
    /// The node's key in the document.
    pub name: String,
    /// Path of the module the node references.
    pub wasm: String,
    /// The successor node's name, or none for the last node.
    pub next: Option<String>,
}

/// A string wrapped in double quotes, as JSON renders it. The fixed
/// document's strings contain no characters that JSON requires escaping, so
/// quoting is the whole rendering.
pub open spec fn quoted(s: Seq<char>) -> Seq<char> {
    "\""@ + s + "\""@
}

/// The successor field's rendering: a quoted name, or the JSON null.
pub open spec fn render_next(next: Option<Seq<char>>) -> Seq<char> {
    match next {
        Some(n) => quoted(n),
        None => "null"@,
    }
}

/// The view of an optional string field.
pub open spec fn next_view(n: Option<String>) -> Option<Seq<char>> {
    match n {
        Some(s) => Some(s@),
        None => None,
    }
}

/// One node's rendering: `"name":{"wasm":"...","next":...}`.
pub open spec fn render_node(n: GraphNode) -> Seq<char> {
    quoted(n.name@) + ":{\"wasm\":"@ + quoted(n.wasm@) + ",\"next\":"@ + render_next(
        next_view(n.next),
    ) + "}"@
}

/// The node table's rendering: the nodes in order, comma-separated.
pub open spec fn render_nodes(ns: Seq<GraphNode>) -> Seq<char>
    decreases ns.len(),
{
    if ns.len() == 0 {
        Seq::empty()
    } else if ns.len() == 1 {
        render_node(ns[0])
    } else {
        render_node(ns[0]) + ","@ + render_nodes(ns.drop_first())
    }
}

/// The whole document's rendering:
/// `{"start":"...","nodes":{...}}`.
pub open spec fn render_graph(start: Seq<char>, ns: Seq<GraphNode>) -> Seq<char> {
    "{\"start\":"@ + quoted(start) + ",\"nodes\":{"@ + render_nodes(ns) + "}}"@
}

/// Appending one node to a table extends its rendering by a comma (when the
/// table was non-empty) and the node's own rendering.
proof fn lemma_render_nodes_push(ns: Seq<GraphNode>, x: GraphNode)
    ensures
        render_nodes(ns.push(x)) == (if ns.len() == 0 {
            render_node(x)
        } else {
            render_nodes(ns) + ","@ + render_node(x)
        }),
    decreases ns.len(),
{
    if ns.len() == 0 {
        assert(ns.push(x).len() == 1);
        assert(ns.push(x)[0] == x);
    } else {
        let p = ns.push(x);
        assert(p[0] == ns[0]);
        assert(p.drop_first() =~= ns.drop_first().push(x));
        lemma_render_nodes_push(ns.drop_first(), x);
        assert(render_nodes(p) =~= render_nodes(ns) + ","@ + render_node(x));
    }
}

/// Renders a graph document from its start field and node table. The result
/// is exactly the concatenation the rendering spec describes, for any table.
pub fn render_graph_document(start: &str, nodes: &Vec<GraphNode>) -> (r: String)
    ensures
        r@ == render_graph(start@, nodes@),
{
    let ghost head: Seq<char> = "{\"start\":"@ + quoted(start@) + ",\"nodes\":{"@;
    let mut acc = String::from_str("{\"start\":\"");
    acc.append(start);
    acc.append("\",\"nodes\":{");
    proof {
        reveal_strlit("{\"start\":\"");
        reveal_strlit("{\"start\":");
        reveal_strlit("\",\"nodes\":{");
        reveal_strlit(",\"nodes\":{");
        reveal_strlit("\"");
        assert(acc@ =~= head);
    }
    let mut i: usize = 0;
    while i < nodes.len()
        invariant
            0 <= i <= nodes@.len(),
            head == "{\"start\":"@ + quoted(start@) + ",\"nodes\":{"@,
            acc@ == head + render_nodes(nodes@.take(i as int)),
        decreases nodes@.len() - i,
    {
        let ghost done: Seq<char> = acc@;
        if i > 0 {
            acc.append(",");
        }
        let node = &nodes[i];
        acc.append("\"");
        acc.append(node.name.as_str());
        acc.append("\":{\"wasm\":\"");
        acc.append(node.wasm.as_str());
        acc.append("\",\"next\":");
        match &node.next {
            Some(n) => {
                acc.append("\"");
                acc.append(n.as_str());
                acc.append("\"");
            },
            None => {
                acc.append("null");
            },
        }
        acc.append("}");
        proof {
            reveal_strlit("\"");
            reveal_strlit("\":{\"wasm\":\"");
            reveal_strlit(":{\"wasm\":");
            reveal_strlit("\",\"next\":");
            reveal_strlit(",\"next\":");
            reveal_strlit("null");
            reveal_strlit("}");
            reveal_strlit(",");
            assert(acc@ =~= done + (if i == 0 {
                Seq::<char>::empty()
            } else {
                ","@
            }) + render_node(nodes@[i as int]));
            assert(nodes@.take(i + 1 as int) =~= nodes@.take(i as int).push(nodes@[i as int]));
            lemma_render_nodes_push(nodes@.take(i as int), nodes@[i as int]);
            assert(nodes@.take(i as int).len() == i as int);
            assert(acc@ =~= head + render_nodes(nodes@.take(i + 1 as int)));
        }
        i = i + 1;
    }
    acc.append("}}");
    proof {
        assert(nodes@.take(nodes@.len() as int) =~= nodes@);
        assert(acc@ =~= render_graph(start@, nodes@));
    }
    acc
}

/// The exact body served for `GET /graph.json`, character for character.
/// The start field's value matches no node key; it is literal data and is
/// preserved verbatim.
pub open spec fn graph_body_text() -> Seq<char> {
    "{\"start\":\"node!\",\"nodes\":{\"node1\":{\"wasm\":\"/wasm/module1.wasm\",\"next\":\"node2\"},\"node2\":{\"wasm\":\"/wasm/module2.wasm\",\"next\":\"node3\"},\"node3\":{\"wasm\":\"/wasm/module3.wasm\",\"next\":null}}}"@
}

/// Builds the document's fixed node table: three chained nodes, each naming
/// its module file, the last one with no successor.
pub fn graph_nodes() -> (r: Vec<GraphNode>)
    ensures
        r@.len() == 3,
        r@[0].name@ == "node1"@ && r@[0].wasm@ == "/wasm/module1.wasm"@ && (r@[0].next
            matches Some(n) && n@ == "node2"@),
        r@[1].name@ == "node2"@ && r@[1].wasm@ == "/wasm/module2.wasm"@ && (r@[1].next
            matches Some(n) && n@ == "node3"@),
        r@[2].name@ == "node3"@ && r@[2].wasm@ == "/wasm/module3.wasm"@ && r@[2].next is None,
{
    let mut nodes: Vec<GraphNode> = Vec::new();
    nodes.push(GraphNode {
        name: String::from_str("node1"),
        wasm: String::from_str("/wasm/module1.wasm"),
        next: Some(String::from_str("node2")),
    });
    nodes.push(GraphNode {
        name: String::from_str("node2"),
        wasm: String::from_str("/wasm/module2.wasm"),
        next: Some(String::from_str("node3")),
    });
    nodes.push(GraphNode {
        name: String::from_str("node3"),
        wasm: String::from_str("/wasm/module3.wasm"),
        next: None,
    });
    nodes
}

/// Builds the graph document's body. Every call renders the same fixed
/// table, and the result is the literal document, byte for byte.
pub fn graph_body() -> (r: String)
    ensures
        r@ == graph_body_text(),
{
    let nodes = graph_nodes();
    let r = render_graph_document("node!", &nodes);
    proof {
        reveal_strlit("node!");
        reveal_strlit("node1");
        reveal_strlit("node2");
        reveal_strlit("node3");
        reveal_strlit("/wasm/module1.wasm");
        reveal_strlit("/wasm/module2.wasm");
        reveal_strlit("/wasm/module3.wasm");
        reveal_strlit("{\"start\":");
        reveal_strlit(":{\"wasm\":");
        reveal_strlit(",\"next\":");
        reveal_strlit(",\"nodes\":{");
        reveal_strlit("null");
        reveal_strlit("\"");
        reveal_strlit(",");
        reveal_strlit("}");
        reveal_strlit("}}");
        reveal_strlit(
            "{\"start\":\"node!\",\"nodes\":{\"node1\":{\"wasm\":\"/wasm/module1.wasm\",\"next\":\"node2\"},\"node2\":{\"wasm\":\"/wasm/module2.wasm\",\"next\":\"node3\"},\"node3\":{\"wasm\":\"/wasm/module3.wasm\",\"next\":null}}}",
        );
        let tail = nodes@.drop_first();
        let last = tail.drop_first();
        assert(last =~= seq![nodes@[2]]);
        assert(render_nodes(last) == render_node(nodes@[2])) by {
            reveal_with_fuel(render_nodes, 2);
            assert(last[0] == nodes@[2]);
        }
        assert(render_nodes(tail) == render_node(nodes@[1]) + ","@ + render_nodes(last)) by {
            reveal_with_fuel(render_nodes, 2);
            assert(tail[0] == nodes@[1]);
            assert(tail.len() == 2);
        }
        assert(render_nodes(nodes@) == render_node(nodes@[0]) + ","@ + render_nodes(tail)) by {
            reveal_with_fuel(render_nodes, 2);
        }
        assert(r@ =~= graph_body_text());
    }
    r
}

/// The media type the graph document is served with.
pub open spec fn graph_content_type_text() -> Seq<char> {
    "application/json"@
}

/// The content type sent alongside the graph document.
pub fn graph_content_type() -> (r: String)
    ensures
        r@ == graph_content_type_text(),
{
    String::from_str("application/json")
}

/// The graph document is stateless: any two bodies the server ever produces
/// for the graph route are equal, character for character.
pub proof fn lemma_graph_body_stable(a: Seq<char>, b: Seq<char>)
    requires
        a == graph_body_text(),
        b == graph_body_text(),
    ensures
        a == b,
{
}

} // verus!
