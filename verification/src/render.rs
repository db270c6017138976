//! Rendering: a pre-order walk of the node tree that writes one name per line.

use vstd::prelude::*;
use vstd::utf8::{char_u32_cast, encode_scalar, encode_utf8};
use crate::file::{File, Node, NodeKind, NodeView, nodes_view};

verus! {

/// Collects rendered text in memory.
pub struct JavascriptWriter {
    writer: Vec<u8>,
}

impl View for JavascriptWriter {
    type V = Seq<u8>;

    /// The bytes written so far.
    closed spec fn view(&self) -> Seq<u8> {
        self.writer@
    }
}

impl JavascriptWriter {
    /// A writer that appends to `writer`.
    pub fn new(writer: Vec<u8>) -> (r: Self)
        ensures
            r@ == writer@,
    {
        JavascriptWriter { writer }
    }

    /// Hands back everything written.
    pub fn into_inner(self) -> (r: Vec<u8>)
        ensures
            r@ == self@,
    {
        self.writer
    }

    /// Appends `data` and says how many bytes that was.
    pub fn raw_write(&mut self, data: &[u8]) -> (written: usize)
        ensures
            final(self)@ == old(self)@ + data@,
            final(self)@.len() <= usize::MAX,
            written == data@.len(),
    {
        self.writer.extend_from_slice(data);
        assert(self.writer@ =~= old(self).writer@ + data@);
        let _ = self.writer.len();
        data.len()
    }

    /// Appends the UTF-8 bytes of `data` and says how many bytes that was.
    pub fn write(&mut self, data: &str) -> (count: usize)
        ensures
            final(self)@ == old(self)@ + encode_utf8(data@),
            final(self)@.len() <= usize::MAX,
            count == encode_utf8(data@).len(),
    {
        let mut count: usize = 0;
        if !data.is_empty() {
            count = self.raw_write(data.as_bytes());
        } else {
            assert(encode_utf8(data@) =~= Seq::<u8>::empty());
            assert(self@ =~= old(self)@ + encode_utf8(data@));
            let _ = self.writer.len();
        }
        count
    }

    /// Appends a line terminator, one byte.
    pub fn write_line(&mut self) -> (written: usize)
        ensures
            final(self)@ == old(self)@ + seq![10u8],
            final(self)@.len() <= usize::MAX,
            written == 1,
    {
        let terminator: [u8; 1] = [10u8];
        self.raw_write(terminator.as_slice())
    }
}

/// Why a file could not be rendered.
#[derive(Clone, Copy, Debug, PartialEq, Eq)]
pub enum RenderError {
    /// The root of the file is not a document node.
    InvalidRoot,
}

/// The nodes that a walk of the tree under `n` visits, in order: `n` itself
/// unless it is a document node, then the walk of each child in turn. A
/// document node is passed through: it is not visited, its children are.
pub open spec fn visit_order(n: NodeView) -> Seq<NodeView>
    decreases n,
{
    let own = if n.kind is Document {
        Seq::<NodeView>::empty()
    } else {
        seq![n]
    };
    own + visit_order_all(n.children)
}

/// The walks of `ns`, one after the other.
pub open spec fn visit_order_all(ns: Seq<NodeView>) -> Seq<NodeView>
    decreases ns,
{
    if ns.len() == 0 {
        Seq::<NodeView>::empty()
    } else {
        visit_order(ns.first()) + visit_order_all(ns.drop_first())
    }
}

/// The names of `nodes`, one for one.
pub open spec fn names(nodes: Seq<NodeView>) -> Seq<Seq<char>> {
    Seq::new(nodes.len(), |i: int| nodes[i].node.name)
}

/// The text of `lines`: each line in UTF-8, followed by a line feed.
pub open spec fn text(lines: Seq<Seq<char>>) -> Seq<u8>
    decreases lines.len(),
{
    if lines.len() == 0 {
        Seq::<u8>::empty()
    } else {
        text(lines.drop_last()) + encode_utf8(lines.last()) + seq![10u8]
    }
}

/// The models of borrowed nodes, one for one.
pub open spec fn views(nodes: Seq<&Node>) -> Seq<NodeView> {
    Seq::new(nodes.len(), |i: int| (*nodes[i])@)
}

/// What is still to be visited when `stack` holds the pending nodes, the
/// next one last.
pub open spec fn pending(stack: Seq<NodeView>) -> Seq<NodeView>
    decreases stack.len(),
{
    if stack.len() == 0 {
        Seq::<NodeView>::empty()
    } else {
        visit_order(stack.last()) + pending(stack.drop_last())
    }
}

/// The number of nodes in the tree under `n`, document nodes included.
pub open spec fn weight(n: NodeView) -> nat
    decreases n,
{
    1 + weight_all(n.children)
}

/// The number of nodes in the trees under `ns`.
pub open spec fn weight_all(ns: Seq<NodeView>) -> nat
    decreases ns,
{
    if ns.len() == 0 {
        0
    } else {
        weight(ns.first()) + weight_all(ns.drop_first())
    }
}

/// The number of nodes in the trees that `stack` holds.
pub open spec fn load(stack: Seq<NodeView>) -> nat
    decreases stack.len(),
{
    if stack.len() == 0 {
        0
    } else {
        weight(stack.last()) + load(stack.drop_last())
    }
}

/// Pushes `children` so that the first child is popped first.
fn push_reversed<'a>(stack: &mut Vec<&'a Node>, children: &'a Vec<Node>)
    ensures
        pending(views(final(stack)@)) == visit_order_all(nodes_view(*children)) + pending(
            views(old(stack)@),
        ),
        load(views(final(stack)@)) == weight_all(nodes_view(*children)) + load(views(old(stack)@)),
{
    let ghost before = views(stack@);
    let ghost kids = nodes_view(*children);
    let mut j: usize = children.len();
    proof {
        assert(kids.subrange(j as int, kids.len() as int) =~= Seq::<NodeView>::empty());
        assert(visit_order_all(Seq::<NodeView>::empty()) + pending(before) =~= pending(before));
    }
    while j > 0
        invariant
            j <= children.len(),
            kids == nodes_view(*children),
            kids.len() == children.len(),
            pending(views(stack@)) == visit_order_all(kids.subrange(j as int, kids.len() as int))
                + pending(before),
            load(views(stack@)) == weight_all(kids.subrange(j as int, kids.len() as int)) + load(
                before,
            ),
        decreases j,
    {
        j -= 1;
        let child = &children[j];
        proof {
            let tail = kids.subrange(j as int, kids.len() as int);
            let rest = kids.subrange(j + 1, kids.len() as int);
            let held = views(stack@);
            assert(tail.first() == child@);
            assert(tail.drop_first() =~= rest);
            assert(views(stack@.push(child)) =~= held.push(child@));
            assert(held.push(child@).drop_last() =~= held);
            assert(held.push(child@).last() == child@);
            assert(visit_order(child@) + (visit_order_all(rest) + pending(before)) =~= (visit_order(
                child@,
            ) + visit_order_all(rest)) + pending(before));
        }
        stack.push(child);
    }
    proof {
        assert(kids.subrange(0, kids.len() as int) =~= kids);
    }
}

/// The nodes under `node` in the order in which they are rendered.
///
/// The walk keeps its pending nodes on a heap-allocated stack, so the depth
/// of the tree does not bear on the call stack.
pub fn visit<'a>(node: &'a Node) -> (r: Vec<&'a Node>)
    ensures
        views(r@) == visit_order(node@),
{
    let mut stack: Vec<&'a Node> = Vec::new();
    let mut visited: Vec<&'a Node> = Vec::new();
    stack.push(node);
    proof {
        let held = views(stack@);
        assert(held =~= seq![node@]);
        assert(held.drop_last() =~= Seq::<NodeView>::empty());
        assert(held.last() == node@);
        assert(pending(held.drop_last()) =~= Seq::<NodeView>::empty());
        assert(pending(held) =~= visit_order(node@));
        assert(views(visited@) =~= Seq::<NodeView>::empty());
        assert(views(visited@) + pending(held) =~= visit_order(node@));
    }
    while stack.len() > 0
        invariant
            views(visited@) + pending(views(stack@)) == visit_order(node@),
        decreases load(views(stack@)),
    {
        let ghost held = views(stack@);
        let ghost seen = views(visited@);
        let top = stack.pop().unwrap();
        proof {
            assert(views(stack@) =~= held.drop_last());
            assert(held.last() == top@);
        }
        match top.kind() {
            NodeKind::Document => {},
            _ => {
                proof {
                    assert(views(visited@.push(top)) =~= seen.push(top@));
                }
                visited.push(top);
            },
        }
        let ghost own = views(visited@);
        let ghost rest = pending(held.drop_last());
        match top.children() {
            Some(children) => {
                push_reversed(&mut stack, children);
            },
            None => {
                assert(visit_order_all(top@.children) =~= Seq::<NodeView>::empty());
                assert(weight_all(top@.children) == 0);
            },
        }
        proof {
            let below = visit_order_all(top@.children);
            assert(pending(views(stack@)) =~= below + rest);
            assert(own + (below + rest) =~= (seen + visit_order(top@)) + rest);
            assert((seen + visit_order(top@)) + rest =~= seen + (visit_order(top@) + rest));
        }
    }
    proof {
        assert(views(visited@) + Seq::<NodeView>::empty() =~= views(visited@));
    }
    visited
}

/// Writes the name of every node under `node`, one per line, in the order
/// of `visit`, and says how many bytes that was.
pub fn render_node(node: &Node, writer: &mut JavascriptWriter) -> (bytes: usize)
    ensures
        final(writer)@ == old(writer)@ + text(names(visit_order(node@))),
        bytes == text(names(visit_order(node@))).len(),
{
    let visited = visit(node);
    let ghost order = visit_order(node@);
    let mut bytes: usize = 0;
    let mut i: usize = 0;
    proof {
        assert(names(order.take(0)) =~= Seq::<Seq<char>>::empty());
        assert(writer@ + text(names(order.take(0))) =~= writer@);
    }
    while i < visited.len()
        invariant
            i <= visited.len(),
            views(visited@) == order,
            writer@ == old(writer)@ + text(names(order.take(i as int))),
            bytes == text(names(order.take(i as int))).len(),
        decreases visited.len() - i,
    {
        let ghost done = text(names(order.take(i as int)));
        let ghost line = order[i as int].node.name;
        proof {
            let lines = names(order.take(i + 1));
            assert(lines.drop_last() =~= names(order.take(i as int)));
            assert(lines.last() == line);
            assert(views(visited@)[i as int] == (*visited@[i as int])@);
        }
        let name = visited[i].base().name.as_str();
        let count = writer.write(name);
        let ended = writer.write_line();
        proof {
            assert(writer@ =~= old(writer)@ + (done + encode_utf8(line) + seq![10u8]));
        }
        bytes = bytes + count + ended;
        i += 1;
    }
    proof {
        assert(order.take(i as int) =~= order);
    }
    bytes
}

/// Renders a file: the name of every node under its root document, one per
/// line, parents before their children and children in document order.
///
/// A file whose root is not a document node is refused, and nothing is
/// written for it. Otherwise the result is the number of bytes written.
pub fn render(file: &File, writer: &mut JavascriptWriter) -> (r: Result<usize, RenderError>)
    ensures
        match r {
            Ok(bytes) => {
                &&& file@.document.kind is Document
                &&& final(writer)@ == old(writer)@ + text(names(visit_order(file@.document)))
                &&& bytes == text(names(visit_order(file@.document))).len()
            },
            Err(e) => {
                &&& e == RenderError::InvalidRoot
                &&& !(file@.document.kind is Document)
                &&& final(writer)@ == old(writer)@
            },
        },
{
    match file.document.kind() {
        NodeKind::Document => Ok(render_node(&file.document, writer)),
        _ => Err(RenderError::InvalidRoot),
    }
}

/// The number of nodes in the tree under `n` that are not document nodes.
pub open spec fn node_count(n: NodeView) -> nat
    decreases n,
{
    let own: nat = if n.kind is Document {
        0
    } else {
        1
    };
    own + node_count_all(n.children)
}

/// The number of nodes in the trees under `ns` that are not document nodes.
pub open spec fn node_count_all(ns: Seq<NodeView>) -> nat
    decreases ns,
{
    if ns.len() == 0 {
        0
    } else {
        node_count(ns.first()) + node_count_all(ns.drop_first())
    }
}

/// The number of bytes that the names `lines` take in UTF-8.
pub open spec fn payload(lines: Seq<Seq<char>>) -> nat
    decreases lines.len(),
{
    if lines.len() == 0 {
        0
    } else {
        payload(lines.drop_last()) + encode_utf8(lines.last()).len()
    }
}

/// The text of some lines has the bytes of the names and one terminator
/// for each line, and nothing else.
pub proof fn lemma_text_length(lines: Seq<Seq<char>>)
    ensures
        text(lines).len() == payload(lines) + lines.len(),
    decreases lines.len(),
{
    if lines.len() > 0 {
        lemma_text_length(lines.drop_last());
    }
}

/// The number of line feeds among `bytes`.
pub open spec fn line_feeds(bytes: Seq<u8>) -> nat
    decreases bytes.len(),
{
    if bytes.len() == 0 {
        0
    } else {
        let last: nat = if bytes.last() == 10u8 {
            1
        } else {
            0
        };
        line_feeds(bytes.drop_last()) + last
    }
}

/// Whether `name` is free of line feeds.
pub open spec fn on_one_line(name: Seq<char>) -> bool {
    forall|i: int| 0 <= i < name.len() ==> name[i] != '\n'
}

/// The line feeds of two texts add up.
pub proof fn lemma_line_feeds_add(a: Seq<u8>, b: Seq<u8>)
    ensures
        line_feeds(a + b) == line_feeds(a) + line_feeds(b),
    decreases b.len(),
{
    if b.len() == 0 {
        assert(a + b =~= a);
    } else {
        assert((a + b).drop_last() =~= a + b.drop_last());
        lemma_line_feeds_add(a, b.drop_last());
    }
}

/// No byte of a character's encoding is a line feed, unless the character
/// is one.
proof fn lemma_scalar_without_line_feed(c: u32)
    requires
        c != 10,
    ensures
        line_feeds(encode_scalar(c)) == 0,
{
    let bytes = encode_scalar(c);
    assert(c <= 0x7F ==> (c & 0x7F) as u8 != 10u8) by (bit_vector)
        requires
            c != 10,
    ;
    assert forall|y: u8| (0xC0u8 | y) != 10u8 && (0xE0u8 | y) != 10u8 && (0xF0u8 | y) != 10u8 && (0x80u8
        | y) != 10u8 by {
        assert((0xC0u8 | y) != 10u8 && (0xE0u8 | y) != 10u8 && (0xF0u8 | y) != 10u8 && (0x80u8 | y)
            != 10u8) by (bit_vector);
    }
    assert forall|i: int| 0 <= i < bytes.len() implies bytes[i] != 10u8 by {}
    lemma_no_line_feed(bytes);
}

/// Bytes none of which is a line feed hold no line feed.
proof fn lemma_no_line_feed(bytes: Seq<u8>)
    requires
        forall|i: int| 0 <= i < bytes.len() ==> bytes[i] != 10u8,
    ensures
        line_feeds(bytes) == 0,
    decreases bytes.len(),
{
    if bytes.len() > 0 {
        lemma_no_line_feed(bytes.drop_last());
    }
}

/// A name that is free of line feeds is written without one.
pub proof fn lemma_name_on_one_line(name: Seq<char>)
    requires
        on_one_line(name),
    ensures
        line_feeds(encode_utf8(name)) == 0,
    decreases name.len(),
{
    if name.len() > 0 {
        assert(name[0] != '\n');
        let c = name[0] as u32;
        if c == 10 {
            char_u32_cast(name[0], 10u32);
            char_u32_cast('\n', 10u32);
        }
        lemma_scalar_without_line_feed(c);
        assert(on_one_line(name.drop_first())) by {
            assert forall|i: int| 0 <= i < name.drop_first().len() implies name.drop_first()[i]
                != '\n' by {
                assert(name.drop_first()[i] == name[i + 1]);
            }
        }
        lemma_name_on_one_line(name.drop_first());
        lemma_line_feeds_add(encode_scalar(c), encode_utf8(name.drop_first()));
    }
}

/// Where no line holds a line feed of its own, the text has exactly one
/// line feed for each line.
pub proof fn lemma_one_line_feed_per_line(lines: Seq<Seq<char>>)
    requires
        forall|i: int| 0 <= i < lines.len() ==> on_one_line(#[trigger] lines[i]),
    ensures
        line_feeds(text(lines)) == lines.len(),
    decreases lines.len(),
{
    if lines.len() > 0 {
        let done = text(lines.drop_last());
        let name = encode_utf8(lines.last());
        assert forall|i: int| 0 <= i < lines.drop_last().len() implies on_one_line(
            #[trigger] lines.drop_last()[i],
        ) by {
            assert(lines.drop_last()[i] == lines[i]);
        }
        lemma_one_line_feed_per_line(lines.drop_last());
        assert(on_one_line(lines[lines.len() - 1]));
        lemma_name_on_one_line(lines.last());
        lemma_line_feeds_add(done, name);
        lemma_line_feeds_add(done + name, seq![10u8]);
        assert(line_feeds(seq![10u8]) == 1) by {
            assert(seq![10u8].drop_last() =~= Seq::<u8>::empty());
            assert(line_feeds(Seq::<u8>::empty()) == 0);
        }
    }
}

/// The text rendered for a tree has as many lines as the tree has nodes
/// that are not document nodes, provided that no name among them holds a
/// line feed of its own.
pub proof fn lemma_output_has_one_line_per_node(root: NodeView)
    requires
        forall|k: int|
            0 <= k < visit_order(root).len() ==> on_one_line(
                (#[trigger] visit_order(root)[k]).node.name,
            ),
    ensures
        line_feeds(text(names(visit_order(root)))) == node_count(root),
{
    let lines = names(visit_order(root));
    assert forall|i: int| 0 <= i < lines.len() implies on_one_line(#[trigger] lines[i]) by {
        assert(lines[i] == visit_order(root)[i].node.name);
    }
    lemma_one_line_feed_per_line(lines);
    lemma_one_line_per_node(root);
}

/// Whether `n` is `root` or stands somewhere under it.
pub open spec fn reaches(root: NodeView, n: NodeView) -> bool
    decreases root,
{
    root == n || exists|i: int| 0 <= i < root.children.len() && reaches(#[trigger] root.children[i], n)
}

/// Whether `n` is one of `roots` or stands somewhere under one of them.
pub open spec fn reaches_any(roots: Seq<NodeView>, n: NodeView) -> bool {
    exists|i: int| 0 <= i < roots.len() && reaches(#[trigger] roots[i], n)
}

/// A walk yields one line for each node that is not a document node: as
/// many nodes are visited, and so as many names written, as the tree holds
/// such nodes.
pub proof fn lemma_one_line_per_node(n: NodeView)
    ensures
        visit_order(n).len() == node_count(n),
        names(visit_order(n)).len() == node_count(n),
    decreases n, 1nat,
{
    lemma_one_line_per_node_all(n.children);
}

/// The same for the walks of several trees, one after the other.
pub proof fn lemma_one_line_per_node_all(ns: Seq<NodeView>)
    ensures
        visit_order_all(ns).len() == node_count_all(ns),
    decreases ns, 0nat,
{
    if ns.len() > 0 {
        lemma_one_line_per_node(ns.first());
        lemma_one_line_per_node_all(ns.drop_first());
    }
}

/// A walk visits exactly the nodes that stand in the tree and are not
/// document nodes: a node is visited if and only if it is reachable from
/// the root and is not a document node.
pub proof fn lemma_visits_what_is_reachable(root: NodeView, n: NodeView)
    ensures
        visit_order(root).contains(n) <==> reaches(root, n) && !(n.kind is Document),
    decreases root, 1nat,
{
    let own = if root.kind is Document {
        Seq::<NodeView>::empty()
    } else {
        seq![root]
    };
    let below = visit_order_all(root.children);
    lemma_visits_what_is_reachable_all(root.children, n);
    if visit_order(root).contains(n) {
        let k = choose|k: int| 0 <= k < visit_order(root).len() && visit_order(root)[k] == n;
        if k < own.len() {
            assert(root == n);
        } else {
            assert(below[k - own.len()] == n);
            assert(below.contains(n));
        }
    }
    if reaches(root, n) && !(n.kind is Document) {
        if root == n {
            assert(visit_order(root)[0] == n);
        } else {
            assert(reaches_any(root.children, n));
            let k = choose|k: int| 0 <= k < below.len() && below[k] == n;
            assert(visit_order(root)[own.len() + k] == n);
        }
    }
}

/// The same for the walks of several trees, one after the other.
pub proof fn lemma_visits_what_is_reachable_all(roots: Seq<NodeView>, n: NodeView)
    ensures
        visit_order_all(roots).contains(n) <==> reaches_any(roots, n) && !(n.kind is Document),
    decreases roots, 0nat,
{
    if roots.len() > 0 {
        let head = visit_order(roots.first());
        let tail = visit_order_all(roots.drop_first());
        lemma_visits_what_is_reachable(roots.first(), n);
        lemma_visits_what_is_reachable_all(roots.drop_first(), n);
        if visit_order_all(roots).contains(n) {
            let k = choose|k: int| 0 <= k < visit_order_all(roots).len() && visit_order_all(roots)[k] == n;
            if k < head.len() {
                assert(head[k] == n);
                assert(head.contains(n));
                assert(reaches(roots[0], n));
            } else {
                assert(tail[k - head.len()] == n);
                assert(tail.contains(n));
                let i = choose|i: int|
                    0 <= i < roots.drop_first().len() && reaches(#[trigger] roots.drop_first()[i], n);
                assert(roots.drop_first()[i] == roots[i + 1]);
                assert(reaches(roots[i + 1], n));
            }
        }
        if reaches_any(roots, n) && !(n.kind is Document) {
            let i = choose|i: int| 0 <= i < roots.len() && reaches(#[trigger] roots[i], n);
            if i == 0 {
                let k = choose|k: int| 0 <= k < head.len() && head[k] == n;
                assert(visit_order_all(roots)[k] == n);
            } else {
                assert(roots.drop_first()[i - 1] == roots[i]);
                assert(reaches_any(roots.drop_first(), n));
                let k = choose|k: int| 0 <= k < tail.len() && tail[k] == n;
                assert(visit_order_all(roots)[head.len() + k] == n);
            }
        }
    }
}

/// No document node is ever visited.
pub proof fn lemma_visits_no_document(root: NodeView, k: int)
    requires
        0 <= k < visit_order(root).len(),
    ensures
        !(visit_order(root)[k].kind is Document),
{
    assert(visit_order(root).contains(visit_order(root)[k]));
    lemma_visits_what_is_reachable(root, visit_order(root)[k]);
}

} // verus!
