//! The part of a program tree that the rewriting reads: identifiers, string
//! literals, call expressions, and every other node as a list of children.

use vstd::prelude::*;

verus! {

/// A node of the program tree.
#[derive(Debug, PartialEq, Eq)]
pub enum Node {
    /// A bare identifier, by its name.
    Ident(String),
    /// A string literal, by its value.
    Str(String),
    /// A call expression.
    Call(CallExpr),
    /// Any other node, with its children in source order.
    Other(Vec<Node>),
}

/// What a call expression calls.
#[derive(Debug, PartialEq, Eq)]
pub enum Callee {
    /// `super(..)`
    Super,
    /// `import(..)`
    Import,
    /// An expression.
    Expr(Box<Node>),
}

/// A call expression: the callee and the arguments in order.
#[derive(Debug, PartialEq, Eq)]
pub struct CallExpr {
    pub callee: Callee,
    pub args: Vec<Node>,
}

/// A program: its top-level nodes in order.
#[derive(Debug, PartialEq, Eq)]
pub struct Program {
    pub body: Vec<Node>,
}

/// Mathematical value of a [`Node`].
pub enum NodeView {
    Ident(Seq<char>),
    Str(Seq<char>),
    Call(CallExprView),
    Other(Seq<NodeView>),
}

/// Mathematical value of a [`Callee`].
pub enum CalleeView {
    Super,
    Import,
    Expr(Box<NodeView>),
}

/// Mathematical value of a [`CallExpr`].
pub struct CallExprView {
    pub callee: CalleeView,
    pub args: Seq<NodeView>,
}

/// Mathematical value of a [`Program`].
pub struct ProgramView {
    pub body: Seq<NodeView>,
}

/// Value of a node.
pub open spec fn node_view(node: Node) -> NodeView
    decreases node,
{
    match node {
        Node::Ident(name) => NodeView::Ident(name@),
        Node::Str(value) => NodeView::Str(value@),
        Node::Call(call) => NodeView::Call(call_view(call)),
        Node::Other(children) => NodeView::Other(nodes_view(children@)),
    }
}

/// Value of a callee.
pub open spec fn callee_view(callee: Callee) -> CalleeView
    decreases callee,
{
    match callee {
        Callee::Super => CalleeView::Super,
        Callee::Import => CalleeView::Import,
        Callee::Expr(expr) => CalleeView::Expr(Box::new(node_view(*expr))),
    }
}

/// Value of a call expression.
pub open spec fn call_view(call: CallExpr) -> CallExprView
    decreases call,
{
    CallExprView { callee: callee_view(call.callee), args: nodes_view(call.args@) }
}

/// Values of a list of nodes, in order.
pub open spec fn nodes_view(nodes: Seq<Node>) -> Seq<NodeView>
    decreases nodes,
{
    Seq::new(
        nodes.len(),
        |i: int|
            if 0 <= i < nodes.len() {
                node_view(nodes[i])
            } else {
                arbitrary()
            },
    )
}

impl View for Node {
    type V = NodeView;

    open spec fn view(&self) -> NodeView {
        node_view(*self)
    }
}

impl View for Callee {
    type V = CalleeView;

    open spec fn view(&self) -> CalleeView {
        callee_view(*self)
    }
}

impl View for CallExpr {
    type V = CallExprView;

    open spec fn view(&self) -> CallExprView {
        call_view(*self)
    }
}

impl View for Program {
    type V = ProgramView;

    open spec fn view(&self) -> ProgramView {
        ProgramView { body: nodes_view(self.body@) }
    }
}

/// Number of nodes in the tree under `node`, `node` included.
pub open spec fn node_count(node: NodeView) -> nat
    decreases node,
{
    match node {
        NodeView::Ident(_) => 1,
        NodeView::Str(_) => 1,
        NodeView::Call(call) => call_node_count(call),
        NodeView::Other(children) => 1 + nodes_in(children),
    }
}

/// Number of nodes in a callee.
pub open spec fn callee_node_count(callee: CalleeView) -> nat
    decreases callee,
{
    match callee {
        CalleeView::Super => 1,
        CalleeView::Import => 1,
        CalleeView::Expr(expr) => node_count(*expr),
    }
}

/// Number of nodes in a call expression: the call, its callee, its arguments.
pub open spec fn call_node_count(call: CallExprView) -> nat
    decreases call,
{
    1 + callee_node_count(call.callee) + nodes_in(call.args)
}

/// Number of nodes in the trees of a list.
pub open spec fn nodes_in(nodes: Seq<NodeView>) -> nat
    decreases nodes,
{
    if nodes.len() == 0 {
        0
    } else {
        nodes_in(nodes.drop_last()) + node_count(nodes.last())
    }
}

/// A tree of a list has no more nodes than the whole list.
pub proof fn lemma_nodes_in_bounds(nodes: Seq<NodeView>, i: int)
    requires
        0 <= i < nodes.len(),
    ensures
        node_count(nodes[i]) <= nodes_in(nodes),
    decreases nodes.len(),
{
    if i < nodes.len() - 1 {
        lemma_nodes_in_bounds(nodes.drop_last(), i);
    }
}

/// Replacing one tree of a list changes the node count by the difference of
/// the two trees.
pub proof fn lemma_nodes_in_update(nodes: Seq<NodeView>, i: int, node: NodeView)
    requires
        0 <= i < nodes.len(),
    ensures
        nodes_in(nodes.update(i, node)) + node_count(nodes[i]) == nodes_in(nodes) + node_count(
            node,
        ),
    decreases nodes.len(),
{
    let updated = nodes.update(i, node);
    if i < nodes.len() - 1 {
        lemma_nodes_in_update(nodes.drop_last(), i, node);
        assert(updated.drop_last() =~= nodes.drop_last().update(i, node));
    } else {
        assert(updated.drop_last() =~= nodes.drop_last());
    }
}

} // verus!
