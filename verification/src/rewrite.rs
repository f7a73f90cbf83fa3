//! What the walk makes of a tree, as functions on the values of the nodes.

use vstd::prelude::*;
use crate::ast::{
    call_node_count, lemma_nodes_in_update, CallExprView, CalleeView, NodeView, ProgramView,
};
use crate::messages::en_key;

verus! {

/// Whether `callee` is the bare identifier `t`.
pub open spec fn callee_is_t(callee: CalleeView) -> bool {
    callee matches CalleeView::Expr(expr) && *expr == NodeView::Ident("t"@)
}

/// The key that takes the place of the first argument of `call`: there is one
/// where the callee is the bare identifier `t`, the first argument is a string
/// literal, and the table knows its text.
pub open spec fn replacement(call: CallExprView) -> Option<Seq<char>> {
    if callee_is_t(call.callee) && call.args.len() > 0 && call.args[0] is Str {
        en_key(call.args[0]->Str_0)
    } else {
        None
    }
}

/// `call` with its first argument replaced where [`replacement`] gives a key,
/// and nothing else touched.
pub open spec fn translate_call(call: CallExprView) -> CallExprView {
    match replacement(call) {
        Some(key) => CallExprView {
            callee: call.callee,
            args: call.args.update(0, NodeView::Str(key)),
        },
        None => call,
    }
}

/// The tree that the walk leaves in place of `node`.
pub open spec fn rewrite_node(node: NodeView) -> NodeView
    decreases node,
{
    match node {
        NodeView::Ident(_) => node,
        NodeView::Str(_) => node,
        NodeView::Call(call) => NodeView::Call(rewrite_call(call)),
        NodeView::Other(children) => NodeView::Other(rewrite_nodes(children)),
    }
}

/// The callee that the walk leaves in place of `callee`.
pub open spec fn rewrite_callee(callee: CalleeView) -> CalleeView
    decreases callee,
{
    match callee {
        CalleeView::Super => callee,
        CalleeView::Import => callee,
        CalleeView::Expr(expr) => CalleeView::Expr(Box::new(rewrite_node(*expr))),
    }
}

/// The call that the walk leaves in place of `call`: the callee and every
/// argument are walked, and the first argument is the key where the call has a
/// [`replacement`].
pub open spec fn rewrite_call(call: CallExprView) -> CallExprView
    decreases call,
{
    let callee = rewrite_callee(call.callee);
    let args = rewrite_nodes(call.args);
    match replacement(call) {
        Some(key) => CallExprView { callee, args: args.update(0, NodeView::Str(key)) },
        None => CallExprView { callee, args },
    }
}

/// The walk applied to each tree of a list.
pub open spec fn rewrite_nodes(nodes: Seq<NodeView>) -> Seq<NodeView>
    decreases nodes,
{
    Seq::new(
        nodes.len(),
        |i: int|
            if 0 <= i < nodes.len() {
                rewrite_node(nodes[i])
            } else {
                arbitrary()
            },
    )
}

/// The program that the walk leaves in place of `program`.
pub open spec fn rewrite_program(program: ProgramView) -> ProgramView {
    ProgramView { body: rewrite_nodes(program.body) }
}

/// Replacing the first argument leaves the node count of a call as it was.
pub proof fn lemma_translate_keeps_count(call: CallExprView)
    ensures
        call_node_count(translate_call(call)) == call_node_count(call),
{
    if let Some(key) = replacement(call) {
        lemma_nodes_in_update(call.args, 0, NodeView::Str(key));
    }
}

/// Replacing the first argument and then walking the children gives the same
/// call as [`rewrite_call`].
pub proof fn lemma_walk_after_translate(call: CallExprView)
    ensures
        rewrite_call(call) == (CallExprView {
            callee: rewrite_callee(translate_call(call).callee),
            args: rewrite_nodes(translate_call(call).args),
        }),
{
    if let Some(key) = replacement(call) {
        assert(rewrite_nodes(call.args.update(0, NodeView::Str(key))) =~= rewrite_nodes(
            call.args,
        ).update(0, NodeView::Str(key)));
    }
}

/// Whether no call in the tree under `node` has a [`replacement`].
pub open spec fn is_settled(node: NodeView) -> bool
    decreases node,
{
    match node {
        NodeView::Ident(_) => true,
        NodeView::Str(_) => true,
        NodeView::Call(call) => call_is_settled(call),
        NodeView::Other(children) => all_settled(children),
    }
}

/// Whether no call in `callee` has a [`replacement`].
pub open spec fn callee_is_settled(callee: CalleeView) -> bool
    decreases callee,
{
    match callee {
        CalleeView::Super => true,
        CalleeView::Import => true,
        CalleeView::Expr(expr) => is_settled(*expr),
    }
}

/// Whether neither `call` nor a call below it has a [`replacement`].
pub open spec fn call_is_settled(call: CallExprView) -> bool
    decreases call,
{
    &&& replacement(call) is None
    &&& callee_is_settled(call.callee)
    &&& all_settled(call.args)
}

/// Whether every tree of the list [`is_settled`].
pub open spec fn all_settled(nodes: Seq<NodeView>) -> bool
    decreases nodes,
{
    forall|i: int| 0 <= i < nodes.len() ==> is_settled(#[trigger] nodes[i])
}

} // verus!
