//! What holds of every walk, stated over the functions of [`crate::rewrite`]
//! that the visitor's contracts are written in.

use vstd::prelude::*;
use crate::ast::{
    call_node_count, callee_node_count, lemma_nodes_in_update, node_count, nodes_in, CallExprView,
    CalleeView, NodeView, ProgramView,
};
use crate::messages::{lemma_keys_are_not_source_texts, lemma_table_entries, translation_table};
use crate::rewrite::{
    all_settled, call_is_settled, callee_is_settled, callee_is_t, is_settled, replacement,
    rewrite_call, rewrite_callee, rewrite_node, rewrite_nodes, rewrite_program, translate_call,
};

verus! {

/// In a call `t("<text>", ..)` whose text the table knows, the first argument
/// becomes the literal of the key. The replacement itself touches nothing
/// else; the walk as a whole leaves every other argument as the walk of that
/// argument, which is the argument itself where it is settled.
pub proof fn law_known_text_is_replaced(call: CallExprView, zh_text: Seq<char>)
    requires
        callee_is_t(call.callee),
        call.args.len() > 0,
        call.args[0] == NodeView::Str(zh_text),
        translation_table().contains_key(zh_text),
    ensures
        translate_call(call).callee == call.callee,
        translate_call(call).args == call.args.update(
            0,
            NodeView::Str(translation_table()[zh_text]),
        ),
        rewrite_call(call).args.len() == call.args.len(),
        rewrite_call(call).args[0] == NodeView::Str(translation_table()[zh_text]),
        forall|i: int|
            1 <= i < call.args.len() ==> #[trigger] rewrite_call(call).args[i] == rewrite_node(
                call.args[i],
            ),
        forall|i: int|
            1 <= i < call.args.len() && is_settled(call.args[i]) ==> #[trigger] rewrite_call(
                call,
            ).args[i] == call.args[i],
{
    assert forall|i: int| 1 <= i < call.args.len() && is_settled(call.args[i]) implies #[trigger]
        rewrite_call(call).args[i] == call.args[i] by {
        law_settled_node_is_kept(call.args[i]);
    }
}

/// In a call `t("附件管理", ..)` the first argument becomes
/// `"attachmentManagement"`; the replacement touches no other argument, and
/// the walk leaves every other settled argument as it was.
pub proof fn law_attachment_management(call: CallExprView)
    requires
        callee_is_t(call.callee),
        call.args.len() > 0,
        call.args[0] == NodeView::Str("附件管理"@),
    ensures
        translate_call(call).args == call.args.update(
            0,
            NodeView::Str("attachmentManagement"@),
        ),
        rewrite_call(call).args.len() == call.args.len(),
        rewrite_call(call).args[0] == NodeView::Str("attachmentManagement"@),
        forall|i: int|
            1 <= i < call.args.len() && is_settled(call.args[i]) ==> #[trigger] rewrite_call(
                call,
            ).args[i] == call.args[i],
{
    lemma_table_entries();
    law_known_text_is_replaced(call, "附件管理"@);
}

/// In a call `t("简历内容", ..)` the first argument becomes `"resumeContent"`.
pub proof fn law_resume_content(call: CallExprView)
    requires
        callee_is_t(call.callee),
        call.args.len() > 0,
        call.args[0] == NodeView::Str("简历内容"@),
    ensures
        translate_call(call).args == call.args.update(0, NodeView::Str("resumeContent"@)),
        rewrite_call(call).args.len() == call.args.len(),
        rewrite_call(call).args[0] == NodeView::Str("resumeContent"@),
{
    lemma_table_entries();
    law_known_text_is_replaced(call, "简历内容"@);
}

/// In a call `t("<text>", ..)` whose text the table does not know, the
/// literal stays as it was.
pub proof fn law_unknown_text_is_kept(call: CallExprView, text: Seq<char>)
    requires
        callee_is_t(call.callee),
        call.args.len() > 0,
        call.args[0] == NodeView::Str(text),
        !translation_table().contains_key(text),
    ensures
        translate_call(call) == call,
        rewrite_call(call).args.len() == call.args.len(),
        rewrite_call(call).args[0] == NodeView::Str(text),
{
}

/// A call to `t` without arguments, or with a first argument that is no string
/// literal, is not replaced in.
pub proof fn law_missing_or_other_first_arg_is_kept(call: CallExprView)
    requires
        call.args.len() == 0 || !(call.args[0] is Str),
    ensures
        translate_call(call) == call,
        rewrite_call(call).callee == rewrite_callee(call.callee),
        rewrite_call(call).args == rewrite_nodes(call.args),
{
}

/// In a call to anything but the bare identifier `t`, no argument is
/// replaced: each comes out as the walk of that argument, which is the
/// argument itself where it is settled.
pub proof fn law_other_callee_is_kept(call: CallExprView)
    requires
        !callee_is_t(call.callee),
    ensures
        translate_call(call) == call,
        rewrite_call(call).args == rewrite_nodes(call.args),
        all_settled(call.args) ==> rewrite_call(call).args == call.args,
{
    if all_settled(call.args) {
        law_settled_nodes_are_kept(call.args);
    }
}

/// The replacement touches the first argument of a call and nothing else: the
/// callee, the number of arguments and every later argument stay as they
/// were, and the first argument stays a string literal wherever it changes.
pub proof fn law_replacement_touches_first_arg_only(call: CallExprView)
    ensures
        translate_call(call).callee == call.callee,
        translate_call(call).args.len() == call.args.len(),
        forall|i: int|
            1 <= i < call.args.len() ==> #[trigger] translate_call(call).args[i] == call.args[i],
        translate_call(call) != call ==> call.args[0] is Str && translate_call(call).args[0] is Str,
{
}

/// A node that is no call keeps its kind: an identifier and a string literal
/// stay as they are, and any other node keeps the number of its children,
/// each child being the walk of the child it had.
pub proof fn law_non_call_node_is_kept(node: NodeView)
    requires
        !(node is Call),
    ensures
        node is Ident || node is Str ==> rewrite_node(node) == node,
        node matches NodeView::Other(children) ==> rewrite_node(node) == NodeView::Other(
            rewrite_nodes(children),
        ) && rewrite_nodes(children).len() == children.len(),
        is_settled(node) ==> rewrite_node(node) == node,
{
    if is_settled(node) {
        law_settled_node_is_kept(node);
    }
}

/// The walk leaves a settled tree exactly as it was.
pub proof fn law_settled_node_is_kept(node: NodeView)
    requires
        is_settled(node),
    ensures
        rewrite_node(node) == node,
    decreases node,
{
    match node {
        NodeView::Call(call) => law_settled_call_is_kept(call),
        NodeView::Other(children) => law_settled_nodes_are_kept(children),
        _ => {},
    }
}

/// The walk leaves a settled callee exactly as it was.
pub proof fn law_settled_callee_is_kept(callee: CalleeView)
    requires
        callee_is_settled(callee),
    ensures
        rewrite_callee(callee) == callee,
    decreases callee,
{
    match callee {
        CalleeView::Expr(expr) => law_settled_node_is_kept(*expr),
        _ => {},
    }
}

/// The walk leaves a settled call exactly as it was.
pub proof fn law_settled_call_is_kept(call: CallExprView)
    requires
        call_is_settled(call),
    ensures
        rewrite_call(call) == call,
    decreases call,
{
    law_settled_callee_is_kept(call.callee);
    law_settled_nodes_are_kept(call.args);
}

/// The walk leaves a list of settled trees exactly as it was.
pub proof fn law_settled_nodes_are_kept(nodes: Seq<NodeView>)
    requires
        all_settled(nodes),
    ensures
        rewrite_nodes(nodes) == nodes,
    decreases nodes,
{
    assert forall|i: int| 0 <= i < nodes.len() implies rewrite_node(#[trigger] nodes[i])
        == nodes[i] by {
        law_settled_node_is_kept(nodes[i]);
    }
}

/// The walk leaves a settled program exactly as it was.
pub proof fn law_settled_program_is_kept(program: ProgramView)
    requires
        all_settled(program.body),
    ensures
        rewrite_program(program) == program,
{
    law_settled_nodes_are_kept(program.body);
}

/// After the walk no call of the tree has a replacement left: no subtree was
/// passed over, and a second walk would change nothing.
pub proof fn law_walk_settles_node(node: NodeView)
    ensures
        is_settled(rewrite_node(node)),
        rewrite_node(rewrite_node(node)) == rewrite_node(node),
    decreases node,
{
    match node {
        NodeView::Call(call) => law_walk_settles_call(call),
        NodeView::Other(children) => law_walk_settles_nodes(children),
        _ => {},
    }
    law_settled_node_is_kept(rewrite_node(node));
}

/// After the walk no call of the callee has a replacement left, and the
/// callee is the bare identifier `t` exactly where it was before.
pub proof fn law_walk_settles_callee(callee: CalleeView)
    ensures
        callee_is_settled(rewrite_callee(callee)),
        callee_is_t(rewrite_callee(callee)) == callee_is_t(callee),
    decreases callee,
{
    match callee {
        CalleeView::Expr(expr) => law_walk_settles_node(*expr),
        _ => {},
    }
}

/// After the walk neither the call nor a call below it has a replacement
/// left.
pub proof fn law_walk_settles_call(call: CallExprView)
    ensures
        call_is_settled(rewrite_call(call)),
    decreases call,
{
    lemma_keys_are_not_source_texts();
    law_walk_settles_callee(call.callee);
    law_walk_settles_nodes(call.args);
}

/// After the walk no call of the list has a replacement left.
pub proof fn law_walk_settles_nodes(nodes: Seq<NodeView>)
    ensures
        all_settled(rewrite_nodes(nodes)),
    decreases nodes,
{
    assert forall|i: int| 0 <= i < nodes.len() implies is_settled(
        #[trigger] rewrite_nodes(nodes)[i],
    ) by {
        law_walk_settles_node(nodes[i]);
    }
}

/// After the walk no call of the program has a replacement left, and a
/// second walk would change nothing.
pub proof fn law_walk_settles_program(program: ProgramView)
    ensures
        all_settled(rewrite_program(program).body),
        rewrite_program(rewrite_program(program)) == rewrite_program(program),
{
    law_walk_settles_nodes(program.body);
    law_settled_program_is_kept(rewrite_program(program));
}

/// The walk keeps the number of nodes of a tree.
pub proof fn law_node_count_is_kept(node: NodeView)
    ensures
        node_count(rewrite_node(node)) == node_count(node),
    decreases node,
{
    match node {
        NodeView::Call(call) => law_call_shape_is_kept(call),
        NodeView::Other(children) => law_nodes_count_is_kept(children),
        _ => {},
    }
}

/// The walk keeps the number of nodes of a callee.
pub proof fn law_callee_count_is_kept(callee: CalleeView)
    ensures
        callee_node_count(rewrite_callee(callee)) == callee_node_count(callee),
    decreases callee,
{
    match callee {
        CalleeView::Expr(expr) => law_node_count_is_kept(*expr),
        _ => {},
    }
}

/// The walk keeps the number of arguments of a call and the number of its
/// nodes.
pub proof fn law_call_shape_is_kept(call: CallExprView)
    ensures
        rewrite_call(call).args.len() == call.args.len(),
        call_node_count(rewrite_call(call)) == call_node_count(call),
    decreases call,
{
    law_callee_count_is_kept(call.callee);
    law_nodes_count_is_kept(call.args);
    if let Some(key) = replacement(call) {
        lemma_nodes_in_update(rewrite_nodes(call.args), 0, NodeView::Str(key));
    }
}

/// The walk keeps the length of a list of trees and the number of its nodes.
pub proof fn law_nodes_count_is_kept(nodes: Seq<NodeView>)
    ensures
        rewrite_nodes(nodes).len() == nodes.len(),
        nodes_in(rewrite_nodes(nodes)) == nodes_in(nodes),
    decreases nodes,
{
    if nodes.len() > 0 {
        law_nodes_count_is_kept(nodes.drop_last());
        law_node_count_is_kept(nodes.last());
        assert(rewrite_nodes(nodes).drop_last() =~= rewrite_nodes(nodes.drop_last()));
    }
}

/// The walk keeps the number of top-level nodes of a program and the number
/// of all its nodes.
pub proof fn law_program_shape_is_kept(program: ProgramView)
    ensures
        rewrite_program(program).body.len() == program.body.len(),
        nodes_in(rewrite_program(program).body) == nodes_in(program.body),
{
    law_nodes_count_is_kept(program.body);
}

} // verus!
