//! The tree-rewriting visitor.

use vstd::prelude::*;
use crate::ast::{
    call_node_count, callee_node_count, lemma_nodes_in_bounds, node_count, nodes_in, nodes_view,
    CallExpr, Callee, Node, NodeView, Program,
};
use crate::config::Config;
use crate::error::TransformError;
use crate::messages::{en_key, lemma_table_entries};
use crate::rewrite::{
    lemma_translate_keeps_count, lemma_walk_after_translate, replacement, rewrite_call,
    rewrite_callee, rewrite_node, rewrite_nodes, rewrite_program, translate_call,
};
use crate::text::str_eq;

verus! {

/// Walks a program tree and replaces translatable literals by their keys.
#[derive(Debug, PartialEq, Eq)]
pub struct TransformVisitor {
    config: Config,
}

impl TransformVisitor {
    /// The configuration this visitor was made with.
    pub closed spec fn spec_config(&self) -> &Config {
        &self.config
    }

    /// A visitor for `config`.
    pub fn new(config: Config) -> (visitor: Self)
        ensures
            visitor.config() == config,
    {
        TransformVisitor { config }
    }

    /// A visitor for what deserializing the configuration text came to: there
    /// is one exactly where that succeeded.
    pub fn try_new(config: Result<Config, serde_json::Error>) -> (made: Result<
        Self,
        TransformError,
    >)
        ensures
            match config {
                Ok(parsed) => made matches Ok(visitor) && visitor.config() == parsed,
                Err(_) => made == Err::<Self, TransformError>(TransformError::InvalidConfig),
            },
    {
        match config {
            Ok(parsed) => Ok(TransformVisitor::new(parsed)),
            Err(error) => Err(TransformError::from(error)),
        }
    }

    /// The configuration this visitor was made with.
    #[verifier::when_used_as_spec(spec_config)]
    pub fn config(&self) -> (config: &Config)
        ensures
            config == self.spec_config(),
    {
        &self.config
    }

    /// The translation key for `zh_text`, if the table has one.
    pub fn get_en_key(&self, zh_text: &str) -> (key: Option<String>)
        ensures
            key.deep_view() == en_key(zh_text@),
    {
        proof {
            lemma_table_entries();
        }
        if str_eq(zh_text, "附件管理") {
            Some("attachmentManagement".to_owned())
        } else if str_eq(zh_text, "简历内容") {
            Some("resumeContent".to_owned())
        } else {
            None
        }
    }

    /// The key that takes the place of the first argument of `call`, if the
    /// call is `t("<text>", ..)` with a text the table knows.
    pub fn replacement_key(&self, call: &CallExpr) -> (key: Option<String>)
        ensures
            key.deep_view() == replacement(call@),
    {
        match &call.callee {
            Callee::Expr(expr) => match &**expr {
                Node::Ident(name) => {
                    if str_eq(name.as_str(), "t") && call.args.len() > 0 {
                        match &call.args[0] {
                            Node::Str(value) => self.get_en_key(value.as_str()),
                            _ => None,
                        }
                    } else {
                        None
                    }
                },
                _ => None,
            },
            _ => None,
        }
    }

    /// Replaces the first argument of `call` by its key where the call is
    /// `t("<text>", ..)` with a text the table knows. Nothing below the call
    /// is visited.
    pub fn translate_first_arg(&self, call: &mut CallExpr)
        ensures
            final(call)@ == translate_call(old(call)@),
    {
        if let Some(key) = self.replacement_key(call) {
            call.args[0] = Node::Str(key);
            assert(call@.args =~= old(call)@.args.update(0, NodeView::Str(key@)));
        }
    }

    /// Replaces the first argument of `call` by its key where the call is
    /// `t("<text>", ..)` with a text the table knows, then walks the callee
    /// and every argument.
    pub fn visit_mut_call_expr(&mut self, call: &mut CallExpr)
        ensures
            final(call)@ == rewrite_call(old(call)@),
            *final(self) == *old(self),
        decreases call_node_count(old(call)@), 0int,
    {
        self.translate_first_arg(call);
        proof {
            lemma_translate_keeps_count(old(call)@);
            lemma_walk_after_translate(old(call)@);
        }
        self.visit_mut_callee(&mut call.callee);
        self.visit_mut_nodes(&mut call.args);
    }

    /// Walks the callee of a call.
    pub fn visit_mut_callee(&mut self, callee: &mut Callee)
        ensures
            final(callee)@ == rewrite_callee(old(callee)@),
            *final(self) == *old(self),
        decreases callee_node_count(old(callee)@), 2int,
    {
        match callee {
            Callee::Expr(expr) => {
                self.visit_mut_node(&mut **expr);
            },
            _ => {},
        }
    }

    /// Walks `node` and everything below it.
    pub fn visit_mut_node(&mut self, node: &mut Node)
        ensures
            final(node)@ == rewrite_node(old(node)@),
            *final(self) == *old(self),
        decreases node_count(old(node)@), 1int,
    {
        match node {
            Node::Call(call) => {
                self.visit_mut_call_expr(call);
            },
            Node::Other(children) => {
                self.visit_mut_nodes(children);
            },
            _ => {},
        }
    }

    /// Walks each tree of `nodes`, in order.
    pub fn visit_mut_nodes(&mut self, nodes: &mut Vec<Node>)
        ensures
            nodes_view(final(nodes)@) == rewrite_nodes(nodes_view(old(nodes)@)),
            *final(self) == *old(self),
        decreases nodes_in(nodes_view(old(nodes)@)), 2int,
    {
        let mut i: usize = 0;
        while i < nodes.len()
            invariant
                i <= nodes.len(),
                nodes.len() == old(nodes).len(),
                *self == *old(self),
                forall|j: int|
                    0 <= j < i ==> (#[trigger] nodes@[j])@ == rewrite_node(old(nodes)@[j]@),
                forall|j: int| i <= j < nodes.len() ==> #[trigger] nodes@[j] == old(nodes)@[j],
            decreases nodes.len() - i,
        {
            proof {
                lemma_nodes_in_bounds(nodes_view(old(nodes)@), i as int);
            }
            self.visit_mut_node(&mut nodes[i]);
            i += 1;
        }
    }

    /// Walks the whole program.
    pub fn visit_mut_program(&mut self, program: &mut Program)
        ensures
            final(program)@ == rewrite_program(old(program)@),
            *final(self) == *old(self),
    {
        self.visit_mut_nodes(&mut program.body);
    }
}

} // verus!
