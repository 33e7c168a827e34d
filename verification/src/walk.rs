//! A traversal as the list of nodes that a host hands the visitor, in the
//! order of its walk, and what holds of a traversal as a whole.

use crate::ast::{
    CallExpr, CallModel, Module, ModuleItemModel, VarDeclarator, VarDeclaratorModel,
};
use crate::bindings::{no_hooks, no_translators};
use crate::imports::{dependencies_with_items, has_directive, hooks_with_items, item_after};
use crate::laws::{
    call_without_sentinel_is_kept, declarator_without_sentinel_is_kept, extracted_count,
    extracts_nothing, import_rewrite_is_idempotent, imports_no_sentinel,
    module_without_sentinel_is_kept,
};
use crate::tracker::{declarator_after, translators_with_declarator};
use crate::visitor::{
    call_after, outcome_of, visitor_after_call, CallOutcome, TransformModel, TransformVisitor,
};
use vstd::prelude::*;

verus! {

/// A node that a host hands the visitor.
#[derive(Debug, Clone, PartialEq, Eq)]
pub enum Node {
    /// The top level of the module, before anything inside it.
    Module(Module),
    Declarator(VarDeclarator),
    Call(CallExpr),
}

/// What a [`Node`] holds, as mathematical values.
pub enum NodeModel {
    Module(Seq<ModuleItemModel>),
    Declarator(VarDeclaratorModel),
    Call(CallModel),
}

impl View for Node {
    type V = NodeModel;

    open spec fn view(&self) -> NodeModel {
        match self {
            Node::Module(m) => NodeModel::Module(m@),
            Node::Declarator(d) => NodeModel::Declarator(d@),
            Node::Call(c) => NodeModel::Call(c@),
        }
    }
}

/// The models of a list of nodes.
pub open spec fn nodes_model(nodes: Seq<Node>) -> Seq<NodeModel> {
    nodes.map_values(|n: Node| n@)
}

/// A node after the visitor in state `v` was at it.
pub open spec fn node_after(v: TransformModel, n: NodeModel) -> NodeModel {
    match n {
        NodeModel::Module(items) => NodeModel::Module(
            items.map_values(|i: ModuleItemModel| item_after(i)),
        ),
        NodeModel::Declarator(d) => NodeModel::Declarator(declarator_after(v.hooks, d)),
        NodeModel::Call(c) => NodeModel::Call(call_after(v, c)),
    }
}

/// The state of the visitor after it was at a node in state `v`.
pub open spec fn state_after_node(v: TransformModel, n: NodeModel) -> TransformModel {
    match n {
        NodeModel::Module(items) => TransformModel {
            hooks: hooks_with_items(v.hooks, items),
            dependencies: dependencies_with_items(v.dependencies, items),
            has_use_client: v.has_use_client || has_directive(items, "use client"@),
            has_use_server: v.has_use_server || has_directive(items, "use server"@),
            ..v
        },
        NodeModel::Declarator(d) => TransformModel {
            translators: translators_with_declarator(v.hooks, v.translators, d),
            ..v
        },
        NodeModel::Call(c) => visitor_after_call(v, c),
    }
}

/// What the visitor in state `v` does at a node: at a call, what it does
/// at the call; at any other node, nothing that a host has to act on.
pub open spec fn outcome_at(v: TransformModel, n: NodeModel) -> CallOutcome {
    match n {
        NodeModel::Call(c) => outcome_of(v, c),
        _ => CallOutcome::Untouched,
    }
}

/// The state of the visitor after it was at each of `nodes` in turn.
pub open spec fn state_after(v: TransformModel, nodes: Seq<NodeModel>) -> TransformModel
    decreases nodes.len(),
{
    if nodes.len() == 0 {
        v
    } else {
        state_after_node(state_after(v, nodes.drop_last()), nodes.last())
    }
}

/// The nodes after the visitor was at each in turn: each as the visitor
/// left it, in the state that the nodes before it had brought about.
pub open spec fn nodes_after(v: TransformModel, nodes: Seq<NodeModel>) -> Seq<NodeModel> {
    Seq::new(nodes.len(), |i: int| node_after(state_after(v, nodes.take(i)), nodes[i]))
}

/// What the visitor does at each of `nodes` in turn.
pub open spec fn outcomes_of(v: TransformModel, nodes: Seq<NodeModel>) -> Seq<CallOutcome> {
    Seq::new(nodes.len(), |i: int| outcome_at(state_after(v, nodes.take(i)), nodes[i]))
}

/// The state of a visitor that has seen nothing yet.
pub open spec fn fresh(is_development: bool, file_path: Seq<char>) -> TransformModel {
    TransformModel {
        is_development,
        file_path,
        hooks: no_hooks(),
        translators: no_translators(),
        results: Seq::empty(),
        dependencies: Seq::empty(),
        has_use_client: false,
        has_use_server: false,
    }
}

impl TransformVisitor {
    /// Visits one node.
    pub fn visit_mut_node(&mut self, node: &mut Node) -> (outcome: CallOutcome)
        ensures
            outcome == outcome_at(old(self)@, old(node)@),
            final(node)@ == node_after(old(self)@, old(node)@),
            final(self)@ == state_after_node(old(self)@, old(node)@),
    {
        match node {
            Node::Module(m) => {
                self.visit_mut_module(m);
                CallOutcome::Untouched
            },
            Node::Declarator(d) => {
                self.visit_mut_var_declarator(d);
                CallOutcome::Untouched
            },
            Node::Call(c) => self.visit_mut_call_expr(c),
        }
    }

    /// Visits the nodes of a traversal in turn, and tells for each what
    /// was done at it.
    pub fn visit_mut_nodes(&mut self, nodes: &mut Vec<Node>) -> (outcomes: Vec<CallOutcome>)
        ensures
            outcomes@ == outcomes_of(old(self)@, nodes_model(old(nodes)@)),
            nodes_model(final(nodes)@) == nodes_after(old(self)@, nodes_model(old(nodes)@)),
            final(self)@ == state_after(old(self)@, nodes_model(old(nodes)@)),
    {
        let ghost before = nodes_model(nodes@);
        let ghost v0 = self@;
        let mut outcomes: Vec<CallOutcome> = Vec::new();
        let mut i: usize = 0;
        while i < nodes.len()
            invariant
                i <= nodes@.len(),
                nodes@.len() == before.len(),
                outcomes@.len() == i,
                self@ == state_after(v0, before.take(i as int)),
                forall|j: int|
                    0 <= j < i ==> #[trigger] outcomes@[j] == outcome_at(
                        state_after(v0, before.take(j)),
                        before[j],
                    ),
                forall|j: int|
                    0 <= j < i ==> (#[trigger] nodes@[j])@ == node_after(
                        state_after(v0, before.take(j)),
                        before[j],
                    ),
                forall|j: int| i <= j < before.len() ==> (#[trigger] nodes@[j])@ == before[j],
            decreases before.len() - i,
        {
            assert(before.take(i + 1).drop_last() =~= before.take(i as int));
            assert(before.take(i + 1).last() == before[i as int]);
            let outcome = self.visit_mut_node(&mut nodes[i]);
            outcomes.push(outcome);
            i = i + 1;
        }
        assert(before.take(i as int) =~= before);
        assert(outcomes@ =~= outcomes_of(v0, before));
        assert(nodes_model(nodes@) =~= nodes_after(v0, before));
        outcomes
    }
}

/// Whether no import among `nodes` imports a name to extract from.
pub open spec fn no_sentinel_among(nodes: Seq<NodeModel>) -> bool {
    forall|i: int, k: int|
        0 <= i < nodes.len() && nodes[i] is Module && 0 <= k < nodes[i]->Module_0.len() ==> match (
        #[trigger] nodes[i]->Module_0[k]) {
            ModuleItemModel::Import(d) => imports_no_sentinel(d),
            _ => true,
        }
}

/// A traversal of a module that imports no name to extract from leaves
/// every node as it is, asks for no diagnostic, and extracts no message,
/// whatever else the module imports and calls.
pub proof fn traversal_without_sentinel_is_kept(v: TransformModel, nodes: Seq<NodeModel>)
    requires
        extracts_nothing(v),
        no_sentinel_among(nodes),
    ensures
        nodes_after(v, nodes) == nodes,
        extracts_nothing(state_after(v, nodes)),
        extracted_count(state_after(v, nodes).results) == extracted_count(v.results),
        forall|i: int|
            0 <= i < nodes.len() ==> #[trigger] outcomes_of(v, nodes)[i] == CallOutcome::Untouched
                || outcomes_of(v, nodes)[i] == CallOutcome::Referenced,
    decreases nodes.len(),
{
    if nodes.len() > 0 {
        let front = nodes.drop_last();
        assert(no_sentinel_among(front)) by {
            assert forall|i: int, k: int|
                0 <= i < front.len() && front[i] is Module && 0 <= k < front[i]->Module_0.len()
                implies match (#[trigger] front[i]->Module_0[k]) {
                ModuleItemModel::Import(d) => imports_no_sentinel(d),
                _ => true,
            } by {
                assert(front[i] == nodes[i]);
                let _ = nodes[i]->Module_0[k];
            }
        }
        traversal_without_sentinel_is_kept(v, front);
        assert forall|i: int| 0 <= i < nodes.len() implies extracts_nothing(
            #[trigger] state_after(v, nodes.take(i)),
        ) && node_after(state_after(v, nodes.take(i)), nodes[i]) == nodes[i] && (outcome_at(
            state_after(v, nodes.take(i)),
            nodes[i],
        ) == CallOutcome::Untouched || outcome_at(state_after(v, nodes.take(i)), nodes[i])
            == CallOutcome::Referenced) by {
            if i < front.len() {
                assert(nodes.take(i) =~= front.take(i));
                assert(nodes[i] == front[i]);
                assert(nodes_after(v, front)[i] == front[i]);
                prefix_extracts_nothing(v, front, i);
                let _ = outcomes_of(v, front)[i];
            } else {
                assert(nodes.take(i) =~= front);
                step_without_sentinel_is_kept(state_after(v, front), nodes, i);
            }
        }
        assert(nodes.take(nodes.len() - 1) =~= front);
        step_without_sentinel_is_kept(state_after(v, front), nodes, nodes.len() - 1);
        assert(nodes_after(v, nodes) =~= nodes);
    } else {
        assert(nodes_after(v, nodes) =~= nodes);
    }
}

/// A traversal by a visitor that has seen nothing yet, of a module that
/// imports no name to extract from, leaves every node as it is and
/// extracts no message, even where the module calls functions named like
/// a hook or like a translator.
pub proof fn fresh_traversal_without_sentinel_is_kept(
    is_development: bool,
    file_path: Seq<char>,
    nodes: Seq<NodeModel>,
)
    requires
        no_sentinel_among(nodes),
    ensures
        nodes_after(fresh(is_development, file_path), nodes) == nodes,
        extracted_count(state_after(fresh(is_development, file_path), nodes).results) == 0,
{
    traversal_without_sentinel_is_kept(fresh(is_development, file_path), nodes);
}

/// One node of a module that imports no name to extract from stays as it
/// is, and the visitor still extracts nothing after it.
pub proof fn step_without_sentinel_is_kept(w: TransformModel, nodes: Seq<NodeModel>, i: int)
    requires
        extracts_nothing(w),
        no_sentinel_among(nodes),
        0 <= i < nodes.len(),
    ensures
        node_after(w, nodes[i]) == nodes[i],
        extracts_nothing(state_after_node(w, nodes[i])),
        extracted_count(state_after_node(w, nodes[i]).results) == extracted_count(w.results),
        outcome_at(w, nodes[i]) == CallOutcome::Untouched || outcome_at(w, nodes[i])
            == CallOutcome::Referenced,
{
    match nodes[i] {
        NodeModel::Module(items) => {
            assert forall|k: int| 0 <= k < items.len() implies match #[trigger] items[k] {
                ModuleItemModel::Import(d) => imports_no_sentinel(d),
                _ => true,
            } by {
                let _ = nodes[i]->Module_0[k];
            }
            module_without_sentinel_is_kept(w, items);
        },
        NodeModel::Declarator(d) => {
            declarator_without_sentinel_is_kept(w, d);
        },
        NodeModel::Call(c) => {
            call_without_sentinel_is_kept(w, c);
        },
    }
}

/// Where a traversal of a module without a name to extract from has come
/// to, the visitor extracts nothing.
pub proof fn prefix_extracts_nothing(v: TransformModel, nodes: Seq<NodeModel>, n: int)
    requires
        extracts_nothing(v),
        no_sentinel_among(nodes),
        0 <= n <= nodes.len(),
    ensures
        extracts_nothing(state_after(v, nodes.take(n))),
    decreases n,
{
    if n > 0 {
        prefix_extracts_nothing(v, nodes, n - 1);
        assert(nodes.take(n).drop_last() =~= nodes.take(n - 1));
        assert(nodes.take(n).last() == nodes[n - 1]);
        step_without_sentinel_is_kept(state_after(v, nodes.take(n - 1)), nodes, n - 1);
    }
}

/// The nodes that a traversal leaves import no name to extract from.
pub proof fn traversal_removes_sentinels(v: TransformModel, nodes: Seq<NodeModel>)
    ensures
        no_sentinel_among(nodes_after(v, nodes)),
{
    let after = nodes_after(v, nodes);
    assert forall|i: int, k: int|
        0 <= i < after.len() && after[i] is Module && 0 <= k < after[i]->Module_0.len()
        implies match (#[trigger] after[i]->Module_0[k]) {
        ModuleItemModel::Import(d) => imports_no_sentinel(d),
        _ => true,
    } by {
        let items = nodes[i]->Module_0;
        assert(after[i]->Module_0 == items.map_values(|x: ModuleItemModel| item_after(x)));
        match items[k] {
            ModuleItemModel::Import(d) => {
                import_rewrite_is_idempotent(d);
            },
            _ => {},
        }
    }
}

/// A second traversal, of the nodes that a first traversal left, changes
/// no node and extracts no message.
pub proof fn second_traversal_changes_nothing(
    first: TransformModel,
    is_development: bool,
    file_path: Seq<char>,
    nodes: Seq<NodeModel>,
)
    ensures
        nodes_after(fresh(is_development, file_path), nodes_after(first, nodes)) == nodes_after(
            first,
            nodes,
        ),
        extracted_count(
            state_after(fresh(is_development, file_path), nodes_after(first, nodes)).results,
        ) == 0,
{
    traversal_removes_sentinels(first, nodes);
    fresh_traversal_without_sentinel_is_kept(is_development, file_path, nodes_after(first, nodes));
}

} // verus!
