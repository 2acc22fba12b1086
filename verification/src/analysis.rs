//! The pass that resolves the names of types.
//!
//! No name is resolved yet: the pass records for every field of every
//! structure that its type is unresolved, and changes nothing else.

use crate::nodes::{
    node_depth, nodes_depth, Alias, Block, BlockNode, BlockNodeView, BlockView, Enum, Structure,
    StructureFieldView, StructureView,
};
use crate::types::{TypeName, TypeNameView};
use vstd::prelude::*;

verus! {

/// A field whose type is marked as unresolved.
pub open spec fn unresolved_field(field: StructureFieldView) -> StructureFieldView {
    StructureFieldView {
        name: field.name,
        field_type: TypeNameView { resolved: None, ..field.field_type },
    }
}

/// A structure after the pass: the type of each field is marked as
/// unresolved.
pub open spec fn analyzed_structure(structure: StructureView) -> StructureView {
    StructureView {
        name: structure.name,
        fields: structure.fields.map_values(|field: StructureFieldView| unresolved_field(field)),
    }
}

/// A declaration after the pass: structures and the structures of nested
/// blocks are analyzed, aliases and enumerations stay as they are.
pub open spec fn analyzed_node(node: BlockNodeView) -> BlockNodeView
    decreases node,
{
    match node {
        BlockNodeView::Block(block) => BlockNodeView::Block(
            BlockView { nodes: analyzed_nodes(block.nodes) },
        ),
        BlockNodeView::Structure(structure) => BlockNodeView::Structure(
            analyzed_structure(structure),
        ),
        _ => node,
    }
}

/// The declarations of a list after the pass.
pub open spec fn analyzed_nodes(nodes: Seq<BlockNodeView>) -> Seq<BlockNodeView>
    decreases nodes,
{
    Seq::new(
        nodes.len(),
        |i: int|
            if 0 <= i < nodes.len() {
                analyzed_node(nodes[i])
            } else {
                BlockNodeView::Block(BlockView { nodes: Seq::empty() })
            },
    )
}

/// A block after the pass.
pub open spec fn analyzed(block: BlockView) -> BlockView {
    BlockView { nodes: analyzed_nodes(block.nodes) }
}

/// The declaration that a name of a type refers to: none is found yet.
fn resolve_type_name(_field_type: &TypeName) -> (resolved: Option<String>)
    ensures
        resolved is None,
{
    None
}

/// Resolves the types of the fields of a structure.
fn visit_structure(structure: &mut Structure)
    ensures
        final(structure)@ == analyzed_structure(old(structure)@),
{
    let mut i: usize = 0;
    while i < structure.fields.len()
        invariant
            i <= structure.fields.len(),
            structure.fields.len() == old(structure).fields.len(),
            structure.name == old(structure).name,
            forall|k: int|
                0 <= k < i ==> (#[trigger] structure.fields[k])@ == unresolved_field(
                    old(structure).fields[k]@,
                ),
            forall|k: int|
                i <= k < structure.fields.len() ==> #[trigger] structure.fields[k] == old(
                    structure,
                ).fields[k],
        decreases structure.fields.len() - i,
    {
        let resolved = resolve_type_name(&structure.fields[i].field_type);
        structure.fields[i].field_type.resolved = resolved;
        i += 1;
    }
    assert(structure@.fields =~= analyzed_structure(old(structure)@).fields);
}

/// Aliases have nothing to resolve.
fn visit_alias(_alias: &mut Alias)
    ensures
        *final(_alias) == *old(_alias),
{
}

/// Enumerations are not resolved yet.
fn visit_enum(_enum: &mut Enum)
    ensures
        *final(_enum) == *old(_enum),
{
}

/// Runs the pass over a block and the blocks nested in it.
pub fn analyze_block(block: &mut Block)
    ensures
        final(block)@ == analyzed(old(block)@),
    decreases *old(block),
{
    let mut i: usize = 0;
    while i < block.nodes.len()
        invariant
            i <= block.nodes.len(),
            block.nodes.len() == old(block).nodes.len(),
            forall|k: int|
                0 <= k < i ==> (#[trigger] block.nodes[k])@ == analyzed_node(
                    old(block).nodes[k]@,
                ),
            forall|k: int|
                i <= k < block.nodes.len() ==> #[trigger] block.nodes[k] == old(block).nodes[k],
        decreases block.nodes.len() - i,
    {
        match &mut block.nodes[i] {
            BlockNode::Block(inner) => analyze_block(inner),
            BlockNode::Structure(structure) => visit_structure(structure),
            BlockNode::Alias(alias) => visit_alias(alias),
            BlockNode::Enum(e) => visit_enum(e),
        }
        i += 1;
    }
    assert(block@.nodes =~= analyzed(old(block)@).nodes);
}

/// The pass leaves the nesting of blocks as it is.
pub proof fn lemma_analysis_keeps_depth(nodes: Seq<BlockNodeView>, count: nat)
    requires
        count <= nodes.len(),
    ensures
        nodes_depth(analyzed_nodes(nodes), count) == nodes_depth(nodes, count),
    decreases nodes, count,
{
    if count > 0 {
        lemma_analysis_keeps_depth(nodes, (count - 1) as nat);
        let node = nodes[count - 1];
        assert(analyzed_nodes(nodes)[count - 1] == analyzed_node(node));
        match node {
            BlockNodeView::Block(block) => {
                lemma_analysis_keeps_depth(block.nodes, block.nodes.len());
                assert(analyzed_nodes(block.nodes).len() == block.nodes.len());
            },
            _ => {},
        }
        assert(node_depth(analyzed_node(node)) == node_depth(node));
    }
}

} // verus!
