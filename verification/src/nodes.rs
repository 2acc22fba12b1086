//! The declaration tree that the parser builds and the generators walk.

use crate::token::{LocalizedToken, LocalizedTokenView};
use crate::types::{TypeName, TypeNameView};
use vstd::prelude::*;

verus! {

/// One field of a structure.
#[derive(Debug)]
pub struct StructureField {
    pub name: String,
    pub field_type: TypeName,
}

/// The mathematical value of a [`StructureField`].
pub struct StructureFieldView {
    pub name: Seq<char>,
    pub field_type: TypeNameView,
}

impl View for StructureField {
    type V = StructureFieldView;

    open spec fn view(&self) -> StructureFieldView {
        StructureFieldView { name: self.name@, field_type: self.field_type@ }
    }
}

/// The values of the fields of a list, in the list's order.
pub open spec fn fields_view(fields: Seq<StructureField>) -> Seq<StructureFieldView> {
    fields.map_values(|field: StructureField| field@)
}

/// A named list of fields, in the order in which they were declared.
#[derive(Debug)]
pub struct Structure {
    pub name: String,
    pub fields: Vec<StructureField>,
}

/// The mathematical value of a [`Structure`].
pub struct StructureView {
    pub name: Seq<char>,
    pub fields: Seq<StructureFieldView>,
}

impl View for Structure {
    type V = StructureView;

    open spec fn view(&self) -> StructureView {
        StructureView { name: self.name@, fields: fields_view(self.fields@) }
    }
}

/// A second name for a type.
#[derive(Debug)]
pub struct Alias {
    pub alias_name: String,
    pub aliased_type_name: String,
}

/// The mathematical value of an [`Alias`].
pub struct AliasView {
    pub alias_name: Seq<char>,
    pub aliased_type_name: Seq<char>,
}

impl View for Alias {
    type V = AliasView;

    open spec fn view(&self) -> AliasView {
        AliasView { alias_name: self.alias_name@, aliased_type_name: self.aliased_type_name@ }
    }
}

/// One member of an enumeration: its name, the literal that fixes its value
/// if one was written, and the fields it carries if it has a body.
#[derive(Debug)]
pub struct EnumItem {
    pub name: String,
    pub value_token: Option<LocalizedToken>,
    pub structure: Option<Structure>,
}

/// The mathematical value of an [`EnumItem`].
pub struct EnumItemView {
    pub name: Seq<char>,
    pub value_token: Option<LocalizedTokenView>,
    pub structure: Option<StructureView>,
}

impl View for EnumItem {
    type V = EnumItemView;

    open spec fn view(&self) -> EnumItemView {
        EnumItemView {
            name: self.name@,
            value_token: match self.value_token {
                Some(token) => Some(token@),
                None => None,
            },
            structure: match self.structure {
                Some(structure) => Some(structure@),
                None => None,
            },
        }
    }
}

/// The values of the items of a list, in the list's order.
pub open spec fn items_view(items: Seq<EnumItem>) -> Seq<EnumItemView> {
    items.map_values(|item: EnumItem| item@)
}

/// A named list of members, in the order in which they were declared.
#[derive(Debug)]
pub struct Enum {
    pub name: String,
    pub items: Vec<EnumItem>,
}

/// The mathematical value of an [`Enum`].
pub struct EnumView {
    pub name: Seq<char>,
    pub items: Seq<EnumItemView>,
}

/// Whether one of the items carries fields.
pub open spec fn any_item_has_fields(items: Seq<EnumItemView>) -> bool {
    exists|i: int| 0 <= i < items.len() && (#[trigger] items[i]).structure is Some
}

impl EnumView {
    /// An enumeration is a tagged union as soon as one of its members
    /// carries fields, and a plain enumeration otherwise.
    pub open spec fn is_tagged_union(self) -> bool {
        any_item_has_fields(self.items)
    }
}

impl View for Enum {
    type V = EnumView;

    open spec fn view(&self) -> EnumView {
        EnumView { name: self.name@, items: items_view(self.items@) }
    }
}

impl Enum {
    /// Whether one of the items carries fields.
    pub fn is_tagged_union(&self) -> (tagged: bool)
        ensures
            tagged == self@.is_tagged_union(),
    {
        let mut i: usize = 0;
        while i < self.items.len()
            invariant
                i <= self.items.len(),
                self@.items.len() == self.items.len(),
                forall|k: int| 0 <= k < i ==> (#[trigger] self@.items[k]).structure is None,
            decreases self.items.len() - i,
        {
            if self.items[i].structure.is_some() {
                assert(self@.items[i as int].structure is Some);
                return true;
            }
            assert(self@.items[i as int].structure is None);
            i += 1;
        }
        false
    }
}

/// A sequence of declarations. The root of a schema is a block, and so is
/// every group in braces inside it.
#[derive(Debug)]
pub struct Block {
    pub nodes: Vec<BlockNode>,
}

/// One declaration of a block.
#[derive(Debug)]
pub enum BlockNode {
    Block(Block),
    Structure(Structure),
    Alias(Alias),
    Enum(Enum),
}

/// The mathematical value of a [`Block`].
pub struct BlockView {
    pub nodes: Seq<BlockNodeView>,
}

/// The mathematical value of a [`BlockNode`].
pub enum BlockNodeView {
    Block(BlockView),
    Structure(StructureView),
    Alias(AliasView),
    Enum(EnumView),
}

/// The value of a node: that of the declaration it holds.
pub open spec fn node_view(node: BlockNode) -> BlockNodeView
    decreases node,
{
    match node {
        BlockNode::Block(block) => BlockNodeView::Block(
            BlockView { nodes: nodes_view(block.nodes@) },
        ),
        BlockNode::Structure(structure) => BlockNodeView::Structure(structure@),
        BlockNode::Alias(alias) => BlockNodeView::Alias(alias@),
        BlockNode::Enum(e) => BlockNodeView::Enum(e@),
    }
}

/// The values of the nodes of a list, in the list's order.
pub open spec fn nodes_view(nodes: Seq<BlockNode>) -> Seq<BlockNodeView>
    decreases nodes,
{
    Seq::new(
        nodes.len(),
        |i: int|
            if 0 <= i < nodes.len() {
                node_view(nodes[i])
            } else {
                BlockNodeView::Block(BlockView { nodes: Seq::empty() })
            },
    )
}

impl View for BlockNode {
    type V = BlockNodeView;

    open spec fn view(&self) -> BlockNodeView {
        node_view(*self)
    }
}

impl View for Block {
    type V = BlockView;

    open spec fn view(&self) -> BlockView {
        BlockView { nodes: nodes_view(self.nodes@) }
    }
}

/// How deep blocks are nested inside a node: zero for a declaration, and
/// for a block one more than for the deepest of its nodes.
pub open spec fn node_depth(node: BlockNodeView) -> nat
    decreases node, 0nat,
{
    match node {
        BlockNodeView::Block(block) => 1 + nodes_depth(block.nodes, block.nodes.len()),
        _ => 0,
    }
}

/// How deep blocks are nested inside the first `count` nodes of a list.
pub open spec fn nodes_depth(nodes: Seq<BlockNodeView>, count: nat) -> nat
    decreases nodes, count,
{
    if count == 0 || count > nodes.len() {
        0
    } else {
        let before = nodes_depth(nodes, (count - 1) as nat);
        let last = node_depth(nodes[count - 1]);
        if before < last {
            last
        } else {
            before
        }
    }
}

impl BlockView {
    /// How deep blocks are nested inside this one.
    pub open spec fn depth(self) -> nat {
        nodes_depth(self.nodes, self.nodes.len())
    }

    /// Whether the generators can indent the block: they indent one level
    /// for each level of nesting and fewer than four levels inside a
    /// declaration, four columns a level, and count columns in a `usize`.
    pub open spec fn can_be_indented(self) -> bool {
        4 * (self.depth() + 4) <= usize::MAX
    }
}

/// Blocks are nested in a list at least as deep as in each of its nodes.
pub proof fn lemma_nodes_depth(nodes: Seq<BlockNodeView>, count: nat, i: int)
    requires
        0 <= i < count <= nodes.len(),
    ensures
        node_depth(nodes[i]) <= nodes_depth(nodes, count),
    decreases count,
{
    if i < count - 1 {
        lemma_nodes_depth(nodes, (count - 1) as nat, i);
    }
}

/// The nesting of the first nodes of a list does not depend on the nodes
/// behind them.
pub proof fn lemma_nodes_depth_prefix(nodes: Seq<BlockNodeView>, node: BlockNodeView, count: nat)
    requires
        count <= nodes.len(),
    ensures
        nodes_depth(nodes.push(node), count) == nodes_depth(nodes, count),
    decreases count,
{
    if count > 0 {
        lemma_nodes_depth_prefix(nodes, node, (count - 1) as nat);
        assert(nodes.push(node)[count - 1] == nodes[count - 1]);
    }
}

/// A list with one more node is nested as deep as the deeper of the list
/// and the node.
pub proof fn lemma_nodes_depth_push(nodes: Seq<BlockNodeView>, node: BlockNodeView)
    ensures
        nodes_depth(nodes.push(node), nodes.len() + 1) == if nodes_depth(nodes, nodes.len())
            < node_depth(node) {
            node_depth(node)
        } else {
            nodes_depth(nodes, nodes.len())
        },
{
    lemma_nodes_depth_prefix(nodes, node, nodes.len());
    assert(nodes.push(node)[nodes.len() as int] == node);
}

} // verus!
