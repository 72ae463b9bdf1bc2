use vstd::prelude::*;
use vstd::string::*;
use crate::parser::attribute::node::AttributeModel;
use crate::parser::class::node::ClassNode;
use crate::parser::comment::node::CommentModel;
use crate::parser::tag::node::TagNode;
use crate::parser::{HsmlNode, RootNode};

verus! {

/// What a tag is, as plain values.
pub struct TagModel {
    pub tag: Seq<char>,
    pub id: Option<Seq<char>>,
    pub classes: Option<Seq<Seq<char>>>,
    pub attributes: Option<Seq<NodeModel>>,
    pub text: Option<Seq<char>>,
    pub children: Option<Seq<NodeModel>>,
}

/// What a node is, as plain values.
pub enum NodeModel {
    Root(Seq<NodeModel>),
    Tag(TagModel),
    Comment(CommentModel),
    Class(Seq<char>),
    Id(Seq<char>),
    Attribute(AttributeModel),
    Text(Seq<char>),
}

/// The names of the classes of a list, in its order.
pub open spec fn class_names(s: Seq<ClassNode>) -> Seq<Seq<char>> {
    Seq::new(s.len(), |i: int| s[i]@)
}

/// What a tag is, as plain values.
pub open spec fn tag_model(t: TagNode) -> TagModel
    decreases t,
{
    TagModel {
        tag: t.tag@,
        id: match t.id {
            Some(i) => Some(i@),
            None => None,
        },
        classes: match t.classes {
            Some(c) => Some(class_names(c@)),
            None => None,
        },
        attributes: match t.attributes {
            Some(a) => Some(nodes_model(a@)),
            None => None,
        },
        text: match t.text {
            Some(x) => Some(x@),
            None => None,
        },
        children: match t.children {
            Some(c) => Some(nodes_model(c@)),
            None => None,
        },
    }
}

/// What a node is, as plain values.
pub open spec fn node_model(n: HsmlNode) -> NodeModel
    decreases n,
{
    match n {
        HsmlNode::Root(r) => NodeModel::Root(nodes_model(r.nodes@)),
        HsmlNode::Tag(t) => NodeModel::Tag(tag_model(t)),
        HsmlNode::Comment(c) => NodeModel::Comment(c@),
        HsmlNode::Class(c) => NodeModel::Class(c@),
        HsmlNode::Id(i) => NodeModel::Id(i@),
        HsmlNode::Attribute(a) => NodeModel::Attribute(a@),
        HsmlNode::Text(t) => NodeModel::Text(t@),
    }
}

/// The models of the nodes of a list, in its order.
pub open spec fn nodes_model(s: Seq<HsmlNode>) -> Seq<NodeModel>
    decreases s,
{
    if s.len() == 0 {
        Seq::empty()
    } else {
        nodes_model(s.drop_last()).push(node_model(s.last()))
    }
}

/// The model of a list has the list's length, and holds at each place the model
/// of the node at that place.
pub proof fn lemma_nodes_model(s: Seq<HsmlNode>)
    ensures
        nodes_model(s).len() == s.len(),
        forall|i: int| 0 <= i < s.len() ==> #[trigger] nodes_model(s)[i] == node_model(s[i]),
    decreases s.len(),
{
    if s.len() > 0 {
        lemma_nodes_model(s.drop_last());
    }
}

/// The model of a list with one more node at its end.
pub proof fn lemma_nodes_model_push(s: Seq<HsmlNode>, n: HsmlNode)
    ensures
        nodes_model(s.push(n)) == nodes_model(s).push(node_model(n)),
{
    assert(s.push(n).drop_last() =~= s);
}

/// Whether an entry of an attribute list is one that such a list may hold: an
/// attribute with a key, or a comment that is left out of the output.
pub open spec fn attribute_entry_well_formed(n: NodeModel) -> bool {
    match n {
        NodeModel::Attribute(a) => a.key.len() > 0,
        NodeModel::Comment(c) => c.is_dev,
        _ => false,
    }
}

/// Whether every entry of an attribute list is one that such a list may hold.
pub open spec fn entries_well_formed(entries: Seq<NodeModel>) -> bool {
    forall|i: int| 0 <= i < entries.len() ==> attribute_entry_well_formed(#[trigger] entries[i])
}

/// Whether a tag is one that reading a document can give: it has a name, none of
/// its lists is present and empty, its attribute list holds attributes and
/// comments that are left out, and its children are well-formed tags and comments.
pub open spec fn tag_well_formed(t: TagModel) -> bool
    decreases t,
{
    &&& t.tag.len() > 0
    &&& t.classes matches Some(c) ==> c.len() > 0
    &&& t.attributes matches Some(a) ==> a.len() > 0 && entries_well_formed(a)
    &&& t.children matches Some(c) ==> c.len() > 0 && forall|i: int|
        0 <= i < c.len() ==> node_well_formed(#[trigger] c[i])
}

/// Whether a node may stand at the top of a document or among the children of a
/// tag: a well-formed tag, or a comment.
pub open spec fn node_well_formed(n: NodeModel) -> bool
    decreases n,
{
    match n {
        NodeModel::Tag(t) => tag_well_formed(t),
        NodeModel::Comment(_) => true,
        _ => false,
    }
}

/// Whether every node of a document may stand at its top.
pub open spec fn document_well_formed(nodes: Seq<NodeModel>) -> bool {
    forall|i: int| 0 <= i < nodes.len() ==> node_well_formed(#[trigger] nodes[i])
}

/// Says whether every entry of an attribute list is one that such a list may
/// hold.
fn entries_are_well_formed(entries: &Vec<HsmlNode>) -> (b: bool)
    ensures
        b == entries_well_formed(nodes_model(entries@)),
{
    proof {
        lemma_nodes_model(entries@);
    }
    let mut i: usize = 0;
    while i < entries.len()
        invariant
            i <= entries@.len(),
            nodes_model(entries@).len() == entries@.len(),
            forall|j: int|
                0 <= j < entries@.len() ==> #[trigger] nodes_model(entries@)[j] == node_model(
                    entries@[j],
                ),
            forall|j: int|
                0 <= j < i ==> attribute_entry_well_formed(#[trigger] nodes_model(entries@)[j]),
        decreases entries@.len() - i,
    {
        let good = match &entries[i] {
            HsmlNode::Attribute(a) => !a.key.as_str().is_empty(),
            HsmlNode::Comment(c) => c.is_dev,
            _ => false,
        };
        if !good {
            assert(!attribute_entry_well_formed(nodes_model(entries@)[i as int]));
            return false;
        }
        i += 1;
    }
    true
}

/// Says whether every node of a list may stand at the top of a document or among
/// the children of a tag.
fn nodes_are_well_formed(nodes: &Vec<HsmlNode>) -> (b: bool)
    ensures
        b == document_well_formed(nodes_model(nodes@)),
    decreases nodes, 0nat,
{
    proof {
        lemma_nodes_model(nodes@);
    }
    let mut i: usize = 0;
    while i < nodes.len()
        invariant
            i <= nodes@.len(),
            nodes_model(nodes@).len() == nodes@.len(),
            forall|j: int|
                0 <= j < nodes@.len() ==> #[trigger] nodes_model(nodes@)[j] == node_model(
                    nodes@[j],
                ),
            forall|j: int| 0 <= j < i ==> node_well_formed(#[trigger] nodes_model(nodes@)[j]),
        decreases nodes@.len() - i,
    {
        if !node_is_well_formed(&nodes[i]) {
            assert(!node_well_formed(nodes_model(nodes@)[i as int]));
            return false;
        }
        i += 1;
    }
    true
}

/// Says whether a tag is well-formed.
pub fn tag_is_well_formed(tag: &TagNode) -> (b: bool)
    ensures
        b == tag_well_formed(tag@),
    decreases tag, 1nat,
{
    if tag.tag.as_str().is_empty() {
        return false;
    }
    match &tag.classes {
        Some(classes) => {
            if classes.len() == 0 {
                return false;
            }
        },
        None => {},
    }
    match &tag.attributes {
        Some(attributes) => {
            proof {
                lemma_nodes_model(attributes@);
            }
            if attributes.len() == 0 || !entries_are_well_formed(attributes) {
                return false;
            }
        },
        None => {},
    }
    match &tag.children {
        Some(children) => {
            proof {
                lemma_nodes_model(children@);
            }
            if children.len() == 0 || !nodes_are_well_formed(children) {
                return false;
            }
        },
        None => {},
    }
    true
}

/// Says whether a node may stand at the top of a document or among the children
/// of a tag.
pub fn node_is_well_formed(node: &HsmlNode) -> (b: bool)
    ensures
        b == node_well_formed(node@),
    decreases node, 2nat,
{
    match node {
        HsmlNode::Tag(tag) => tag_is_well_formed(tag),
        HsmlNode::Comment(_) => true,
        _ => false,
    }
}

/// Says whether a document is well-formed: whether the compiler takes it.
pub fn is_well_formed(root: &RootNode) -> (b: bool)
    ensures
        b == document_well_formed(root@),
{
    nodes_are_well_formed(&root.nodes)
}

} // verus!
