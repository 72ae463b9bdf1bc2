use vstd::prelude::*;
use vstd::string::*;
use crate::parser::attribute::node::AttributeModel;
use crate::parser::class::node::ClassNode;
use crate::parser::comment::node::{CommentModel, CommentNode};
use crate::parser::model::{
    attribute_entry_well_formed, class_names, document_well_formed, lemma_nodes_model,
    node_model, node_well_formed, nodes_model, tag_well_formed, NodeModel, TagModel,
};
use crate::parser::tag::node::TagNode;
use crate::parser::{HsmlNode, RootNode};

pub mod laws;

verus! {

broadcast use vstd::std_specs::vec::group_vec_axioms;

/// Options of the compiler. There is none yet.
pub struct HsmlCompileOptions {}

impl Default for HsmlCompileOptions {
    /// The options that the compiler goes by unless told otherwise.
    fn default() -> (r: HsmlCompileOptions)
        ensures
            r == (HsmlCompileOptions {  }),
    {
        HsmlCompileOptions {  }
    }
}

/// The class names, each but the first after one space.
pub open spec fn join_classes(c: Seq<Seq<char>>) -> Seq<char>
    decreases c.len(),
{
    if c.len() == 0 {
        Seq::empty()
    } else if c.len() == 1 {
        c[0]
    } else {
        join_classes(c.drop_last()) + " "@ + c.last()
    }
}

/// An attribute in the output: a space, the key and, where there is a value,
/// `="`, the value as it is, and `"`.
pub open spec fn render_attribute(a: AttributeModel) -> Seq<char> {
    match a.value {
        Some(v) => " "@ + a.key + "=\""@ + v + "\""@,
        None => " "@ + a.key,
    }
}

/// What an entry of an attribute list gives in the output: an attribute itself,
/// anything else nothing.
pub open spec fn render_attribute_entry(n: NodeModel) -> Seq<char> {
    match n {
        NodeModel::Attribute(a) => render_attribute(a),
        _ => Seq::empty(),
    }
}

/// The entries of an attribute list in the output, in their order.
pub open spec fn render_attributes(a: Seq<NodeModel>) -> Seq<char>
    decreases a.len(),
{
    if a.len() == 0 {
        Seq::empty()
    } else {
        render_attributes(a.drop_last()) + render_attribute_entry(a.last())
    }
}

/// A comment in the output.
pub open spec fn render_comment(c: CommentModel) -> Seq<char> {
    "<!--"@ + c.text + "-->"@
}

/// The id of a tag in the output: ` id="`, the id and `"`.
pub open spec fn render_id(id: Option<Seq<char>>) -> Seq<char> {
    match id {
        Some(i) => " id=\""@ + i + "\""@,
        None => Seq::empty(),
    }
}

/// The classes of a tag in the output: ` class="`, the joined names and `"`.
pub open spec fn render_classes(classes: Option<Seq<Seq<char>>>) -> Seq<char> {
    match classes {
        Some(c) => " class=\""@ + join_classes(c) + "\""@,
        None => Seq::empty(),
    }
}

/// The output for a tag up to the end of its attributes: `<`, the name, the id,
/// the classes, the attributes.
pub open spec fn render_head(t: TagModel) -> Seq<char> {
    "<"@ + t.tag + render_id(t.id) + render_classes(t.classes) + render_attributes(
        match t.attributes {
            Some(a) => a,
            None => Seq::empty(),
        },
    )
}

/// Whether a tag is written in the self-closing form: it has neither text nor
/// children.
pub open spec fn self_closing(t: TagModel) -> bool {
    t.text is None && t.children is None
}

/// The closing tag for a name.
pub open spec fn closing_tag(name: Seq<char>) -> Seq<char> {
    "</"@ + name + ">"@
}

/// The output for a tag.
pub open spec fn render_tag(t: TagModel) -> Seq<char>
    decreases t,
{
    if self_closing(t) {
        render_head(t) + "/>"@
    } else {
        render_head(t) + ">"@ + (match t.text {
            Some(x) => x,
            None => Seq::empty(),
        }) + (match t.children {
            Some(c) => render_nodes(c),
            None => Seq::empty(),
        }) + closing_tag(t.tag)
    }
}

/// The output for a node at the top of a document or among the children of a
/// tag: a tag as `render_tag` says, a comment as `render_comment` says unless it
/// is one that is left out, and nothing for anything else.
pub open spec fn render_node(n: NodeModel) -> Seq<char>
    decreases n,
{
    match n {
        NodeModel::Tag(t) => render_tag(t),
        NodeModel::Comment(c) => if c.is_dev {
            Seq::empty()
        } else {
            render_comment(c)
        },
        _ => Seq::empty(),
    }
}

/// The output for a list of nodes, in their order.
pub open spec fn render_nodes(s: Seq<NodeModel>) -> Seq<char>
    decreases s,
{
    if s.len() == 0 {
        Seq::empty()
    } else {
        render_nodes(s.drop_last()) + render_node(s.last())
    }
}

/// Writes the class names, each but the first after one space.
fn append_classes(html_content: &mut String, class_nodes: &Vec<ClassNode>)
    ensures
        final(html_content)@ == old(html_content)@ + join_classes(class_names(class_nodes@)),
{
    let ghost names = class_names(class_nodes@);
    let ghost before = html_content@;
    let mut i: usize = 0;
    while i < class_nodes.len()
        invariant
            i <= class_nodes@.len(),
            names == class_names(class_nodes@),
            html_content@ == before + join_classes(names.take(i as int)),
        decreases class_nodes@.len() - i,
    {
        proof {
            assert(names.take(i + 1).drop_last() =~= names.take(i as int));
            assert(names.take(i + 1).last() == class_nodes@[i as int]@);
        }
        if i > 0 {
            html_content.append(" ");
        } else {
            proof {
                assert(join_classes(names.take(0)) =~= Seq::<char>::empty());
            }
        }
        html_content.append(class_nodes[i].name.as_str());
        i += 1;
    }
    proof {
        assert(names.take(i as int) =~= names);
    }
}

/// Writes the entries of an attribute list.
fn append_attributes(html_content: &mut String, attributes: &Vec<HsmlNode>)
    requires
        forall|i: int|
            0 <= i < attributes@.len() ==> attribute_entry_well_formed(
                #[trigger] nodes_model(attributes@)[i],
            ),
    ensures
        final(html_content)@ == old(html_content)@ + render_attributes(nodes_model(attributes@)),
{
    let ghost entries = nodes_model(attributes@);
    let ghost before = html_content@;
    proof {
        lemma_nodes_model(attributes@);
    }
    let mut i: usize = 0;
    while i < attributes.len()
        invariant
            i <= attributes@.len(),
            entries == nodes_model(attributes@),
            entries.len() == attributes@.len(),
            forall|j: int| 0 <= j < attributes@.len() ==> #[trigger] entries[j] == node_model(attributes@[j]),
            forall|j: int| 0 <= j < attributes@.len() ==> attribute_entry_well_formed(#[trigger] entries[j]),
            html_content@ == before + render_attributes(entries.take(i as int)),
        decreases attributes@.len() - i,
    {
        proof {
            assert(entries.take(i + 1).drop_last() =~= entries.take(i as int));
            assert(entries.take(i + 1).last() == entries[i as int]);
            assert(attribute_entry_well_formed(entries[i as int]));
        }
        match &attributes[i] {
            HsmlNode::Attribute(attribute) => {
                html_content.append(" ");
                html_content.append(attribute.key.as_str());
                match &attribute.value {
                    Some(value) => {
                        html_content.append("=\"");
                        html_content.append(value.as_str());
                        html_content.append("\"");
                    },
                    None => {},
                }
            },
            HsmlNode::Comment(_) => {},
            _ => {
                unreached::<()>();
            },
        }
        i += 1;
    }
    proof {
        assert(entries.take(i as int) =~= entries);
    }
}

/// Writes a list of nodes.
fn append_nodes(html_content: &mut String, nodes: &Vec<HsmlNode>, options: &HsmlCompileOptions)
    requires
        document_well_formed(nodes_model(nodes@)),
    ensures
        final(html_content)@ == old(html_content)@ + render_nodes(nodes_model(nodes@)),
    decreases nodes, 0nat,
{
    let ghost models = nodes_model(nodes@);
    let ghost before = html_content@;
    proof {
        lemma_nodes_model(nodes@);
    }
    let mut i: usize = 0;
    while i < nodes.len()
        invariant
            i <= nodes@.len(),
            models == nodes_model(nodes@),
            models.len() == nodes@.len(),
            forall|j: int| 0 <= j < nodes@.len() ==> #[trigger] models[j] == node_model(nodes@[j]),
            document_well_formed(models),
            html_content@ == before + render_nodes(models.take(i as int)),
        decreases nodes@.len() - i,
    {
        proof {
            assert(models.take(i + 1).drop_last() =~= models.take(i as int));
            assert(models.take(i + 1).last() == models[i as int]);
            assert(node_well_formed(models[i as int]));
        }
        let rendered = compile_node(&nodes[i], options);
        html_content.append(rendered.as_str());
        i += 1;
    }
    proof {
        assert(models.take(i as int) =~= models);
    }
}

/// Writes a tag: its head, then `/>` if it has neither text nor children, else
/// `>`, the text, the children and the closing tag.
pub fn compile_tag_node(tag_node: &TagNode, options: &HsmlCompileOptions) -> (html_content: String)
    requires
        tag_well_formed(tag_node@),
    ensures
        html_content@ == render_tag(tag_node@),
    decreases tag_node, 1nat,
{
    let mut html_content = String::new();

    html_content.append("<");
    html_content.append(tag_node.tag.as_str());

    match &tag_node.id {
        Some(id_node) => {
            html_content.append(" id=\"");
            html_content.append(id_node.id.as_str());
            html_content.append("\"");
        },
        None => {},
    }

    match &tag_node.classes {
        Some(class_nodes) => {
            html_content.append(" class=\"");
            append_classes(&mut html_content, class_nodes);
            html_content.append("\"");
        },
        None => {},
    }

    match &tag_node.attributes {
        Some(attributes) => {
            proof {
                lemma_nodes_model(attributes@);
            }
            append_attributes(&mut html_content, attributes);
        },
        None => {},
    }
    assert(html_content@ =~= render_head(tag_node@));

    let should_auto_close = tag_node.children.is_none() && tag_node.text.is_none();
    if should_auto_close {
        html_content.append("/>");
        return html_content;
    }
    html_content.append(">");

    match &tag_node.text {
        Some(text) => {
            html_content.append(text.text.as_str());
        },
        None => {},
    }

    match &tag_node.children {
        Some(child_nodes) => {
            append_nodes(&mut html_content, child_nodes, options);
        },
        None => {},
    }

    html_content.append("</");
    html_content.append(tag_node.tag.as_str());
    html_content.append(">");
    assert(html_content@ =~= render_tag(tag_node@));

    html_content
}

/// Writes a comment as `<!--`, its text and `-->`.
pub fn compile_comment_node(comment_node: &CommentNode, options: &HsmlCompileOptions) -> (html_content:
    String)
    ensures
        html_content@ == render_comment(comment_node@),
{
    let mut html_content = String::new();

    html_content.append("<!--");
    html_content.append(comment_node.text.as_str());
    html_content.append("-->");
    assert(html_content@ =~= render_comment(comment_node@));

    html_content
}

/// Writes a node that stands at the top of a document or among the children of a
/// tag.
pub fn compile_node(node: &HsmlNode, options: &HsmlCompileOptions) -> (html_content: String)
    requires
        node_well_formed(node@),
    ensures
        html_content@ == render_node(node@),
    decreases node, 2nat,
{
    match node {
        HsmlNode::Tag(tag_node) => compile_tag_node(tag_node, options),
        HsmlNode::Comment(comment_node) => {
            if !comment_node.is_dev {
                compile_comment_node(comment_node, options)
            } else {
                String::new()
            }
        },
        _ => unreached(),
    }
}

/// Writes a document: its nodes in their order, nothing between them.
pub fn compile(hsml_ast: &RootNode, options: &HsmlCompileOptions) -> (html_content: String)
    requires
        document_well_formed(hsml_ast@),
    ensures
        html_content@ == render_nodes(hsml_ast@),
{
    let mut html_content = String::new();
    append_nodes(&mut html_content, &hsml_ast.nodes, options);
    assert(html_content@ =~= render_nodes(hsml_ast@));
    html_content
}

} // verus!
