use vstd::prelude::*;
use crate::compiler::{
    closing_tag, join_classes, render_attributes, render_comment,
    render_head, render_node, render_nodes, render_tag, self_closing,
};
use crate::parser::comment::node::CommentModel;
use crate::parser::model::{NodeModel, TagModel};
use crate::parser::RootNode;

verus! {

/// Whether `s` ends with `tail`.
pub open spec fn ends_with(s: Seq<char>, tail: Seq<char>) -> bool {
    s.len() >= tail.len() && s.subrange(s.len() - tail.len(), s.len() as int) == tail
}

/// The output is a function of the tree: two trees that are the same as plain
/// values have the same output.
pub proof fn lemma_same_tree_same_output(a: RootNode, b: RootNode)
    requires
        a@ == b@,
    ensures
        render_nodes(a@) == render_nodes(b@),
{
}

/// A tag with neither text nor children is written as its head and `/>`, and
/// nothing more; where its name does not end with `/`, the output does not end
/// with the closing tag for the name.
pub proof fn lemma_self_closing_tag(t: TagModel)
    requires
        self_closing(t),
    ensures
        render_tag(t) == render_head(t) + seq!['/', '>'],
        ends_with(render_tag(t), seq!['/', '>']),
        t.tag.len() > 0 && t.tag.last() != '/' ==> !ends_with(render_tag(t), closing_tag(t.tag)),
{
    reveal_strlit("/>");
    reveal_strlit("</");
    reveal_strlit(">");
    let out = render_tag(t);
    let head = render_head(t);
    assert("/>"@ =~= seq!['/', '>']);
    assert(out == head + seq!['/', '>']);
    assert(out.subrange(out.len() - 2, out.len() as int) =~= seq!['/', '>']);
    if t.tag.len() > 0 && t.tag.last() != '/' {
        let closing = closing_tag(t.tag);
        assert(closing.len() == t.tag.len() + 3);
        if ends_with(out, closing) {
            let tail = out.subrange(out.len() - closing.len(), out.len() as int);
            assert(tail[closing.len() - 2] == out[out.len() - 2]);
            assert(closing[closing.len() - 2] == t.tag.last());
            assert(out[out.len() - 2] == '/');
            assert(false);
        }
    }
}

/// A tag with text or children is never written in the self-closing form: its
/// output ends with the closing tag for its name.
pub proof fn lemma_tag_with_content_is_closed(t: TagModel)
    requires
        !self_closing(t),
    ensures
        ends_with(render_tag(t), closing_tag(t.tag)),
{
    let out = render_tag(t);
    let closing = closing_tag(t.tag);
    assert(out.subrange(out.len() - closing.len(), out.len() as int) =~= closing);
}

/// The output for two lists of nodes, one behind the other, is the output for
/// the first followed by the output for the second.
pub proof fn lemma_render_nodes_concat(a: Seq<NodeModel>, b: Seq<NodeModel>)
    ensures
        render_nodes(a + b) == render_nodes(a) + render_nodes(b),
    decreases b.len(),
{
    if b.len() == 0 {
        assert(a + b =~= a);
        assert(render_nodes(a) + render_nodes(b) =~= render_nodes(a));
    } else {
        lemma_render_nodes_concat(a, b.drop_last());
        assert((a + b).drop_last() =~= a + b.drop_last());
        assert((a + b).last() == b.last());
        assert(render_nodes(a + b) =~= render_nodes(a) + render_nodes(b));
    }
}

/// The output for two lists of attribute entries, one behind the other, is the
/// output for the first followed by the output for the second.
pub proof fn lemma_render_attributes_concat(a: Seq<NodeModel>, b: Seq<NodeModel>)
    ensures
        render_attributes(a + b) == render_attributes(a) + render_attributes(b),
    decreases b.len(),
{
    if b.len() == 0 {
        assert(a + b =~= a);
        assert(render_attributes(a) + render_attributes(b) =~= render_attributes(a));
    } else {
        lemma_render_attributes_concat(a, b.drop_last());
        assert((a + b).drop_last() =~= a + b.drop_last());
        assert((a + b).last() == b.last());
        assert(render_attributes(a + b) =~= render_attributes(a) + render_attributes(b));
    }
}

/// A comment that is left out gives no output wherever it stands among nodes:
/// the output is that of the nodes before it followed by that of the nodes
/// behind it, whatever the comment's text is.
pub proof fn lemma_dev_comment_is_left_out(
    before: Seq<NodeModel>,
    text: Seq<char>,
    behind: Seq<NodeModel>,
)
    ensures
        render_nodes(
            before.push(NodeModel::Comment(CommentModel { text, is_dev: true })) + behind,
        ) == render_nodes(before) + render_nodes(behind),
        render_nodes(
            before.push(NodeModel::Comment(CommentModel { text, is_dev: true })) + behind,
        ) == render_nodes(before + behind),
{
    let comment = NodeModel::Comment(CommentModel { text, is_dev: true });
    lemma_render_nodes_concat(before.push(comment), behind);
    lemma_render_nodes_concat(before, behind);
    assert(before.push(comment).drop_last() =~= before);
    assert(before.push(comment).last() == comment);
    assert(render_node(comment) =~= Seq::<char>::empty());
    assert(render_nodes(before.push(comment)) =~= render_nodes(before));
}

/// A comment that is left out gives no output in an attribute list either.
pub proof fn lemma_dev_comment_is_left_out_of_attributes(
    before: Seq<NodeModel>,
    text: Seq<char>,
    behind: Seq<NodeModel>,
)
    ensures
        render_attributes(
            before.push(NodeModel::Comment(CommentModel { text, is_dev: true })) + behind,
        ) == render_attributes(before + behind),
{
    let comment = NodeModel::Comment(CommentModel { text, is_dev: true });
    lemma_render_attributes_concat(before.push(comment), behind);
    lemma_render_attributes_concat(before, behind);
    assert(before.push(comment).drop_last() =~= before);
    assert(render_attributes(before.push(comment)) =~= render_attributes(before));
}

/// A comment that is written out stands in the output as `<!--`, its text and
/// `-->`, between the output for the nodes before it and the output for the
/// nodes behind it.
pub proof fn lemma_native_comment_in_place(
    before: Seq<NodeModel>,
    text: Seq<char>,
    behind: Seq<NodeModel>,
)
    ensures
        render_nodes(
            before.push(NodeModel::Comment(CommentModel { text, is_dev: false })) + behind,
        ) == render_nodes(before) + ("<!--"@ + text + "-->"@) + render_nodes(behind),
{
    let comment = NodeModel::Comment(CommentModel { text, is_dev: false });
    lemma_render_nodes_concat(before.push(comment), behind);
    assert(before.push(comment).drop_last() =~= before);
    assert(before.push(comment).last() == comment);
    assert(render_node(comment) == render_comment(CommentModel { text, is_dev: false }));
    assert(render_nodes(before.push(comment)) == render_nodes(before) + render_node(comment));
}

/// Class names are written in their order: one more name at the end of a list
/// that is not empty adds a space and the name at the end of what is written.
pub proof fn lemma_classes_in_order(names: Seq<Seq<char>>, name: Seq<char>)
    requires
        names.len() > 0,
    ensures
        join_classes(names.push(name)) == join_classes(names) + " "@ + name,
{
    assert(names.push(name).drop_last() =~= names);
}

} // verus!
