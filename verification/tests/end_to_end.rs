use hsml::compile_content;
use hsml::compiler::{compile, compile_comment_node, compile_node, compile_tag_node, HsmlCompileOptions};
use hsml::parser::attribute::node::{attribute_nodes, AttributeNode};
use hsml::parser::class::node::{class_node, ClassNode};
use hsml::parser::class::process::process_class;
use hsml::parser::comment::node::CommentNode;
use hsml::parser::failure::{FailureKind, ParseFailure};
use hsml::parser::id::node::{id_node, IdNode};
use hsml::parser::model::{is_well_formed, node_is_well_formed, tag_is_well_formed};
use hsml::parser::parse::parse;
use hsml::parser::process_newline;
use hsml::parser::tag::node::{tag_node, TagNode};
use hsml::parser::text::node::{text_block_node, text_node, TextNode};
use hsml::parser::text::process::process_text_block;
use hsml::parser::{HsmlNode, HsmlProcessContext, RootNode};

fn bare(name: &str) -> TagNode {
    TagNode {
        tag: String::from(name),
        id: None,
        classes: None,
        attributes: None,
        text: None,
        children: None,
    }
}

fn with_text(name: &str, text: &str) -> TagNode {
    TagNode { text: Some(TextNode { text: String::from(text) }), ..bare(name) }
}

fn classes(names: &[&str]) -> Option<Vec<ClassNode>> {
    Some(names.iter().map(|n| ClassNode { name: String::from(*n) }).collect())
}

fn attribute(key: &str, value: Option<&str>) -> HsmlNode {
    HsmlNode::Attribute(AttributeNode { key: String::from(key), value: value.map(String::from) })
}

fn comment(text: &str, is_dev: bool) -> HsmlNode {
    HsmlNode::Comment(CommentNode { text: String::from(text), is_dev })
}

fn failure(input: &str, kind: FailureKind) -> ParseFailure {
    ParseFailure { input: String::from(input), kind }
}

fn parsed(source: &str) -> RootNode {
    let (rest, root) = parse(source).unwrap();
    assert_eq!(rest, "");
    root
}

fn rendered(root: &RootNode) -> String {
    compile(root, &HsmlCompileOptions::default())
}

#[test]
fn heading_with_text_end_to_end() {
    let root = parsed("h1 Hello World\n");
    assert_eq!(root, RootNode { nodes: vec![HsmlNode::Tag(with_text("h1", "Hello World"))] });
    assert_eq!(rendered(&root), "<h1>Hello World</h1>");
}

#[test]
fn image_with_attributes_end_to_end() {
    let root = parsed("img(src=\"/x.jpg\" alt=\"X\")\n");
    assert_eq!(
        root,
        RootNode {
            nodes: vec![HsmlNode::Tag(TagNode {
                attributes: Some(vec![
                    attribute("src", Some("/x.jpg")),
                    attribute("alt", Some("X")),
                ]),
                ..bare("img")
            })],
        }
    );
    assert_eq!(rendered(&root), "<img src=\"/x.jpg\" alt=\"X\"/>");
}

#[test]
fn indented_child_end_to_end() {
    let root = parsed("div\n  p Hi\n");
    assert_eq!(
        root,
        RootNode {
            nodes: vec![HsmlNode::Tag(TagNode {
                children: Some(vec![HsmlNode::Tag(with_text("p", "Hi"))]),
                ..bare("div")
            })],
        }
    );
    assert_eq!(rendered(&root), "<div><p>Hi</p></div>");
}

#[test]
fn root_dev_comment_gives_no_output() {
    let root = parsed("// note\ndiv\n");
    assert_eq!(
        root,
        RootNode { nodes: vec![comment(" note", true), HsmlNode::Tag(bare("div"))] }
    );
    assert_eq!(rendered(&root), "<div/>");
}

#[test]
fn second_id_is_a_failure() {
    assert_eq!(parse("div#a#b"), Err(failure("#b", FailureKind::DuplicateId)));
    assert_eq!(compile_content("div#a#b"), Err(failure("#b", FailureKind::DuplicateId)));
}

#[test]
fn class_shorthand_end_to_end() {
    let root = parsed(".text-red.font-bold Hi");
    assert_eq!(
        root,
        RootNode {
            nodes: vec![HsmlNode::Tag(TagNode {
                classes: classes(&["text-red", "font-bold"]),
                ..with_text("div", "Hi")
            })],
        }
    );
    assert_eq!(rendered(&root), "<div class=\"text-red font-bold\">Hi</div>");
}

#[test]
fn classes_keep_source_order() {
    let root = parsed(".a.b.c Text");
    assert_eq!(
        root,
        RootNode {
            nodes: vec![HsmlNode::Tag(TagNode {
                classes: classes(&["a", "b", "c"]),
                ..with_text("div", "Text")
            })],
        }
    );
    assert_eq!(rendered(&root), "<div class=\"a b c\">Text</div>");
}

#[test]
fn compiling_twice_gives_the_same_output() {
    let root = parsed("div#main.a.b(x=\"1\" y)\n  //! kept\n  // dropped\n  p Hi\n");
    let first = rendered(&root);
    let second = rendered(&root);
    assert_eq!(first, second);
    assert_eq!(
        first,
        "<div id=\"main\" class=\"a b\" x=\"1\" y><!-- kept--><p>Hi</p></div>"
    );
}

#[test]
fn tag_without_text_and_children_closes_itself() {
    let tag = TagNode {
        id: Some(IdNode { id: String::from("x") }),
        classes: classes(&["a"]),
        attributes: Some(vec![attribute("hidden", None)]),
        ..bare("section")
    };
    let html = compile_tag_node(&tag, &HsmlCompileOptions::default());
    assert_eq!(html, "<section id=\"x\" class=\"a\" hidden/>");
    assert!(html.ends_with("/>"));
    assert!(!html.contains("</section>"));
}

#[test]
fn tag_with_empty_text_does_not_close_itself() {
    let html = compile_tag_node(&with_text("p", ""), &HsmlCompileOptions::default());
    assert_eq!(html, "<p></p>");
}

#[test]
fn dev_comments_are_left_out_everywhere() {
    let root = RootNode {
        nodes: vec![
            comment("HIDDEN-ROOT", true),
            HsmlNode::Tag(TagNode {
                attributes: Some(vec![comment("HIDDEN-ATTR", true), attribute("a", Some("1"))]),
                children: Some(vec![comment("HIDDEN-CHILD", true), HsmlNode::Tag(bare("p"))]),
                ..bare("div")
            }),
        ],
    };
    let html = rendered(&root);
    assert_eq!(html, "<div a=\"1\"><p/></div>");
    assert!(!html.contains("HIDDEN"));
}

#[test]
fn native_comments_are_written_in_place() {
    let root = RootNode {
        nodes: vec![
            HsmlNode::Tag(bare("a")),
            comment(" between ", false),
            HsmlNode::Tag(TagNode {
                children: Some(vec![comment("inner", false)]),
                ..bare("b")
            }),
        ],
    };
    assert_eq!(rendered(&root), "<a/><!-- between --><b><!--inner--></b>");
    let options = HsmlCompileOptions::default();
    assert_eq!(
        compile_comment_node(&CommentNode { text: String::from("x"), is_dev: false }, &options),
        "<!--x-->"
    );
    assert_eq!(compile_node(&comment("x", true), &options), "");
    assert_eq!(compile_node(&comment("x", false), &options), "<!--x-->");
}

#[test]
fn other_length_at_same_depth_is_inconsistent() {
    let source = "div\n  p\nsection\n   span\n";
    assert_eq!(
        parse(source),
        Err(failure("\n   span\n", FailureKind::InconsistentIndentation))
    );
}

#[test]
fn doubled_unit_below_a_root_tag_is_inconsistent() {
    let source = "a\n  b\nc\n    d\n";
    assert_eq!(parse(source), Err(failure("\n    d\n", FailureKind::InconsistentIndentation)));
}

#[test]
fn tabs_after_a_unit_of_spaces_are_inconsistent() {
    let source = "a\n  b\nc\n\t\td\n";
    assert_eq!(parse(source), Err(failure("\n\t\td\n", FailureKind::InconsistentIndentation)));
}

#[test]
fn mixed_tabs_and_spaces_are_inconsistent() {
    assert_eq!(
        parse("a\n \tb\n"),
        Err(failure("\n \tb\n", FailureKind::InconsistentIndentation))
    );
}

#[test]
fn tabs_can_be_the_unit() {
    let root = parsed("ul\n\tli One\n\tli\n\t\tspan Two\n");
    assert_eq!(rendered(&root), "<ul><li>One</li><li><span>Two</span></li></ul>");
}

#[test]
fn dedent_returns_to_the_enclosing_tag() {
    let root = parsed("a\n  b\n    c\n  d\ne\n");
    assert_eq!(rendered(&root), "<a><b><c/></b><d/></a><e/>");
}

#[test]
fn windows_line_endings_are_line_endings() {
    let root = parsed("div\r\n  p Hi\r\n  // note\r\n  span\r\n");
    assert_eq!(
        root,
        RootNode {
            nodes: vec![HsmlNode::Tag(TagNode {
                children: Some(vec![
                    HsmlNode::Tag(with_text("p", "Hi")),
                    comment(" note", true),
                    HsmlNode::Tag(bare("span")),
                ]),
                ..bare("div")
            })],
        }
    );
    assert_eq!(process_newline("\r\nx"), Ok(("x", "\r\n")));
    assert_eq!(process_newline("\nx"), Ok(("x", "\n")));
    assert_eq!(process_newline("\rx"), Err(failure("\rx", FailureKind::UnexpectedToken)));
}

#[test]
fn each_failure_kind_has_an_input() {
    assert_eq!(parse("42"), Err(failure("42", FailureKind::MalformedTagName)));
    assert_eq!(parse("p\n  -x\n"), Err(failure("-x\n", FailureKind::MalformedTagName)));
    assert_eq!(parse("a#x#y z"), Err(failure("#y z", FailureKind::DuplicateId)));
    assert_eq!(
        parse("a(b=\"c d\n"),
        Err(failure("\"c d\n", FailureKind::UnterminatedQuotedValue))
    );
    assert_eq!(
        parse("a.b-[c d\n"),
        Err(failure("[c d\n", FailureKind::UnterminatedClassBracket))
    );
    assert_eq!(parse("a(b"), Err(failure("", FailureKind::UnexpectedEndOfInput)));
    assert_eq!(parse("a(b="), Err(failure("", FailureKind::UnexpectedEndOfInput)));
    assert_eq!(parse("a\n  "), Err(failure("", FailureKind::UnexpectedEndOfInput)));
    assert_eq!(parse("a# b"), Err(failure(" b", FailureKind::MalformedId)));
    assert_eq!(parse("a(1b)"), Err(failure("1b)", FailureKind::MalformedAttribute)));
    assert_eq!(parse("a(b=c)"), Err(failure("c)", FailureKind::MalformedAttribute)));
    assert_eq!(process_class("x.y"), Err(failure("x.y", FailureKind::UnexpectedToken)));
    assert_eq!(
        attribute_nodes("(//! kept\n)", &mut HsmlProcessContext::default()),
        Err(failure("! kept\n)", FailureKind::UnexpectedToken))
    );
}

#[test]
fn line_of_blank_space_below_a_tag_is_no_child() {
    assert_eq!(parse("a\n  \nb\n"), Err(failure("\nb\n", FailureKind::MalformedTagName)));
}

#[test]
fn a_failing_document_gives_no_tree() {
    assert!(parse("div\n  p Hi\n  span#a#b\n").is_err());
    assert!(compile_content("div\n  p Hi\n  span#a#b\n").is_err());
}

#[test]
fn quotes_after_a_backslash_do_not_close_a_value() {
    let root = parsed("a(b=\"c\\\"d\" e='f\\'g \"h\"')\n");
    assert_eq!(
        root,
        RootNode {
            nodes: vec![HsmlNode::Tag(TagNode {
                attributes: Some(vec![
                    attribute("b", Some("c\\\"d")),
                    attribute("e", Some("f\\'g \"h\"")),
                ]),
                ..bare("a")
            })],
        }
    );
}

#[test]
fn brackets_in_class_names_hide_what_ends_a_class() {
    assert_eq!(process_class(".a-[b.c #d (e]f.g"), Ok((".g", "a-[b.c #d (e]f")));
    assert_eq!(process_class(".a-[b\\]c]d e"), Ok((" e", "a-[b\\]c]d")));
    assert_eq!(process_class(".a"), Ok(("", "a")));
    assert_eq!(class_node(".a.b"), Ok((".b", ClassNode { name: String::from("a") })));
}

#[test]
fn parentheses_of_a_key_are_balanced() {
    let root = parsed("button((click)=\"go()\" [(ngModel)]=\"n\" disabled)\n");
    assert_eq!(
        root,
        RootNode {
            nodes: vec![HsmlNode::Tag(TagNode {
                attributes: Some(vec![
                    attribute("(click)", Some("go()")),
                    attribute("[(ngModel)]", Some("n")),
                    attribute("disabled", None),
                ]),
                ..bare("button")
            })],
        }
    );
    assert_eq!(rendered(&root), "<button (click)=\"go()\" [(ngModel)]=\"n\" disabled/>");
}

#[test]
fn empty_attribute_list_is_absent() {
    let root = parsed("p()\n");
    assert_eq!(root, RootNode { nodes: vec![HsmlNode::Tag(bare("p"))] });
    assert_eq!(rendered(&root), "<p/>");
}

#[test]
fn later_attribute_list_takes_the_place_of_an_earlier() {
    let root = parsed("p(a)(b)\n");
    assert_eq!(
        root,
        RootNode {
            nodes: vec![HsmlNode::Tag(TagNode {
                attributes: Some(vec![attribute("b", None)]),
                ..bare("p")
            })],
        }
    );
}

#[test]
fn keys_may_hold_letters_of_any_script() {
    let root = parsed("a(\u{e9}t\u{e9}=\"1\" \u{3b1}\u{3b2})\n");
    assert_eq!(
        root,
        RootNode {
            nodes: vec![HsmlNode::Tag(TagNode {
                attributes: Some(vec![
                    attribute("\u{e9}t\u{e9}", Some("1")),
                    attribute("\u{3b1}\u{3b2}", None),
                ]),
                ..bare("a")
            })],
        }
    );
    assert_eq!(
        parse("a(\u{2167}x)"),
        Err(failure("\u{2167}x)", FailureKind::MalformedAttribute))
    );
    assert_eq!(parse("a(b\u{2192}c)"), Err(failure("\u{2192}c)", FailureKind::MalformedAttribute)));
}

#[test]
fn text_beyond_ascii_is_kept() {
    let root = parsed("p h\u{e9}llo \u{2713} \u{1f600}\nspan\n");
    assert_eq!(
        root,
        RootNode {
            nodes: vec![
                HsmlNode::Tag(with_text("p", "h\u{e9}llo \u{2713} \u{1f600}")),
                HsmlNode::Tag(bare("span")),
            ],
        }
    );
    assert_eq!(
        text_node(" \u{e9}\u{2713}\nrest"),
        Ok(("\nrest", TextNode { text: String::from("\u{e9}\u{2713}") }))
    );
}

#[test]
fn blank_space_between_root_nodes_counts_for_nothing() {
    let root = parsed("\n\n  \u{a0}\t a\n\n\nb\n\n");
    assert_eq!(
        root,
        RootNode { nodes: vec![HsmlNode::Tag(bare("a")), HsmlNode::Tag(bare("b"))] }
    );
    assert_eq!(parsed(""), RootNode { nodes: vec![] });
    assert_eq!(parsed(" \n\t"), RootNode { nodes: vec![] });
}

#[test]
fn text_block_below_a_tag() {
    let root = parsed("div\n  p.\n    first line\n      indented more\n\n    last line\n  span\n");
    assert_eq!(
        root,
        RootNode {
            nodes: vec![HsmlNode::Tag(TagNode {
                children: Some(vec![
                    HsmlNode::Tag(with_text("p", "first line\n  indented more\n\nlast line")),
                    HsmlNode::Tag(bare("span")),
                ]),
                ..bare("div")
            })],
        }
    );
    assert_eq!(
        rendered(&root),
        "<div><p>first line\n  indented more\n\nlast line</p><span/></div>"
    );
}

#[test]
fn text_block_before_any_unit_goes_by_two_spaces() {
    let root = parsed("pre.\n  a\n   b\nend\n");
    assert_eq!(
        root,
        RootNode {
            nodes: vec![HsmlNode::Tag(with_text("pre", "a\n b")), HsmlNode::Tag(bare("end"))],
        }
    );
}

#[test]
fn tag_node_keeps_the_unit_in_the_context() {
    let mut context = HsmlProcessContext::default();
    let (rest, tag) = tag_node("ul#list\n    li A\nnext", &mut context).unwrap();
    assert_eq!(rest, "\nnext");
    assert_eq!(
        tag,
        TagNode {
            id: Some(IdNode { id: String::from("list") }),
            children: Some(vec![HsmlNode::Tag(with_text("li", "A"))]),
            ..bare("ul")
        }
    );
    assert_eq!(context.indent_level, 0);
    assert_eq!(context.indent_string, Some(String::from("    ")));

    let (rest, tag) = tag_node("li B\n    li C\n", &mut context).unwrap();
    assert_eq!(rest, "\n");
    assert_eq!(
        tag,
        TagNode { children: Some(vec![HsmlNode::Tag(with_text("li", "C"))]), ..with_text("li", "B") }
    );
}

#[test]
fn tag_node_leaves_the_context_after_a_failure() {
    let mut context = HsmlProcessContext::default();
    assert_eq!(
        tag_node("a\n      b#x#y", &mut context),
        Err(failure("#y", FailureKind::DuplicateId))
    );
    assert_eq!(context.indent_level, 0);
    assert_eq!(context.indent_string, None);
}

#[test]
fn first_indentation_below_a_deep_tag_is_the_unit() {
    let mut context = HsmlProcessContext { indent_level: 2, indent_string: None };
    let (rest, tag) = tag_node("a\n      b", &mut context).unwrap();
    assert_eq!(rest, "\n      b");
    assert_eq!(tag, bare("a"));
    assert_eq!(context.indent_level, 2);
    assert_eq!(context.indent_string, Some(String::from("      ")));
}

#[test]
fn tag_node_at_depth_leaves_shallower_lines() {
    let mut context = HsmlProcessContext { indent_level: 1, indent_string: Some(String::from("  ")) };
    let (rest, tag) = tag_node("a\n    b\n  c\n", &mut context).unwrap();
    assert_eq!(rest, "\n  c\n");
    assert_eq!(tag, TagNode { children: Some(vec![HsmlNode::Tag(bare("b"))]), ..bare("a") });
}

#[test]
fn id_is_read_and_written() {
    assert_eq!(id_node("#top rest"), Ok((" rest", IdNode { id: String::from("top") })));
    assert_eq!(compile_content("#top.a Hi"), Ok(String::from("<div id=\"top\" class=\"a\">Hi</div>")));
    assert_eq!(compile_content("nav.a#top"), Ok(String::from("<nav id=\"top\" class=\"a\"/>")));
}

#[test]
fn compile_content_reads_and_writes() {
    assert_eq!(compile_content(""), Ok(String::new()));
    assert_eq!(
        compile_content("//! top\nul\n  li One\n  li Two\n"),
        Ok(String::from("<!-- top--><ul><li>One</li><li>Two</li></ul>"))
    );
}

#[test]
fn what_parse_gives_is_well_formed() {
    let root = parsed("div#a.b(c=\"d\" // e\n)\n  //! f\n  p.\n    g\n  h i\n");
    assert!(is_well_formed(&root));
    assert!(is_well_formed(&RootNode { nodes: vec![] }));
}

#[test]
fn ill_formed_trees_are_told_apart() {
    assert!(tag_is_well_formed(&bare("p")));
    assert!(!tag_is_well_formed(&bare("")));
    assert!(!tag_is_well_formed(&TagNode { classes: Some(vec![]), ..bare("p") }));
    assert!(!tag_is_well_formed(&TagNode { attributes: Some(vec![]), ..bare("p") }));
    assert!(!tag_is_well_formed(&TagNode { children: Some(vec![]), ..bare("p") }));
    assert!(tag_is_well_formed(&TagNode {
        attributes: Some(vec![comment("x", true), attribute("a", None)]),
        ..bare("p")
    }));
    assert!(!tag_is_well_formed(&TagNode {
        attributes: Some(vec![comment("x", false)]),
        ..bare("p")
    }));
    assert!(!tag_is_well_formed(&TagNode {
        attributes: Some(vec![attribute("", None)]),
        ..bare("p")
    }));
    assert!(!tag_is_well_formed(&TagNode {
        attributes: Some(vec![HsmlNode::Tag(bare("a"))]),
        ..bare("p")
    }));
    assert!(!tag_is_well_formed(&TagNode {
        children: Some(vec![HsmlNode::Tag(bare("a")), attribute("a", None)]),
        ..bare("p")
    }));
    assert!(!tag_is_well_formed(&TagNode {
        children: Some(vec![HsmlNode::Tag(TagNode {
            children: Some(vec![HsmlNode::Text(TextNode { text: String::from("t") })]),
            ..bare("a")
        })]),
        ..bare("p")
    }));
    assert!(node_is_well_formed(&comment("x", false)));
    assert!(node_is_well_formed(&comment("x", true)));
    assert!(!node_is_well_formed(&HsmlNode::Class(ClassNode { name: String::from("a") })));
    assert!(!node_is_well_formed(&HsmlNode::Root(RootNode { nodes: vec![] })));
    assert!(!is_well_formed(&RootNode {
        nodes: vec![HsmlNode::Tag(bare("a")), HsmlNode::Id(IdNode { id: String::from("x") })],
    }));
}

#[test]
fn text_block_without_lines_is_empty() {
    let root = parsed("p.\nspan\n");
    assert_eq!(
        root,
        RootNode { nodes: vec![HsmlNode::Tag(with_text("p", "")), HsmlNode::Tag(bare("span"))] }
    );
    assert_eq!(rendered(&root), "<p></p><span/>");
    let mut context = HsmlProcessContext::default();
    assert_eq!(process_text_block(".\nspan", &mut context), Ok(("\nspan", "")));
    assert_eq!(process_text_block(".\r\n", &mut context), Ok(("\r\n", "")));
    assert_eq!(
        process_text_block(". x", &mut context),
        Err(failure(". x", FailureKind::UnexpectedToken))
    );
}

#[test]
fn blank_lines_belong_to_a_text_block() {
    let mut context =
        HsmlProcessContext { indent_level: 1, indent_string: Some(String::from("\t")) };
    assert_eq!(
        text_block_node(".\n\n\t\ta\n \n\t\t\tb\n\tc", &mut context),
        Ok(("\n\tc", TextNode { text: String::from("\na\n \n\tb") }))
    );
    assert_eq!(
        text_block_node(".\r\n\t\ta\r\n\r\n\t\tb", &mut context),
        Ok(("", TextNode { text: String::from("a\r\n\r\nb") }))
    );
    assert_eq!(context.indent_level, 1);
    assert_eq!(context.indent_string, Some(String::from("\t")));
}
