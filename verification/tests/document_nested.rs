use hsml::parser::attribute::node::AttributeNode;
use hsml::parser::class::node::ClassNode;
use hsml::parser::parse::parse;
use hsml::parser::tag::node::TagNode;
use hsml::parser::text::node::TextNode;
use hsml::parser::{HsmlNode, RootNode};

#[test]
fn mod_it_should_parse() {
    let input = "h1.text-red Vite CJS Faker Demo
  .card
    .card__image
      img(:src=\"natureImageUrl\" :alt=\"'Background image for ' + fullName\")
    .card__profile
      img(:src=\"avatarUrl\" :alt=\"'Avatar image of ' + fullName\")
    .card__body {{ fullName }}
";

    let (input, root_node) = parse(input).unwrap();

    assert_eq!(
        root_node,
        RootNode {
            nodes: vec![HsmlNode::Tag(TagNode {
                tag: String::from("h1"),
                id: None,
                classes: Some(vec![ClassNode {
                    name: String::from("text-red"),
                }]),
                attributes: None,
                text: Some(TextNode {
                    text: String::from("Vite CJS Faker Demo"),
                }),
                children: Some(vec![HsmlNode::Tag(TagNode {
                    tag: String::from("div"),
                    id: None,
                    classes: Some(vec![ClassNode {
                        name: String::from("card"),
                    }]),
                    attributes: None,
                    text: None,
                    children: Some(vec![
                        HsmlNode::Tag(TagNode {
                            tag: String::from("div"),
                            id: None,
                            classes: Some(vec![ClassNode {
                                name: String::from("card__image"),
                            }]),
                            attributes: None,
                            text: None,
                            children: Some(vec![HsmlNode::Tag(TagNode {
                                tag: String::from("img"),
                                id: None,
                                classes: None,
                                attributes: Some(vec![
                                    HsmlNode::Attribute(AttributeNode {
                                        key: String::from(":src"),
                                        value: Some(String::from("natureImageUrl")),
                                    }),
                                    HsmlNode::Attribute(AttributeNode {
                                        key: String::from(":alt"),
                                        value: Some(String::from(
                                            "'Background image for ' + fullName"
                                        )),
                                    }),
                                ]),
                                text: None,
                                children: None,
                            })]),
                        }),
                        HsmlNode::Tag(TagNode {
                            tag: String::from("div"),
                            id: None,
                            classes: Some(vec![ClassNode {
                                name: String::from("card__profile"),
                            }]),
                            attributes: None,
                            text: None,
                            children: Some(vec![HsmlNode::Tag(TagNode {
                                tag: String::from("img"),
                                id: None,
                                classes: None,
                                attributes: Some(vec![
                                    HsmlNode::Attribute(AttributeNode {
                                        key: String::from(":src"),
                                        value: Some(String::from("avatarUrl")),
                                    }),
                                    HsmlNode::Attribute(AttributeNode {
                                        key: String::from(":alt"),
                                        value: Some(String::from(
                                            "'Avatar image of ' + fullName"
                                        )),
                                    }),
                                ]),
                                text: None,
                                children: None,
                            })]),
                        }),
                        HsmlNode::Tag(TagNode {
                            tag: String::from("div"),
                            id: None,
                            classes: Some(vec![ClassNode {
                                name: String::from("card__body"),
                            }]),
                            attributes: None,
                            text: Some(TextNode {
                                text: String::from("{{ fullName }}"),
                            }),
                            children: None,
                        })
                    ]),
                })]),
            })],
        }
    );

    assert_eq!(input, "");
}
