use clang::documentation::{
    self, BlockCommand, CommentChild, HtmlStartTag, InlineCommand, InlineCommandStyle, ParamCommand,
    ParameterDirection, RawComment, TParamCommand,
};

fn node(kind: i32) -> RawComment {
    RawComment {
        kind,
        text: String::new(),
        name: String::new(),
        arguments: vec![],
        attributes: vec![],
        self_closing: false,
        render_kind: 0,
        param_index: None,
        direction: None,
        position: None,
        children: vec![],
    }
}

fn text(t: &str) -> RawComment {
    let mut n = node(1);
    n.text = t.to_string();
    n
}

#[test]
fn simple_children() {
    assert_eq!(documentation::child_from_raw(&text("hi")), CommentChild::Text("hi".to_string()));
    let mut end = node(4);
    end.name = "b".to_string();
    assert_eq!(documentation::child_from_raw(&end), CommentChild::HtmlEndTag("b".to_string()));
    let mut line = node(11);
    line.text = " verbatim".to_string();
    assert_eq!(
        documentation::child_from_raw(&line),
        CommentChild::VerbatimLineCommand(" verbatim".to_string())
    );
}

#[test]
fn commands_and_tags() {
    let mut inline = node(2);
    inline.name = "c".to_string();
    inline.arguments = vec!["x".to_string()];
    inline.render_kind = 2;
    assert_eq!(
        documentation::child_from_raw(&inline),
        CommentChild::InlineCommand(InlineCommand {
            command: "c".to_string(),
            arguments: vec!["x".to_string()],
            style: Some(InlineCommandStyle::Monospace),
        })
    );
    inline.render_kind = 0;
    assert!(matches!(
        documentation::child_from_raw(&inline),
        CommentChild::InlineCommand(InlineCommand { style: None, .. })
    ));
    let mut tag = node(3);
    tag.name = "a".to_string();
    tag.attributes = vec![("href".to_string(), "x".to_string())];
    tag.self_closing = true;
    assert_eq!(
        documentation::child_from_raw(&tag),
        CommentChild::HtmlStartTag(HtmlStartTag {
            name: "a".to_string(),
            attributes: vec![("href".to_string(), "x".to_string())],
            closing: true,
        })
    );
}

#[test]
fn nested_children() {
    let mut paragraph = node(5);
    paragraph.children = vec![text("a"), text("b")];
    let mut block = node(6);
    block.name = "brief".to_string();
    block.children = vec![paragraph];
    let expected = CommentChild::BlockCommand(BlockCommand {
        command: "brief".to_string(),
        arguments: vec![],
        children: vec![CommentChild::Paragraph(vec![
            CommentChild::Text("a".to_string()),
            CommentChild::Text("b".to_string()),
        ])],
    });
    assert_eq!(documentation::child_from_raw(&block), expected);
    assert_eq!(expected.clone(), expected);
    let mut verbatim = node(9);
    verbatim.children = vec![node(10), node(10)];
    verbatim.children[0].text = "one".to_string();
    verbatim.children[1].text = "two".to_string();
    assert_eq!(
        documentation::child_from_raw(&verbatim),
        CommentChild::VerbatimCommand(vec!["one".to_string(), "two".to_string()])
    );
}

#[test]
fn parameter_commands() {
    let mut param = node(7);
    param.name = "x".to_string();
    param.param_index = Some(1);
    param.direction = Some(2);
    param.children = vec![text("the x")];
    assert_eq!(
        documentation::child_from_raw(&param),
        CommentChild::ParamCommand(ParamCommand {
            index: Some(1),
            parameter: "x".to_string(),
            direction: Some(ParameterDirection::InOut),
            children: vec![CommentChild::Text("the x".to_string())],
        })
    );
    param.param_index = None;
    param.direction = None;
    assert!(matches!(
        documentation::child_from_raw(&param),
        CommentChild::ParamCommand(ParamCommand { index: None, direction: None, .. })
    ));
    let mut tparam = node(8);
    tparam.name = "T".to_string();
    tparam.position = Some((0, 3));
    assert_eq!(
        documentation::child_from_raw(&tparam),
        CommentChild::TParamCommand(TParamCommand {
            position: Some((0, 3)),
            parameter: "T".to_string(),
            children: vec![],
        })
    );
}

#[test]
fn recognised_comments() {
    assert!(documentation::is_well_formed(&text("a")));
    assert!(!documentation::is_well_formed(&node(0)));
    assert!(!documentation::is_well_formed(&node(10)));
    assert!(!documentation::is_well_formed(&node(12)));
    let mut param = node(7);
    param.direction = Some(3);
    assert!(!documentation::is_well_formed(&param));
    let mut paragraph = node(5);
    paragraph.children = vec![text("a"), node(12)];
    assert!(!documentation::is_well_formed(&paragraph));
    paragraph.children.pop();
    assert!(documentation::is_well_formed(&paragraph));
    assert_eq!(documentation::children_from_raw(&vec![text("a"), paragraph]).len(), 2);
}
