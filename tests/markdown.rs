use pager::md_render::{Context, MdEvent, MdRenderer, MdTag};

#[test]
fn context_stack_operations() {
    let mut r = MdRenderer::new();
    assert!(r.peek_context().is_none());
    assert!(r.pop_context().is_none());
    r.push_context(Context::Paragraph);
    r.push_context(Context::Heading(2));
    assert_eq!(r.peek_context(), Some(&Context::Heading(2)));
    assert_eq!(r.pop_context(), Some(Context::Heading(2)));
    assert_eq!(r.peek_context(), Some(&Context::Paragraph));
}

#[test]
fn start_tags_open_contexts() {
    let mut r = MdRenderer::new();
    let events = vec![
        MdEvent::Start(MdTag::List(Some(3))),
        MdEvent::Start(MdTag::Item),
        MdEvent::Start(MdTag::Other),
        MdEvent::Text(String::from("hello")),
        MdEvent::Code(String::from("ls")),
        MdEvent::TaskListMarker(true),
        MdEvent::SoftBreak,
        MdEvent::HardBreak,
        MdEvent::Rule,
        MdEvent::Other,
        MdEvent::End(MdTag::Item),
        MdEvent::Start(MdTag::CodeBlock),
        MdEvent::Start(MdTag::BlockQuote),
    ];
    for e in &events {
        assert!(r.process_event(e).is_ok());
    }
    assert_eq!(
        r.context_stack,
        vec![Context::List(Some(3)), Context::ListItem, Context::CodeBlock, Context::BlockQuotes]
    );
}

#[test]
fn renderers_write_nothing_yet() {
    let mut r = MdRenderer::new();
    r.process_start_tag(&MdTag::Heading(1));
    assert!(r.render_text("x").is_ok());
    assert!(r.render_code("y").is_ok());
    assert!(r.render_task_list_marker(false).is_ok());
    assert!(r.render_soft_break().is_ok());
    assert!(r.render_hard_break().is_ok());
    assert!(r.render_rule().is_ok());
    assert!(r.process_end_tag(&MdTag::Heading(1)).is_ok());
    assert_eq!(r.context_stack, vec![Context::Heading(1)]);
}
