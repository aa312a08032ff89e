use vstd::prelude::*;

verus! {

/// The error type of the writer a renderer reports to.
#[verifier::external_type_specification]
#[verifier::external_body]
pub struct ExIoError(std::io::Error);

/// A block of markdown the renderer is inside of.
#[derive(Clone, Copy, Debug, PartialEq, Eq, Structural)]
pub enum Context {
    CodeBlock,
    Paragraph,
    List(Option<u64>),
    ListItem,
    Heading(u8),
    BlockQuotes,
}

/// The start or end tag of a markdown element, as far as the renderer
/// tells them apart.
#[derive(Clone, Copy, Debug, PartialEq, Eq, Structural)]
pub enum MdTag {
    Paragraph,
    CodeBlock,
    Heading(u8),
    BlockQuote,
    /// A list, with the number of its first item when it is ordered.
    List(Option<u64>),
    Item,
    /// Any element that opens no context.
    Other,
}

/// One event of a parsed markdown document.
pub enum MdEvent {
    Start(MdTag),
    End(MdTag),
    Text(String),
    Code(String),
    TaskListMarker(bool),
    SoftBreak,
    HardBreak,
    Rule,
    /// Math, HTML and footnote references, which are not rendered.
    Other,
}

/// The context an element opens, if any.
pub open spec fn context_of(tag: MdTag) -> Option<Context> {
    match tag {
        MdTag::Paragraph => Some(Context::Paragraph),
        MdTag::CodeBlock => Some(Context::CodeBlock),
        MdTag::Heading(level) => Some(Context::Heading(level)),
        MdTag::BlockQuote => Some(Context::BlockQuotes),
        MdTag::List(start) => Some(Context::List(start)),
        MdTag::Item => Some(Context::ListItem),
        MdTag::Other => None,
    }
}

/// The contexts after an event: a start tag pushes the context it opens.
pub open spec fn contexts_after(stack: Seq<Context>, event: MdEvent) -> Seq<Context> {
    match event {
        MdEvent::Start(tag) => match context_of(tag) {
            Some(c) => stack.push(c),
            None => stack,
        },
        _ => stack,
    }
}

/// Renders markdown events to the terminal, tracking the blocks it is inside of.
pub struct MdRenderer {
    pub context_stack: Vec<Context>,
}

impl MdRenderer {
    pub fn new() -> (r: MdRenderer)
        ensures
            r.context_stack@ == Seq::<Context>::empty(),
    {
        MdRenderer { context_stack: Vec::new() }
    }

    pub fn push_context(&mut self, context: Context)
        ensures
            final(self).context_stack@ == old(self).context_stack@.push(context),
    {
        self.context_stack.push(context);
    }

    pub fn pop_context(&mut self) -> (r: Option<Context>)
        ensures
            old(self).context_stack.len() == 0 ==> r is None && final(self).context_stack@
                == old(self).context_stack@,
            old(self).context_stack.len() > 0 ==> r == Some(old(self).context_stack@.last())
                && final(self).context_stack@ == old(self).context_stack@.drop_last(),
    {
        self.context_stack.pop()
    }

    pub fn peek_context(&self) -> (r: Option<&Context>)
        ensures
            self.context_stack.len() == 0 ==> r is None,
            self.context_stack.len() > 0 ==> r == Some(&self.context_stack@.last()),
    {
        let n = self.context_stack.len();
        if n == 0 {
            None
        } else {
            Some(&self.context_stack[n - 1])
        }
    }

    /// Opens the context of a start tag.
    pub fn process_start_tag(&mut self, tag: &MdTag)
        ensures
            final(self).context_stack@ == contexts_after(
                old(self).context_stack@,
                MdEvent::Start(*tag),
            ),
    {
        let context = match tag {
            MdTag::Paragraph => Some(Context::Paragraph),
            MdTag::CodeBlock => Some(Context::CodeBlock),
            MdTag::Heading(level) => Some(Context::Heading(*level)),
            MdTag::BlockQuote => Some(Context::BlockQuotes),
            MdTag::List(start) => Some(Context::List(*start)),
            MdTag::Item => Some(Context::ListItem),
            MdTag::Other => None,
        };
        if let Some(context) = context {
            self.push_context(context);
        }
    }

    /// An end tag leaves the contexts as they are.
    pub fn process_end_tag(&mut self, _tag: &MdTag) -> (r: Result<(), std::io::Error>)
        ensures
            r is Ok,
            final(self).context_stack@ == old(self).context_stack@,
    {
        Ok(())
    }

    /// Text is not written out yet.
    pub fn render_text(&mut self, _text: &str) -> (r: Result<(), std::io::Error>)
        ensures
            r is Ok,
            final(self).context_stack@ == old(self).context_stack@,
    {
        Ok(())
    }

    /// Inline code is not written out yet.
    pub fn render_code(&mut self, _code: &str) -> (r: Result<(), std::io::Error>)
        ensures
            r is Ok,
            final(self).context_stack@ == old(self).context_stack@,
    {
        Ok(())
    }

    /// Task list markers are not written out yet.
    pub fn render_task_list_marker(&mut self, _is_checked: bool) -> (r: Result<(), std::io::Error>)
        ensures
            r is Ok,
            final(self).context_stack@ == old(self).context_stack@,
    {
        Ok(())
    }

    /// Soft breaks are not written out yet.
    pub fn render_soft_break(&mut self) -> (r: Result<(), std::io::Error>)
        ensures
            r is Ok,
            final(self).context_stack@ == old(self).context_stack@,
    {
        Ok(())
    }

    /// Hard breaks are not written out yet.
    pub fn render_hard_break(&mut self) -> (r: Result<(), std::io::Error>)
        ensures
            r is Ok,
            final(self).context_stack@ == old(self).context_stack@,
    {
        Ok(())
    }

    /// Rules are not written out yet.
    pub fn render_rule(&mut self) -> (r: Result<(), std::io::Error>)
        ensures
            r is Ok,
            final(self).context_stack@ == old(self).context_stack@,
    {
        Ok(())
    }

    /// Handles one event of a document.
    pub fn process_event(&mut self, event: &MdEvent) -> (r: Result<(), std::io::Error>)
        ensures
            r is Ok,
            final(self).context_stack@ == contexts_after(old(self).context_stack@, *event),
    {
        match event {
            MdEvent::Start(tag) => {
                self.process_start_tag(tag);
                Ok(())
            },
            MdEvent::End(tag) => self.process_end_tag(tag),
            MdEvent::Text(text) => self.render_text(text.as_str()),
            MdEvent::Code(code) => self.render_code(code.as_str()),
            MdEvent::TaskListMarker(is_checked) => self.render_task_list_marker(*is_checked),
            MdEvent::SoftBreak => self.render_soft_break(),
            MdEvent::HardBreak => self.render_hard_break(),
            MdEvent::Rule => self.render_rule(),
            MdEvent::Other => Ok(()),
        }
    }
}

} // verus!
