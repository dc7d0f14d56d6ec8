//! The stream of visible text that a turn of generation yields.
//!
//! A stream is fed what the engine samples, one token at a time. It drops
//! the tokens of a header that the engine writes itself, hands on the text
//! of the body, and closes at the first stop, at the end of the sequence or
//! on an engine failure. While it lives it owns its context: nothing else
//! can start a turn or touch the history until the stream gives the context
//! back.

use crate::llm::context::{token_text, LlamaModelContext, LlamaModelFullPromptContext};
use crate::llm::sequence::SequenceView;
use crate::llm::{PromptTemplate, TemplateView};
use vstd::prelude::*;
use vstd::string::StringExecFns;

verus! {

/// Where a stream stands.
#[derive(Debug, Clone, Copy, PartialEq, Eq, Structural)]
pub enum StreamState {
    /// The engine is still writing the header of its turn.
    InHeader,
    /// The engine is writing the message.
    InBody,
    /// The turn is over; nothing more is taken.
    Closed,
}

/// What one step of a stream gives its reader.
#[derive(Debug, Clone, PartialEq, Eq)]
pub enum StreamStep {
    /// A token of the header: nothing to show.
    Discarded,
    /// A fragment of the message.
    Visible(String),
    /// The turn is over.
    Finished,
    /// The engine failed; the message is the last fragment of the turn.
    Failed(String),
}

/// The mathematical value of a [`StreamStep`].
pub enum StepView {
    Discarded,
    Visible(Seq<char>),
    Finished,
    Failed(Seq<char>),
}

impl View for StreamStep {
    type V = StepView;

    open spec fn view(&self) -> StepView {
        match self {
            StreamStep::Discarded => StepView::Discarded,
            StreamStep::Visible(text) => StepView::Visible(text@),
            StreamStep::Finished => StepView::Finished,
            StreamStep::Failed(message) => StepView::Failed(message@),
        }
    }
}

/// The mathematical value of a stream: the text gathered in the turn and
/// the state.
pub struct StreamView {
    pub content: Seq<char>,
    pub state: StreamState,
}

impl StreamView {
    /// The stream at the start of a turn: in the body if the prompt ended
    /// in the assistant's header, else in the header.
    pub open spec fn start(primed: bool) -> StreamView {
        StreamView {
            content: Seq::empty(),
            state: if primed {
                StreamState::InBody
            } else {
                StreamState::InHeader
            },
        }
    }

    /// The stream after the text of a token.
    ///
    /// In the header the token is dropped, and the body begins after the
    /// token that ends the header. In the body a token that ends the turn
    /// closes the stream: it joins the text, which is then reduced to the
    /// visible message. Any other token joins the text as it is. A closed
    /// stream stays as it is.
    pub open spec fn push(self, t: TemplateView, text: Seq<char>) -> StreamView {
        match self.state {
            StreamState::Closed => self,
            StreamState::InHeader => if t.header_ends_at(text) {
                StreamView { state: StreamState::InBody, ..self }
            } else {
                self
            },
            StreamState::InBody => if t.stops_at(self.content, text) {
                StreamView { content: t.trimmed(self.content + text), state: StreamState::Closed }
            } else {
                StreamView { content: self.content + text, ..self }
            },
        }
    }

    /// What the reader gets for the text of a token.
    pub open spec fn push_step(self, t: TemplateView, text: Seq<char>) -> StepView {
        match self.state {
            StreamState::Closed => StepView::Finished,
            StreamState::InHeader => StepView::Discarded,
            StreamState::InBody => if t.stops_at(self.content, text) {
                StepView::Finished
            } else {
                StepView::Visible(text)
            },
        }
    }

    /// The stream after the end of the sequence: closed, its text reduced
    /// to the visible message.
    pub open spec fn end(self, t: TemplateView) -> StreamView {
        match self.state {
            StreamState::Closed => self,
            _ => StreamView { content: t.trimmed(self.content), state: StreamState::Closed },
        }
    }

    /// The stream after an engine failure: the message joins the text as
    /// its last fragment, and the stream closes.
    pub open spec fn fail(self, t: TemplateView, message: Seq<char>) -> StreamView {
        match self.state {
            StreamState::Closed => self,
            _ => StreamView {
                content: t.trimmed(self.content + message),
                state: StreamState::Closed,
            },
        }
    }

    /// What the reader gets for an engine failure.
    pub open spec fn fail_step(self, message: Seq<char>) -> StepView {
        match self.state {
            StreamState::Closed => StepView::Finished,
            _ => StepView::Failed(message),
        }
    }

    /// Whether a step closes a stream that was open.
    pub open spec fn closed_by(self, after: StreamView) -> bool {
        self.state != StreamState::Closed && after.state == StreamState::Closed
    }

    /// The stream after the engine sampled `token` for `sequence`: a token
    /// that the sequence cannot take fails the stream with the refusal, the
    /// token that ends the sequence ends the stream, and any other token
    /// leaves the stream as it is, waiting for the token's text. A closed
    /// stream stays as it is.
    pub open spec fn sample(
        self,
        t: TemplateView,
        sequence: SequenceView,
        token: i32,
    ) -> StreamView {
        if self.state == StreamState::Closed {
            self
        } else if !sequence.takes(seq![token]) {
            self.fail(t, sequence.refusal().message_view())
        } else if token == sequence.eos {
            self.end(t)
        } else {
            self
        }
    }

    /// What the reader gets for a sampled token: nothing while the token's
    /// text is wanted.
    pub open spec fn sample_step(self, sequence: SequenceView, token: i32) -> Option<StepView> {
        if self.state == StreamState::Closed {
            Some(StepView::Finished)
        } else if !sequence.takes(seq![token]) {
            Some(StepView::Failed(sequence.refusal().message_view()))
        } else if token == sequence.eos {
            Some(StepView::Finished)
        } else {
            None
        }
    }

    /// The stream after the engine answered the submission of the turn:
    /// where it refused the turn, the stream fails with the refusal's
    /// message; where it took the turn, the stream is as it was.
    pub open spec fn answer(self, t: TemplateView, refusal: Option<Seq<char>>) -> StreamView {
        match refusal {
            Some(message) => self.fail(t, message),
            None => self,
        }
    }

    /// What the reader gets for the engine's answer to the submission:
    /// nothing where the engine took the turn.
    pub open spec fn answer_step(self, refusal: Option<Seq<char>>) -> Option<StepView> {
        match refusal {
            Some(message) => Some(self.fail_step(message)),
            None => None,
        }
    }

    /// The sequence after a token was sampled for it: the token is appended
    /// if the stream is open and the sequence can take it.
    pub open spec fn sample_sequence(self, sequence: SequenceView, token: i32) -> SequenceView {
        if self.state != StreamState::Closed && sequence.takes(seq![token]) {
            sequence.sampled(token)
        } else {
            sequence
        }
    }
}

/// The refusal as a failure: the message that a stream fails with where
/// the engine refused the turn.
pub open spec fn refusal_view(refusal: Option<String>) -> Option<Seq<char>> {
    match refusal {
        Some(message) => Some(message@),
        None => None,
    }
}

/// The value of a step that may be wanting.
pub open spec fn step_view(step: Option<StreamStep>) -> Option<StepView> {
    match step {
        Some(step) => Some(step@),
        None => None,
    }
}

/// Takes the text of a token into the text and state of a stream.
fn push_text(
    content: &mut String,
    state: &mut StreamState,
    template: &PromptTemplate,
    text: String,
) -> (step: StreamStep)
    ensures
        (StreamView { content: final(content)@, state: *final(state) }) == (StreamView {
            content: old(content)@,
            state: *old(state),
        }).push(template@, text@),
        step@ == (StreamView { content: old(content)@, state: *old(state) }).push_step(
            template@,
            text@,
        ),
{
    match *state {
        StreamState::Closed => StreamStep::Finished,
        StreamState::InHeader => {
            if template.is_end_of_header(text.as_str()) {
                *state = StreamState::InBody;
            }
            StreamStep::Discarded
        },
        StreamState::InBody => {
            let ends = template.ends_turn(text.as_str(), content.as_str());
            content.append(text.as_str());
            if ends {
                template.post_handle_content(content);
                *state = StreamState::Closed;
                StreamStep::Finished
            } else {
                StreamStep::Visible(text)
            }
        },
    }
}

/// Closes the text and state of a stream at the end of the sequence.
fn end_text(
    content: &mut String,
    state: &mut StreamState,
    template: &PromptTemplate,
) -> (step: StreamStep)
    ensures
        (StreamView { content: final(content)@, state: *final(state) }) == (StreamView {
            content: old(content)@,
            state: *old(state),
        }).end(template@),
        step@ == StepView::Finished,
{
    match *state {
        StreamState::Closed => {},
        _ => {
            template.post_handle_content(content);
            *state = StreamState::Closed;
        },
    }
    StreamStep::Finished
}

/// Closes the text and state of a stream on an engine failure.
fn fail_text(
    content: &mut String,
    state: &mut StreamState,
    template: &PromptTemplate,
    message: String,
) -> (step: StreamStep)
    ensures
        (StreamView { content: final(content)@, state: *final(state) }) == (StreamView {
            content: old(content)@,
            state: *old(state),
        }).fail(template@, message@),
        step@ == (StreamView { content: old(content)@, state: *old(state) }).fail_step(
            message@,
        ),
{
    match *state {
        StreamState::Closed => StreamStep::Finished,
        _ => {
            content.append(message.as_str());
            template.post_handle_content(content);
            *state = StreamState::Closed;
            StreamStep::Failed(message)
        },
    }
}

/// The stream of one turn. It owns its context until the turn is over and
/// gives it back when it is finished.
pub struct LlamaModelChatStream<CTX> {
    content: String,
    llama_ctx: CTX,
    state: StreamState,
}

impl<CTX> View for LlamaModelChatStream<CTX> {
    type V = StreamView;

    closed spec fn view(&self) -> StreamView {
        StreamView { content: self.content@, state: self.state }
    }
}

impl<CTX> LlamaModelChatStream<CTX> {
    /// The context that the stream holds.
    pub closed spec fn context(&self) -> CTX {
        self.llama_ctx
    }

    /// Whether the turn is over.
    pub fn is_closed(&self) -> (b: bool)
        ensures
            b == (self@.state == StreamState::Closed),
    {
        match self.state {
            StreamState::Closed => true,
            _ => false,
        }
    }

    /// Where the stream stands.
    pub fn state(&self) -> (state: StreamState)
        ensures
            state == self@.state,
    {
        self.state
    }

    /// The text gathered so far; once the stream is closed, the visible
    /// message of the turn.
    pub fn content(&self) -> (text: &str)
        ensures
            text@ == self@.content,
    {
        self.content.as_str()
    }

    /// The context that the stream holds, to look at.
    pub fn llama_ctx(&self) -> (ctx: &CTX)
        ensures
            *ctx == self.context(),
    {
        &self.llama_ctx
    }

    /// Gives the stream up: the context comes back as the stream left it,
    /// with the text of the turn.
    pub fn finish(self) -> (parts: (CTX, String))
        ensures
            ({
                let (ctx, text) = parts;
                ctx == self.context() && text@ == self@.content
            }),
    {
        (self.llama_ctx, self.content)
    }
}

/// The state in which a stream starts.
fn start_state(primed: bool) -> (state: StreamState)
    ensures
        state == StreamView::start(primed).state,
{
    if primed {
        StreamState::InBody
    } else {
        StreamState::InHeader
    }
}

impl LlamaModelContext {
    /// Opens the stream of the turn that was submitted last. The stream
    /// takes the context with it: nothing can be asked of the context until
    /// the stream is finished.
    pub fn stream(self) -> (stream: LlamaModelChatStream<LlamaModelContext>)
        ensures
            stream@ == StreamView::start(self@.primed),
            stream.context() == self,
    {
        let primed = self.is_primed();
        LlamaModelChatStream {
            content: String::new(),
            llama_ctx: self,
            state: start_state(primed),
        }
    }
}

impl LlamaModelChatStream<LlamaModelContext> {
    /// Takes the token that the engine sampled.
    ///
    /// The token is scheduled as the context's next batch. There is no
    /// result when the text of the token is wanted next. The end of the
    /// sequence closes the stream, and so does a token that the context
    /// cannot schedule: that is a failure with the context's message. A
    /// closed stream takes nothing.
    pub fn take_a_token(&mut self, token: i32) -> (step: Option<StreamStep>)
        ensures
            ({
                let ctx = old(self).context()@;
                &&& final(self)@ == old(self)@.sample(ctx.template, ctx.sequence, token)
                &&& step_view(step) == old(self)@.sample_step(ctx.sequence, token)
                &&& final(self).context()@ == ctx.with_sequence(
                    old(self)@.sample_sequence(ctx.sequence, token),
                )
            }),
    {
        if self.is_closed() {
            return Some(StreamStep::Finished);
        }
        match self.llama_ctx.take_a_token(token) {
            Ok(ends) => {
                if ends {
                    Some(end_text(&mut self.content, &mut self.state, self.llama_ctx.template()))
                } else {
                    None
                }
            },
            Err(e) => Some(
                fail_text(
                    &mut self.content,
                    &mut self.state,
                    self.llama_ctx.template(),
                    e.message(),
                ),
            ),
        }
    }

    /// Takes the bytes of the token that was sampled last: the decoder of
    /// the turn makes text of them, and that text is pushed.
    pub fn feed(&mut self, bytes: &[u8]) -> (step: StreamStep)
        ensures
            final(self).context()@ == old(self).context()@.decoded(bytes@),
            final(self)@ == old(self)@.push(
                old(self).context()@.template,
                token_text(old(self).context()@.fed, bytes@),
            ),
            step@ == old(self)@.push_step(
                old(self).context()@.template,
                token_text(old(self).context()@.fed, bytes@),
            ),
    {
        let text = self.llama_ctx.detokenize(bytes);
        self.push(text)
    }

    /// Takes the text of the token that was sampled last.
    pub fn push(&mut self, text: String) -> (step: StreamStep)
        ensures
            final(self).context()@ == old(self).context()@,
            final(self)@ == old(self)@.push(old(self).context()@.template, text@),
            step@ == old(self)@.push_step(old(self).context()@.template, text@),
    {
        push_text(&mut self.content, &mut self.state, self.llama_ctx.template(), text)
    }

    /// Takes a failure of the engine: the message is the last fragment of
    /// the turn, and the stream closes.
    pub fn fail(&mut self, message: String) -> (step: StreamStep)
        ensures
            final(self).context()@ == old(self).context()@,
            final(self)@ == old(self)@.fail(old(self).context()@.template, message@),
            step@ == old(self)@.fail_step(message@),
    {
        fail_text(&mut self.content, &mut self.state, self.llama_ctx.template(), message)
    }

    /// Takes the engine's answer to the submission of the turn. Where the
    /// engine refused the turn, `refusal` is its message and the stream
    /// fails with it; where it took the turn, nothing happens and the first
    /// token is awaited.
    pub fn refused(&mut self, refusal: Option<String>) -> (step: Option<StreamStep>)
        ensures
            final(self).context()@ == old(self).context()@,
            final(self)@ == old(self)@.answer(
                old(self).context()@.template,
                refusal_view(refusal),
            ),
            step_view(step) == old(self)@.answer_step(refusal_view(refusal)),
    {
        match refusal {
            Some(message) => Some(self.fail(message)),
            None => None,
        }
    }
}

impl LlamaModelFullPromptContext {
    /// Opens the stream of the turn that was submitted last. The stream
    /// takes the context with it: nothing can be asked of the context until
    /// the stream is finished.
    pub fn stream(self) -> (stream: LlamaModelChatStream<LlamaModelFullPromptContext>)
        ensures
            stream@ == StreamView::start(self@.primed),
            stream.context() == self,
    {
        let primed = self.is_primed();
        LlamaModelChatStream {
            content: String::new(),
            llama_ctx: self,
            state: start_state(primed),
        }
    }
}

impl LlamaModelChatStream<LlamaModelFullPromptContext> {
    /// Appends the visible message to the history if the last step closed
    /// the stream.
    fn commit_if(&mut self, closed: bool)
        ensures
            final(self)@ == old(self)@,
            final(self).context()@ == old(self).context()@.committed_if(
                closed,
                old(self)@.content,
            ),
    {
        if closed {
            let text = self.content.clone();
            self.llama_ctx.commit(text);
        }
    }

    /// Takes the token that the engine sampled.
    ///
    /// The token is scheduled as the context's next batch. There is no
    /// result when the text of the token is wanted next. The end of the
    /// sequence closes the stream, and so does a token that the context
    /// cannot schedule: that is a failure with the context's message. When
    /// the stream closes, the visible message joins the history as the
    /// assistant's turn. A closed stream takes nothing.
    pub fn take_a_token(&mut self, token: i32) -> (step: Option<StreamStep>)
        ensures
            ({
                let ctx = old(self).context()@;
                &&& final(self)@ == old(self)@.sample(ctx.template, ctx.sequence, token)
                &&& step_view(step) == old(self)@.sample_step(ctx.sequence, token)
                &&& final(self).context()@ == ctx.with_sequence(
                    old(self)@.sample_sequence(ctx.sequence, token),
                ).committed_if(old(self)@.closed_by(final(self)@), final(self)@.content)
            }),
    {
        if self.is_closed() {
            return Some(StreamStep::Finished);
        }
        match self.llama_ctx.take_a_token(token) {
            Ok(ends) => {
                if ends {
                    let step = end_text(
                        &mut self.content,
                        &mut self.state,
                        self.llama_ctx.template(),
                    );
                    self.commit_if(true);
                    Some(step)
                } else {
                    None
                }
            },
            Err(e) => {
                let step = fail_text(
                    &mut self.content,
                    &mut self.state,
                    self.llama_ctx.template(),
                    e.message(),
                );
                self.commit_if(true);
                Some(step)
            },
        }
    }

    /// Takes the bytes of the token that was sampled last: the decoder of
    /// the turn makes text of them, and that text is pushed.
    pub fn feed(&mut self, bytes: &[u8]) -> (step: StreamStep)
        ensures
            final(self)@ == old(self)@.push(
                old(self).context()@.template,
                token_text(old(self).context()@.fed, bytes@),
            ),
            step@ == old(self)@.push_step(
                old(self).context()@.template,
                token_text(old(self).context()@.fed, bytes@),
            ),
            final(self).context()@ == old(self).context()@.decoded(bytes@).committed_if(
                old(self)@.closed_by(final(self)@),
                final(self)@.content,
            ),
    {
        let text = self.llama_ctx.detokenize(bytes);
        self.push(text)
    }

    /// Takes the text of the token that was sampled last. When it closes
    /// the stream, the visible message joins the history as the assistant's
    /// turn.
    pub fn push(&mut self, text: String) -> (step: StreamStep)
        ensures
            final(self)@ == old(self)@.push(old(self).context()@.template, text@),
            step@ == old(self)@.push_step(old(self).context()@.template, text@),
            final(self).context()@ == old(self).context()@.committed_if(
                old(self)@.closed_by(final(self)@),
                final(self)@.content,
            ),
    {
        let was_open = !self.is_closed();
        let step = push_text(&mut self.content, &mut self.state, self.llama_ctx.template(), text);
        let closed = was_open && self.is_closed();
        self.commit_if(closed);
        step
    }

    /// Takes a failure of the engine: the message is the last fragment of
    /// the turn, the stream closes, and the visible message joins the
    /// history as the assistant's turn.
    pub fn fail(&mut self, message: String) -> (step: StreamStep)
        ensures
            final(self)@ == old(self)@.fail(old(self).context()@.template, message@),
            step@ == old(self)@.fail_step(message@),
            final(self).context()@ == old(self).context()@.committed_if(
                old(self)@.closed_by(final(self)@),
                final(self)@.content,
            ),
    {
        let was_open = !self.is_closed();
        let step = fail_text(
            &mut self.content,
            &mut self.state,
            self.llama_ctx.template(),
            message,
        );
        self.commit_if(was_open);
        step
    }

    /// Takes the engine's answer to the submission of the turn. Where the
    /// engine refused the turn, `refusal` is its message and the stream
    /// fails with it, the message joining the history as the assistant's
    /// turn; where it took the turn, nothing happens and the first token is
    /// awaited.
    pub fn refused(&mut self, refusal: Option<String>) -> (step: Option<StreamStep>)
        ensures
            final(self)@ == old(self)@.answer(
                old(self).context()@.template,
                refusal_view(refusal),
            ),
            step_view(step) == old(self)@.answer_step(refusal_view(refusal)),
            final(self).context()@ == old(self).context()@.committed_if(
                old(self)@.closed_by(final(self)@),
                final(self)@.content,
            ),
    {
        match refusal {
            Some(message) => Some(self.fail(message)),
            None => None,
        }
    }
}

} // verus!
