//! The plain chat loop: a hook supplies the turns and listens to what is
//! generated.

use crate::llm::context::{ChatRequest, ContextView, FullContextView, LlamaCtx};
use crate::llm::stream::{StepView, StreamStep};
use crate::llm::Content;
use vstd::prelude::*;

verus! {

/// Why a hook gave up.
#[derive(Debug, Clone, PartialEq, Eq)]
pub struct HookError {
    pub message: String,
}

/// What the loop tells its hook while a turn is generated.
#[derive(Debug, Clone, PartialEq, Eq)]
pub enum Token {
    /// Generation begins.
    Start,
    /// A visible fragment of the turn.
    Chunk(String),
    /// Generation is over; the full text of the turn.
    End(String),
}

/// The mathematical value of a [`Token`].
pub enum TokenView {
    Start,
    Chunk(Seq<char>),
    End(Seq<char>),
}

impl View for Token {
    type V = TokenView;

    open spec fn view(&self) -> TokenView {
        match self {
            Token::Start => TokenView::Start,
            Token::Chunk(text) => TokenView::Chunk(text@),
            Token::End(text) => TokenView::End(text@),
        }
    }
}

/// The collaborator of the loop: where its turns come from and where its
/// output goes.
pub trait IOHook {
    /// The next turn, or nothing when the input is exhausted.
    fn get_input(&mut self) -> Result<Option<Content>, HookError>;

    /// Takes note of what is generated.
    fn token_callback(&mut self, token: Token) -> Result<(), HookError>;

    /// Brings an inbound turn into the form that the model is to see.
    fn parse_input(&mut self, content: &mut Content);
}

/// What the hook is told for a step of the stream that was left with
/// `content`: a fragment as a chunk, an engine failure as a last chunk, and
/// with the end of the stream the full text.
pub open spec fn told(step: StepView, content: Seq<char>) -> Seq<TokenView> {
    match step {
        StepView::Discarded => Seq::empty(),
        StepView::Visible(text) => seq![TokenView::Chunk(text)],
        StepView::Finished => seq![TokenView::End(content)],
        StepView::Failed(message) => seq![TokenView::Chunk(message), TokenView::End(content)],
    }
}

/// The callbacks to make, in order, for a step of the stream that was left
/// with `content`.
pub fn tokens_of(step: StreamStep, content: &str) -> (tokens: Vec<Token>)
    ensures
        Seq::new(tokens@.len(), |i: int| tokens@[i]@) == told(step@, content@),
{
    let tokens = match step {
        StreamStep::Discarded => Vec::new(),
        StreamStep::Visible(text) => vec![Token::Chunk(text)],
        StreamStep::Finished => vec![Token::End(content.to_owned())],
        StreamStep::Failed(message) => vec![Token::Chunk(message), Token::End(content.to_owned())],
    };
    assert(Seq::new(tokens@.len(), |i: int| tokens@[i]@) =~= told(step@, content@));
    tokens
}

/// Passes every turn through the hook's input normalization, once and in
/// order.
fn normalize<Hook: IOHook>(prompts: &mut Vec<Content>, hook: &mut Hook)
    ensures
        final(prompts).len() == old(prompts).len(),
{
    let mut i: usize = 0;
    while i < prompts.len()
        invariant
            prompts.len() == old(prompts).len(),
        decreases prompts.len() - i,
    {
        hook.parse_input(&mut prompts[i]);
        i += 1;
    }
}

/// A chat context together with the hook that feeds it.
pub struct HookLlama<Hook: IOHook> {
    pub llm: LlamaCtx,
    pub hook: Hook,
}

impl<Hook: IOHook> HookLlama<Hook> {
    /// Joins a context and a hook. The turns that the context starts with
    /// (the history of a full-rebuild context, the system prompt of a
    /// continuous one) go through the hook's input normalization; they stay
    /// as many as they were, and nothing else of the context changes.
    pub fn new(ctx: LlamaCtx, hook: Hook) -> (session: Self)
        ensures
            match ctx {
                LlamaCtx::Full(before) => {
                    &&& session.llm matches LlamaCtx::Full(after)
                    &&& after@.history.len() == before@.history.len()
                    &&& after@ == (FullContextView { history: after@.history, ..before@ })
                },
                LlamaCtx::Continuous(before) => {
                    &&& session.llm matches LlamaCtx::Continuous(after)
                    &&& after@.system_prompt.len() == before@.system_prompt.len()
                    &&& after@ == (ContextView { system_prompt: after@.system_prompt, ..before@ })
                },
            },
    {
        let mut hook = hook;
        match ctx {
            LlamaCtx::Full(mut full) => {
                let mut prompts = full.replace_history(Vec::new());
                normalize(&mut prompts, &mut hook);
                let _ = full.replace_history(prompts);
                HookLlama { llm: LlamaCtx::Full(full), hook }
            },
            LlamaCtx::Continuous(mut continuous) => {
                let mut prompts = continuous.replace_system_prompt(Vec::new());
                normalize(&mut prompts, &mut hook);
                let _ = continuous.replace_system_prompt(prompts);
                HookLlama { llm: LlamaCtx::Continuous(continuous), hook }
            },
        }
    }

    /// Asks the hook for the next turn and normalizes it. The result is the
    /// request to put to the context, nothing when the input is exhausted,
    /// or the hook's error. The context is not touched.
    pub fn next_request(&mut self) -> (r: Result<Option<ChatRequest>, HookError>)
        ensures
            final(self).llm == old(self).llm,
            r matches Ok(Some(request)) ==> request is Once,
    {
        match self.hook.get_input() {
            Ok(Some(content)) => {
                let mut content = content;
                self.hook.parse_input(&mut content);
                Ok(Some(ChatRequest::Once(content)))
            },
            Ok(None) => Ok(None),
            Err(e) => Err(e),
        }
    }
}

/// Tells the hook that generation begins.
pub fn announce<Hook: IOHook>(hook: &mut Hook) -> (r: Result<(), HookError>) {
    hook.token_callback(Token::Start)
}

/// Tells the hook what a step of the stream brought, the stream being left
/// with `content`. The result says whether the step ended the turn; an
/// error of the hook ends the telling at once. For a token of the header
/// there is nothing to tell: the hook is not called, and the telling
/// succeeds.
pub fn relay<Hook: IOHook>(hook: &mut Hook, step: StreamStep, content: &str) -> (r: Result<
    bool,
    HookError,
>)
    ensures
        r matches Ok(ended) ==> ended == (step@ is Finished || step@ is Failed),
        step@ is Discarded ==> r == Ok::<bool, HookError>(false) && *final(hook) == *old(hook),
{
    let ended = match &step {
        StreamStep::Finished => true,
        StreamStep::Failed(_) => true,
        _ => false,
    };
    let mut tokens = tokens_of(step, content);
    assert(tokens@.len() == told(step@, content@).len());
    let mut i: usize = 0;
    while i < tokens.len()
        invariant
            i <= tokens.len(),
            tokens.len() == told(step@, content@).len(),
            i == 0 ==> *hook == *old(hook),
        decreases tokens.len() - i,
    {
        let mut token = Token::Start;
        std::mem::swap(&mut token, &mut tokens[i]);
        match hook.token_callback(token) {
            Ok(()) => {},
            Err(e) => {
                return Err(e);
            },
        }
        i += 1;
    }
    Ok(ended)
}

} // verus!
