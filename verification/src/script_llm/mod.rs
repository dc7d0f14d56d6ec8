//! The tool-calling loop: external input, generation and script evaluation
//! in turn.
//!
//! The loop is a state machine that never acts itself. Each of its steps
//! takes what happened outside (input arrived, a token was streamed, a
//! script was evaluated) and answers with the callbacks to make and the one
//! thing to do next. Whoever drives it owns the inference engine and the
//! scripting engine, and does their work when the loop asks for it.

use crate::hook_llm::HookError;
use crate::llm::context::{ContextView, FullContextView};
use crate::llm::stream::{StepView, StreamStep};
use crate::llm::{turn_views, Content, ContentView, Role, RoleView};
use crate::text::starts_with;
use vstd::prelude::*;
use vstd::string::StringExecFns;

pub use crate::llm::context::LlamaCtx;

verus! {

/// What the loop tells its listener while a turn is generated.
#[derive(Debug, Clone, PartialEq, Eq)]
pub enum Token {
    /// Generation begins.
    Start,
    /// A visible fragment of the turn.
    Chunk(String),
    /// Generation is over; the full text of the turn.
    End(String),
}

/// The mathematical value of a [`Token`].
pub enum TokenView {
    Start,
    Chunk(Seq<char>),
    End(Seq<char>),
}

impl View for Token {
    type V = TokenView;

    open spec fn view(&self) -> TokenView {
        match self {
            Token::Start => TokenView::Start,
            Token::Chunk(text) => TokenView::Chunk(text@),
            Token::End(text) => TokenView::End(text@),
        }
    }
}

/// An error raised by a script.
#[derive(Debug, Clone, PartialEq, Eq)]
pub struct ScriptError {
    pub message: String,
}

/// What the evaluation of a script gave.
#[derive(Debug, Clone, PartialEq, Eq)]
pub enum ScriptOutcome {
    /// The script gave a value.
    Value(String),
    /// The script gave nothing.
    Absent,
    /// The script raised an error.
    Failed(ScriptError),
}

/// The mathematical value of a [`ScriptOutcome`].
pub enum OutcomeView {
    Value(Seq<char>),
    Absent,
    Failed(Seq<char>),
}

impl View for ScriptOutcome {
    type V = OutcomeView;

    open spec fn view(&self) -> OutcomeView {
        match self {
            ScriptOutcome::Value(value) => OutcomeView::Value(value@),
            ScriptOutcome::Absent => OutcomeView::Absent,
            ScriptOutcome::Failed(error) => OutcomeView::Failed(error.message@),
        }
    }
}

/// Sorts what the scripting engine returned: a value, nothing, or an error.
pub fn outcome_of(result: Result<Option<String>, ScriptError>) -> (outcome: ScriptOutcome)
    ensures
        outcome@ == match result {
            Ok(Some(value)) => OutcomeView::Value(value@),
            Ok(None) => OutcomeView::Absent,
            Err(error) => OutcomeView::Failed(error.message@),
        },
{
    match result {
        Ok(Some(value)) => ScriptOutcome::Value(value),
        Ok(None) => ScriptOutcome::Absent,
        Err(error) => ScriptOutcome::Failed(error),
    }
}

/// Whether a generated text is not to be evaluated: it is empty, or it
/// begins with the comment marker `--`.
pub open spec fn is_noop(text: Seq<char>) -> bool {
    text.len() == 0 || "--"@.is_prefix_of(text)
}

/// Whether a generated text is not to be evaluated.
pub fn skips_evaluation(text: &str) -> (b: bool)
    ensures
        b == is_noop(text@),
{
    text.is_empty() || starts_with(text, "--")
}

/// Where the loop stands.
#[derive(Debug, Clone, Copy, PartialEq, Eq, Structural)]
pub enum LoopState {
    /// Waiting for input from outside.
    AwaitInput,
    /// Waiting for the content that a transform makes of a tool result or
    /// of a script error.
    AwaitTool,
    /// A turn was handed out for submission to the engine.
    Submitting,
    /// The turn is being generated.
    Generating,
    /// The generated text is being evaluated as a script.
    Evaluating,
    /// The input is exhausted; the loop is over.
    Halt,
}

/// The one thing that the driver of the loop does next.
#[derive(Debug, Clone, PartialEq, Eq)]
pub enum Next {
    /// Ask the outside for input, normalize it and hand it in.
    Input,
    /// Pass this tool result through the tool-result transform and hand the
    /// content in.
    ToolResult(String),
    /// Pass this script error through the error-formatting transform and
    /// hand the content in.
    ScriptError(ScriptError),
    /// Submit this turn to the chat context, open its stream and say
    /// whether the engine took the turn.
    Submit(Content),
    /// Take the next step of the stream.
    Token,
    /// Let the stream fail with this message, the engine having refused
    /// the turn, and hand the step in.
    Fail(String),
    /// Evaluate this text as a script and hand the outcome in.
    Evaluate(String),
    /// Stop.
    Halt,
}

/// The mathematical value of a [`Next`].
pub enum NextView {
    Input,
    ToolResult(Seq<char>),
    ScriptError(Seq<char>),
    Submit(ContentView),
    Token,
    Fail(Seq<char>),
    Evaluate(Seq<char>),
    Halt,
}

impl View for Next {
    type V = NextView;

    open spec fn view(&self) -> NextView {
        match self {
            Next::Input => NextView::Input,
            Next::ToolResult(value) => NextView::ToolResult(value@),
            Next::ScriptError(error) => NextView::ScriptError(error.message@),
            Next::Submit(turn) => NextView::Submit(turn@),
            Next::Token => NextView::Token,
            Next::Fail(message) => NextView::Fail(message@),
            Next::Evaluate(text) => NextView::Evaluate(text@),
            Next::Halt => NextView::Halt,
        }
    }
}

/// The loop's answer to an event: the callbacks to make, in order, and what
/// to do next.
#[derive(Debug, Clone, PartialEq, Eq)]
pub struct Reply {
    pub tokens: Vec<Token>,
    pub next: Next,
}

/// The mathematical value of a [`Reply`].
pub struct ReplyView {
    pub tokens: Seq<TokenView>,
    pub next: NextView,
}

impl View for Reply {
    type V = ReplyView;

    open spec fn view(&self) -> ReplyView {
        ReplyView {
            tokens: Seq::new(self.tokens@.len(), |i: int| self.tokens@[i]@),
            next: self.next@,
        }
    }
}

/// The mathematical value of a [`ToolLoop`].
pub struct LoopView {
    /// Where the loop stands.
    pub state: LoopState,
    /// The fragments of the running turn, joined.
    pub text: Seq<char>,
    /// Whether the full text of a turn is what the loop gathered from the
    /// fragments, or what the stream was left with.
    pub gathers: bool,
}

impl LoopView {
    /// A turn for the engine made of `content`. The engine knows no tool
    /// role, so every inbound turn is the user's.
    pub open spec fn inbound(content: Seq<char>) -> ContentView {
        ContentView { role: RoleView::User, message: content }
    }

    /// The loop in another state.
    pub open spec fn at(self, state: LoopState) -> LoopView {
        LoopView { state, ..self }
    }

    /// After input from outside: a turn is submitted, or the loop halts at
    /// the end of the input. Input is taken only while it is awaited.
    pub open spec fn on_input(self, input: Option<Seq<char>>) -> Option<(LoopView, ReplyView)> {
        if self.state != LoopState::AwaitInput {
            None
        } else {
            match input {
                Some(content) => Some(
                    (
                        LoopView { state: LoopState::Submitting, text: Seq::empty(), ..self },
                        ReplyView {
                            tokens: Seq::empty(),
                            next: NextView::Submit(Self::inbound(content)),
                        },
                    ),
                ),
                None => Some(
                    (
                        self.at(LoopState::Halt),
                        ReplyView { tokens: Seq::empty(), next: NextView::Halt },
                    ),
                ),
            }
        }
    }

    /// After a transform made the content of a tool turn: the content is
    /// submitted as it is.
    pub open spec fn on_tool_content(self, content: Seq<char>) -> Option<(LoopView, ReplyView)> {
        if self.state != LoopState::AwaitTool {
            None
        } else {
            Some(
                (
                    LoopView { state: LoopState::Submitting, text: Seq::empty(), ..self },
                    ReplyView {
                        tokens: Seq::empty(),
                        next: NextView::Submit(Self::inbound(content)),
                    },
                ),
            )
        }
    }

    /// After the turn was put to the engine: generation starts, and its
    /// start is told. Where the engine took the turn, the stream is read;
    /// where it refused the turn, with the message given, the stream is made
    /// to fail with that message, so that the refusal is the turn's last
    /// fragment.
    pub open spec fn on_submitted(self, refusal: Option<Seq<char>>) -> Option<
        (LoopView, ReplyView),
    > {
        if self.state != LoopState::Submitting {
            None
        } else {
            Some(
                (
                    self.at(LoopState::Generating),
                    ReplyView {
                        tokens: seq![TokenView::Start],
                        next: match refusal {
                            Some(message) => NextView::Fail(message),
                            None => NextView::Token,
                        },
                    },
                ),
            )
        }
    }

    /// The full text of a turn whose stream was left with `content`.
    pub open spec fn full_text(self, content: Seq<char>) -> Seq<char> {
        if self.gathers {
            self.text
        } else {
            content
        }
    }

    /// After a step of the stream, which was left with `content`.
    ///
    /// A header token is passed over. A fragment is told to the listener
    /// and gathered. The end of the stream ends the turn: the listener gets
    /// the full text, and the text is evaluated unless it is empty or a
    /// comment. An engine failure ends the turn as well: its message is
    /// told as the last fragment, the listener gets the full text, and
    /// nothing is evaluated; the loop waits for input from outside.
    pub open spec fn on_stream(self, step: StepView, content: Seq<char>) -> Option<
        (LoopView, ReplyView),
    > {
        if self.state != LoopState::Generating {
            None
        } else {
            match step {
                StepView::Discarded => Some(
                    (self, ReplyView { tokens: Seq::empty(), next: NextView::Token }),
                ),
                StepView::Visible(text) => Some(
                    (
                        LoopView { text: self.text + text, ..self },
                        ReplyView { tokens: seq![TokenView::Chunk(text)], next: NextView::Token },
                    ),
                ),
                StepView::Finished => {
                    let full = self.full_text(content);
                    if is_noop(full) {
                        Some(
                            (
                                self.at(LoopState::AwaitInput),
                                ReplyView {
                                    tokens: seq![TokenView::End(full)],
                                    next: NextView::Input,
                                },
                            ),
                        )
                    } else {
                        Some(
                            (
                                self.at(LoopState::Evaluating),
                                ReplyView {
                                    tokens: seq![TokenView::End(full)],
                                    next: NextView::Evaluate(full),
                                },
                            ),
                        )
                    }
                },
                StepView::Failed(message) => {
                    let gathered = LoopView { text: self.text + message, ..self };
                    let full = gathered.full_text(content);
                    Some(
                        (
                            gathered.at(LoopState::AwaitInput),
                            ReplyView {
                                tokens: seq![TokenView::Chunk(message), TokenView::End(full)],
                                next: NextView::Input,
                            },
                        ),
                    )
                },
            }
        }
    }

    /// After the evaluation of the turn's text: a value becomes a tool
    /// result, an error goes to the error-formatting transform, and nothing
    /// leaves the loop waiting for input from outside.
    pub open spec fn on_evaluated(self, outcome: OutcomeView) -> Option<(LoopView, ReplyView)> {
        if self.state != LoopState::Evaluating {
            None
        } else {
            match outcome {
                OutcomeView::Value(value) => Some(
                    (
                        self.at(LoopState::AwaitTool),
                        ReplyView { tokens: Seq::empty(), next: NextView::ToolResult(value) },
                    ),
                ),
                OutcomeView::Absent => Some(
                    (
                        self.at(LoopState::AwaitInput),
                        ReplyView { tokens: Seq::empty(), next: NextView::Input },
                    ),
                ),
                OutcomeView::Failed(message) => Some(
                    (
                        self.at(LoopState::AwaitTool),
                        ReplyView { tokens: Seq::empty(), next: NextView::ScriptError(message) },
                    ),
                ),
            }
        }
    }
}

/// Whether an answer of the loop is what the transition says: the loop has
/// moved and replied accordingly, or the event did not fit the state and
/// the loop is as it was.
pub open spec fn answers(
    before: LoopView,
    after: LoopView,
    reply: Option<Reply>,
    expected: Option<(LoopView, ReplyView)>,
) -> bool {
    match expected {
        Some((state, answer)) => reply matches Some(r) && r@ == answer && after == state,
        None => reply is None && after == before,
    }
}

/// The state machine of the tool-calling loop.
pub struct ToolLoop {
    state: LoopState,
    text: String,
    gathers: bool,
}

impl View for ToolLoop {
    type V = LoopView;

    closed spec fn view(&self) -> LoopView {
        LoopView { state: self.state, text: self.text@, gathers: self.gathers }
    }
}

impl ToolLoop {
    /// A loop that waits for input from outside. With `gathers` the full
    /// text of a turn is what the loop gathers from the fragments, as a
    /// continuous context needs it; without, it is the text that the stream
    /// committed.
    pub fn new(gathers: bool) -> (machine: ToolLoop)
        ensures
            machine@ == (LoopView { state: LoopState::AwaitInput, text: Seq::empty(), gathers }),
    {
        ToolLoop { state: LoopState::AwaitInput, text: String::new(), gathers }
    }

    /// Where the loop stands.
    pub fn state(&self) -> (state: LoopState)
        ensures
            state == self@.state,
    {
        self.state
    }

    /// The request that a loop at rest waits for: input while it awaits
    /// input, and nothing more once it has halted. In the middle of a turn
    /// there is no such request: the loop has made it already.
    pub fn resume(&self) -> (reply: Option<Reply>)
        ensures
            match self@.state {
                LoopState::AwaitInput => reply matches Some(r) && r@ == (ReplyView {
                    tokens: Seq::empty(),
                    next: NextView::Input,
                }),
                LoopState::Halt => reply matches Some(r) && r@ == (ReplyView {
                    tokens: Seq::empty(),
                    next: NextView::Halt,
                }),
                _ => reply is None,
            },
    {
        let next = match self.state {
            LoopState::AwaitInput => Next::Input,
            LoopState::Halt => Next::Halt,
            _ => {
                return None;
            },
        };
        let reply = Reply { tokens: Vec::new(), next };
        assert(reply@.tokens =~= Seq::<TokenView>::empty());
        Some(reply)
    }

    /// Takes the answer to a request for input: the normalized input, or
    /// nothing at the end of the input.
    pub fn input(&mut self, input: Option<String>) -> (reply: Option<Reply>)
        ensures
            answers(
                old(self)@,
                final(self)@,
                reply,
                old(self)@.on_input(
                    match input {
                        Some(content) => Some(content@),
                        None => None,
                    },
                ),
            ),
    {
        match self.state {
            LoopState::AwaitInput => {},
            _ => {
                return None;
            },
        }
        match input {
            Some(content) => {
                self.state = LoopState::Submitting;
                self.text = String::new();
                let reply = Reply {
                    tokens: Vec::new(),
                    next: Next::Submit(Content { role: Role::User, message: content }),
                };
                assert(reply@.tokens =~= Seq::<TokenView>::empty());
                Some(reply)
            },
            None => {
                self.state = LoopState::Halt;
                let reply = Reply { tokens: Vec::new(), next: Next::Halt };
                assert(reply@.tokens =~= Seq::<TokenView>::empty());
                Some(reply)
            },
        }
    }

    /// Takes the content that a transform made of a tool result or of a
    /// script error.
    pub fn tool_content(&mut self, content: String) -> (reply: Option<Reply>)
        ensures
            answers(old(self)@, final(self)@, reply, old(self)@.on_tool_content(content@)),
    {
        match self.state {
            LoopState::AwaitTool => {},
            _ => {
                return None;
            },
        }
        self.state = LoopState::Submitting;
        self.text = String::new();
        let reply = Reply {
            tokens: Vec::new(),
            next: Next::Submit(Content { role: Role::User, message: content }),
        };
        assert(reply@.tokens =~= Seq::<TokenView>::empty());
        Some(reply)
    }

    /// Takes the news that the turn was put to the engine, and the message
    /// of the engine's refusal where it did not take the turn.
    pub fn submitted(&mut self, refusal: Option<String>) -> (reply: Option<Reply>)
        ensures
            answers(
                old(self)@,
                final(self)@,
                reply,
                old(self)@.on_submitted(
                    match refusal {
                        Some(message) => Some(message@),
                        None => None,
                    },
                ),
            ),
    {
        match self.state {
            LoopState::Submitting => {},
            _ => {
                return None;
            },
        }
        self.state = LoopState::Generating;
        let next = match refusal {
            Some(message) => Next::Fail(message),
            None => Next::Token,
        };
        let reply = Reply { tokens: vec![Token::Start], next };
        assert(reply@.tokens =~= seq![TokenView::Start]);
        Some(reply)
    }

    /// The full text of the turn whose stream holds `content`.
    fn full_text(&self, content: &str) -> (full: String)
        ensures
            full@ == self@.full_text(content@),
    {
        if self.gathers {
            self.text.clone()
        } else {
            content.to_owned()
        }
    }

    /// Takes a step of the stream, together with the text that the stream
    /// holds after it.
    pub fn stream_step(&mut self, step: StreamStep, content: &str) -> (reply: Option<Reply>)
        ensures
            answers(old(self)@, final(self)@, reply, old(self)@.on_stream(step@, content@)),
    {
        match self.state {
            LoopState::Generating => {},
            _ => {
                return None;
            },
        }
        match step {
            StreamStep::Discarded => {
                let reply = Reply { tokens: Vec::new(), next: Next::Token };
                assert(reply@.tokens =~= Seq::<TokenView>::empty());
                Some(reply)
            },
            StreamStep::Visible(text) => {
                self.text.append(text.as_str());
                let reply = Reply { tokens: vec![Token::Chunk(text)], next: Next::Token };
                assert(reply@.tokens =~= seq![TokenView::Chunk(text@)]);
                Some(reply)
            },
            StreamStep::Finished => {
                let full = self.full_text(content);
                let tokens = vec![Token::End(full.clone())];
                let reply = if skips_evaluation(full.as_str()) {
                    self.state = LoopState::AwaitInput;
                    Reply { tokens, next: Next::Input }
                } else {
                    self.state = LoopState::Evaluating;
                    Reply { tokens, next: Next::Evaluate(full) }
                };
                assert(reply@.tokens =~= seq![TokenView::End(full@)]);
                Some(reply)
            },
            StreamStep::Failed(message) => {
                self.text.append(message.as_str());
                let full = self.full_text(content);
                self.state = LoopState::AwaitInput;
                let reply = Reply {
                    tokens: vec![Token::Chunk(message), Token::End(full)],
                    next: Next::Input,
                };
                assert(reply@.tokens =~= seq![TokenView::Chunk(message@), TokenView::End(full@)]);
                Some(reply)
            },
        }
    }

    /// Takes the outcome of the evaluation.
    pub fn evaluated(&mut self, outcome: ScriptOutcome) -> (reply: Option<Reply>)
        ensures
            answers(old(self)@, final(self)@, reply, old(self)@.on_evaluated(outcome@)),
    {
        match self.state {
            LoopState::Evaluating => {},
            _ => {
                return None;
            },
        }
        let reply = match outcome {
            ScriptOutcome::Value(value) => {
                self.state = LoopState::AwaitTool;
                Reply { tokens: Vec::new(), next: Next::ToolResult(value) }
            },
            ScriptOutcome::Absent => {
                self.state = LoopState::AwaitInput;
                Reply { tokens: Vec::new(), next: Next::Input }
            },
            ScriptOutcome::Failed(error) => {
                self.state = LoopState::AwaitTool;
                Reply { tokens: Vec::new(), next: Next::ScriptError(error) }
            },
        };
        assert(reply@.tokens =~= Seq::<TokenView>::empty());
        Some(reply)
    }
}

/// The collaborator of the loop: where input comes from, where output
/// goes, and how inbound content is brought into the form that the model is
/// to see.
pub trait ChatHook {
    /// The next input from outside, or nothing when the input is exhausted.
    fn get_user_input(&mut self) -> Result<Option<String>, HookError>;

    /// Takes note of what is generated.
    fn token_callback(&mut self, token: Token) -> Result<(), HookError>;

    /// The input normalization: the content of a turn made of outside
    /// input.
    fn parse_user_input(&mut self, input: &str) -> String;

    /// The tool-result transform: the content of a turn made of a script's
    /// value.
    fn parse_script_result(&mut self, result: &str) -> String;

    /// The error-formatting transform: the content of a turn made of a
    /// script's error.
    fn parse_script_error(&mut self, error: ScriptError) -> String;
}

/// The transform that a turn of the initial prompts goes through before
/// the session starts.
#[derive(Debug, Clone, Copy, PartialEq, Eq, Structural)]
pub enum Transform {
    /// The input normalization, for what a human wrote.
    UserInput,
    /// The tool-result transform, for what a tool returned.
    ScriptResult,
}

/// The transform for a prompt of the given role: user turns are normalized
/// as input, tool turns as tool results, and all others are left as they
/// are.
pub open spec fn transform_of(role: RoleView) -> Option<Transform> {
    match role {
        RoleView::User => Some(Transform::UserInput),
        RoleView::Tool => Some(Transform::ScriptResult),
        _ => None,
    }
}

/// Says which transform a prompt of the given role goes through.
pub fn prompt_transform(role: &Role) -> (transform: Option<Transform>)
    ensures
        transform == transform_of(role@),
{
    match role {
        Role::User => Some(Transform::UserInput),
        Role::Tool => Some(Transform::ScriptResult),
        _ => None,
    }
}

/// Whether `after` is what normalization can make of `before`: the same
/// turns with the same roles, and only the messages of user and tool turns
/// written anew.
pub open spec fn normalized(before: Seq<ContentView>, after: Seq<ContentView>) -> bool {
    &&& after.len() == before.len()
    &&& forall|i: int| 0 <= i < before.len() ==> (#[trigger] after[i]).role == before[i].role
    &&& forall|i: int|
        0 <= i < before.len() && transform_of(before[i].role) is None ==> #[trigger] after[i]
            == before[i]
}

/// The turn with the message that a transform made of its own: the role
/// stays, the message is the new one.
pub fn rewritten(turn: &Content, message: String) -> (new: Content)
    ensures
        new@ == (ContentView { role: turn@.role, message: message@ }),
{
    Content { role: turn.role.duplicate(), message }
}

/// Passes every prompt through the transform for its role, once and in
/// order.
fn normalize<Hook: ChatHook>(prompts: &mut Vec<Content>, hook: &mut Hook)
    ensures
        normalized(turn_views(old(prompts)@), turn_views(final(prompts)@)),
{
    let mut i: usize = 0;
    while i < prompts.len()
        invariant
            i <= prompts.len(),
            prompts.len() == old(prompts).len(),
            forall|j: int| 0 <= j < prompts.len() ==> (#[trigger] prompts[j])@.role == old(
                prompts,
            )[j]@.role,
            forall|j: int|
                0 <= j < prompts.len() && (j >= i || transform_of(old(prompts)[j]@.role) is None)
                    ==> (#[trigger] prompts[j])@ == old(prompts)[j]@,
        decreases prompts.len() - i,
    {
        let message = match prompt_transform(&prompts[i].role) {
            Some(Transform::UserInput) => Some(hook.parse_user_input(prompts[i].message.as_str())),
            Some(Transform::ScriptResult) => Some(
                hook.parse_script_result(prompts[i].message.as_str()),
            ),
            None => None,
        };
        if let Some(message) = message {
            let turn = rewritten(&prompts[i], message);
            prompts.set(i, turn);
        }
        i += 1;
    }
}

/// What the driver of a session has to ask of the engines, the inference
/// engine and the scripting engine.
#[derive(Debug, Clone, PartialEq, Eq)]
pub enum EngineWork {
    /// Submit this turn to the chat context, open its stream and report
    /// whether the engine took the turn.
    Submit(Content),
    /// Take the next step of the stream and report it.
    Token,
    /// Let the stream fail with this message and report the step.
    Fail(String),
    /// Evaluate this text as a script and report the outcome.
    Evaluate(String),
    /// Nothing: the session is over.
    Halt,
}

/// Whether a piece of engine work is what the loop waits for in `state`.
pub open spec fn awaited(state: LoopState, work: EngineWork) -> bool {
    match work {
        EngineWork::Submit(_) => state == LoopState::Submitting,
        EngineWork::Token => state == LoopState::Generating,
        EngineWork::Fail(_) => state == LoopState::Generating,
        EngineWork::Evaluate(_) => state == LoopState::Evaluating,
        EngineWork::Halt => state == LoopState::Halt,
    }
}

/// How many more answers the loop can give before engine work is due.
pub open spec fn distance(next: NextView) -> nat {
    match next {
        NextView::Input => 1,
        NextView::ToolResult(_) => 1,
        NextView::ScriptError(_) => 1,
        _ => 0,
    }
}

/// Whether an answer's request is what the loop waits for in `state`.
pub open spec fn awaited_next(state: LoopState, next: NextView) -> bool {
    match next {
        NextView::Input => state == LoopState::AwaitInput,
        NextView::ToolResult(_) => state == LoopState::AwaitTool,
        NextView::ScriptError(_) => state == LoopState::AwaitTool,
        NextView::Submit(_) => state == LoopState::Submitting,
        NextView::Token => state == LoopState::Generating,
        NextView::Fail(_) => state == LoopState::Generating,
        NextView::Evaluate(_) => state == LoopState::Evaluating,
        NextView::Halt => state == LoopState::Halt,
    }
}

/// Whether a request is what the loop waits for in `state`.
fn fits(state: LoopState, next: &Next) -> (b: bool)
    ensures
        b == awaited_next(state, next@),
{
    match next {
        Next::Input => state == LoopState::AwaitInput,
        Next::ToolResult(_) => state == LoopState::AwaitTool,
        Next::ScriptError(_) => state == LoopState::AwaitTool,
        Next::Submit(_) => state == LoopState::Submitting,
        Next::Token => state == LoopState::Generating,
        Next::Fail(_) => state == LoopState::Generating,
        Next::Evaluate(_) => state == LoopState::Evaluating,
        Next::Halt => state == LoopState::Halt,
    }
}

/// The error of a driver that handed the loop an event out of turn.
fn out_of_turn() -> (e: HookError)
    ensures
        e.message@ == "event out of turn"@,
{
    HookError { message: "event out of turn".to_owned() }
}

/// Carries out an answer of the loop as far as it goes without the
/// engines.
///
/// The callbacks are made in order. Then input is asked for and
/// normalized, or a tool result or a script error is transformed, and what
/// came of it is handed to the loop, whose next answer is carried out in
/// the same way. The result is the work that the loop then waits for: a
/// turn to submit, a step of the stream to take or to fail, a text to
/// evaluate, or nothing more. An error of the hook ends the work at once.
/// An answer whose request the loop does not wait for is refused before
/// anything is done.
///
/// Only the hook can make the work fail: an awaited answer without
/// callbacks succeeds unless it asks for input. An answer that is engine
/// work already is handed back as it is, and the hook is not called for it.
pub fn advance<Hook: ChatHook>(turns: &mut ToolLoop, hook: &mut Hook, reply: Reply) -> (r: Result<
    EngineWork,
    HookError,
>)
    ensures
        r matches Ok(work) ==> awaited(final(turns)@.state, work) && carried_out(
            old(turns)@,
            reply.next,
            final(turns)@,
            work,
        ),
        !awaited_next(old(turns)@.state, reply.next@) ==> {
            &&& r matches Err(e) && e.message@ == "event out of turn"@
            &&& final(turns)@ == old(turns)@
            &&& *final(hook) == *old(hook)
        },
        awaited_next(old(turns)@.state, reply.next@) && reply.tokens@.len() == 0 ==> {
            &&& reply.next is Input || r is Ok
            &&& work_of(reply.next) is Some ==> *final(hook) == *old(hook)
        },
{
    if !fits(turns.state(), &reply.next) {
        return Err(out_of_turn());
    }
    let mut current = reply;
    let ghost mut moved = false;
    loop
        invariant
            awaited_next(old(turns)@.state, reply.next@),
            awaited_next(turns@.state, current.next@),
            under_way(old(turns)@, reply, turns@, current, moved),
            !moved ==> *hook == *old(hook),
        decreases distance(current.next@),
    {
        let Reply { tokens, next } = current;
        match tell(hook, tokens) {
            Ok(()) => {},
            Err(e) => {
                return Err(e);
            },
        }
        let answer = match next {
            Next::Submit(turn) => {
                return Ok(EngineWork::Submit(turn));
            },
            Next::Token => {
                return Ok(EngineWork::Token);
            },
            Next::Fail(message) => {
                return Ok(EngineWork::Fail(message));
            },
            Next::Evaluate(text) => {
                return Ok(EngineWork::Evaluate(text));
            },
            Next::Halt => {
                return Ok(EngineWork::Halt);
            },
            Next::Input => {
                let input = match hook.get_user_input() {
                    Ok(Some(text)) => Some(hook.parse_user_input(text.as_str())),
                    Ok(None) => None,
                    Err(e) => {
                        return Err(e);
                    },
                };
                turns.input(input)
            },
            Next::ToolResult(value) => {
                let content = hook.parse_script_result(value.as_str());
                turns.tool_content(content)
            },
            Next::ScriptError(error) => {
                let content = hook.parse_script_error(error);
                turns.tool_content(content)
            },
        };
        current = match answer {
            Some(reply) => reply,
            None => {
                return Err(out_of_turn());
            },
        };
        proof {
            assert(current.tokens@.len() == current@.tokens.len());
            moved = true;
        }
    }
}

/// The engine work that a request stands for, if it is engine work.
pub open spec fn work_of(next: Next) -> Option<EngineWork> {
    match next {
        Next::Submit(turn) => Some(EngineWork::Submit(turn)),
        Next::Token => Some(EngineWork::Token),
        Next::Fail(message) => Some(EngineWork::Fail(message)),
        Next::Evaluate(text) => Some(EngineWork::Evaluate(text)),
        Next::Halt => Some(EngineWork::Halt),
        _ => None,
    }
}

/// Whether `work` is the submission of an inbound turn, the user's, by a
/// loop that stood at `before` and now stands at `after`.
pub open spec fn submits_inbound(before: LoopView, after: LoopView, work: EngineWork) -> bool {
    &&& work matches EngineWork::Submit(turn)
    &&& turn@.role == RoleView::User
    &&& after == (LoopView { state: LoopState::Submitting, text: Seq::empty(), ..before })
}

/// Whether `after` and `work` are where carrying out the request `next`
/// leads a loop that stood at `before`.
///
/// Engine work is handed back as it is and the loop stays where it stood.
/// A tool result or a script error leads to the submission of a turn. So
/// does a request for input, unless the input is exhausted: then the loop
/// halts.
pub open spec fn carried_out(
    before: LoopView,
    next: Next,
    after: LoopView,
    work: EngineWork,
) -> bool {
    match next {
        Next::ToolResult(_) => submits_inbound(before, after, work),
        Next::ScriptError(_) => submits_inbound(before, after, work),
        Next::Input => submits_inbound(before, after, work) || (work is Halt && after
            == before.at(LoopState::Halt)),
        _ => work_of(next) == Some(work) && after == before,
    }
}

/// Where the carrying out of the answer `first` stands: before its first
/// step the loop and the answer are as they were; after it the answer at
/// hand has no callbacks and is the loop's own, engine work.
spec fn under_way(
    before: LoopView,
    first: Reply,
    now: LoopView,
    current: Reply,
    moved: bool,
) -> bool {
    if !moved {
        now == before && current == first
    } else {
        &&& current.tokens@.len() == 0
        &&& work_of(first.next) is None
        &&& match current.next {
            Next::Submit(turn) => {
                &&& turn@.role == RoleView::User
                &&& now == (LoopView {
                    state: LoopState::Submitting,
                    text: Seq::empty(),
                    ..before
                })
            },
            Next::Halt => first.next is Input && now == before.at(LoopState::Halt),
            _ => false,
        }
    }
}

/// Makes the callbacks in order. An error of the hook ends the telling at
/// once; without a token nothing is told, and the hook is not called.
fn tell<Hook: ChatHook>(hook: &mut Hook, tokens: Vec<Token>) -> (r: Result<(), HookError>)
    ensures
        tokens@.len() == 0 ==> r is Ok && *final(hook) == *old(hook),
{
    let mut told = tokens;
    let mut i: usize = 0;
    while i < told.len()
        invariant
            i <= told.len(),
            told.len() == tokens.len(),
            i == 0 ==> *hook == *old(hook),
        decreases told.len() - i,
    {
        let mut token = Token::Start;
        std::mem::swap(&mut token, &mut told[i]);
        match hook.token_callback(token) {
            Ok(()) => {},
            Err(e) => {
                return Err(e);
            },
        }
        i += 1;
    }
    Ok(())
}

/// A chat context, the scripting engine in which its turns are evaluated,
/// the hook that feeds it, and the loop that takes turns between them. The
/// scripting engine is only kept here: its work is asked of the driver.
pub struct LuaLlama<Hook: ChatHook, Script> {
    pub llm: LlamaCtx,
    pub lua: Script,
    pub hook: Hook,
    pub turns: ToolLoop,
}

impl<Hook: ChatHook, Script> LuaLlama<Hook, Script> {
    /// A session that waits for its first input.
    ///
    /// The turns that the context starts with go through the hook's
    /// transforms, each once: user turns through the input normalization,
    /// tool turns through the tool-result transform. Nothing else of the
    /// context changes. Over a continuous context the loop gathers the text
    /// of a turn itself; over a full-rebuild context it takes the text that
    /// was committed to the history.
    pub fn new(llm: LlamaCtx, lua: Script, hook: Hook) -> (session: Self)
        ensures
            session.lua == lua,
            session.turns@ == (LoopView {
                state: LoopState::AwaitInput,
                text: Seq::empty(),
                gathers: llm is Continuous,
            }),
            match llm {
                LlamaCtx::Full(before) => {
                    &&& session.llm matches LlamaCtx::Full(after)
                    &&& normalized(before@.history, after@.history)
                    &&& after@ == (FullContextView { history: after@.history, ..before@ })
                },
                LlamaCtx::Continuous(before) => {
                    &&& session.llm matches LlamaCtx::Continuous(after)
                    &&& normalized(before@.system_prompt, after@.system_prompt)
                    &&& after@ == (ContextView { system_prompt: after@.system_prompt, ..before@ })
                },
            },
    {
        let mut hook = hook;
        match llm {
            LlamaCtx::Full(mut full) => {
                let mut prompts = full.replace_history(Vec::new());
                normalize(&mut prompts, &mut hook);
                let _ = full.replace_history(prompts);
                LuaLlama { llm: LlamaCtx::Full(full), lua, hook, turns: ToolLoop::new(false) }
            },
            LlamaCtx::Continuous(mut continuous) => {
                let mut prompts = continuous.replace_system_prompt(Vec::new());
                normalize(&mut prompts, &mut hook);
                let _ = continuous.replace_system_prompt(prompts);
                LuaLlama {
                    llm: LlamaCtx::Continuous(continuous),
                    lua,
                    hook,
                    turns: ToolLoop::new(true),
                }
            },
        }
    }
}

/// After a script gave a value, the next turn is made of that value by the
/// tool-result transform: the loop asks for the transform, takes no input
/// from outside in its place, and submits what the transform made as the
/// user's turn.
pub proof fn law_tool_result_is_next_turn(
    machine: LoopView,
    value: Seq<char>,
    content: Seq<char>,
    input: Option<Seq<char>>,
)
    requires
        machine.state == LoopState::Evaluating,
    ensures
        ({
            let (waiting, reply) = machine.on_evaluated(OutcomeView::Value(value))->0;
            let (submitting, submit) = waiting.on_tool_content(content)->0;
            &&& machine.on_evaluated(OutcomeView::Value(value)) is Some
            &&& reply.tokens.len() == 0
            &&& reply.next == NextView::ToolResult(value)
            &&& reply.next != NextView::Input
            &&& waiting.on_input(input) is None
            &&& waiting.on_tool_content(content) is Some
            &&& submit.next == NextView::Submit(LoopView::inbound(content))
            &&& submit.next != NextView::Input
        }),
{
}

/// After a script gave nothing, there is no tool turn: the loop asks for
/// input from outside and takes no tool content.
pub proof fn law_absent_value_asks_input(machine: LoopView, content: Seq<char>)
    requires
        machine.state == LoopState::Evaluating,
    ensures
        ({
            let (waiting, reply) = machine.on_evaluated(OutcomeView::Absent)->0;
            &&& machine.on_evaluated(OutcomeView::Absent) is Some
            &&& reply.next == NextView::Input
            &&& waiting.state == LoopState::AwaitInput
            &&& waiting.on_tool_content(content) is None
        }),
{
}

/// After a script raised an error, the session goes on: the loop asks for
/// the error-formatting transform, submits what it made as it is, and
/// generates the next turn.
pub proof fn law_script_error_is_next_turn(
    machine: LoopView,
    message: Seq<char>,
    content: Seq<char>,
)
    requires
        machine.state == LoopState::Evaluating,
    ensures
        ({
            let (waiting, reply) = machine.on_evaluated(OutcomeView::Failed(message))->0;
            let (submitting, submit) = waiting.on_tool_content(content)->0;
            let (generating, begin) = submitting.on_submitted(None)->0;
            &&& machine.on_evaluated(OutcomeView::Failed(message)) is Some
            &&& reply.next == NextView::ScriptError(message)
            &&& waiting.on_tool_content(content) is Some
            &&& submit.next == NextView::Submit(LoopView::inbound(content))
            &&& submitting.on_submitted(None) is Some
            &&& generating.state == LoopState::Generating
            &&& begin.next == NextView::Token
        }),
{
}

/// A turn that the engine refused is told like any other and ends the
/// turn without an evaluation: its start is told, the stream is made to
/// fail with the refusal's message, and with that failure the message is
/// told as the last fragment, the end is told, and the loop waits for input
/// from outside.
pub proof fn law_refused_turn_ends_in_input(
    machine: LoopView,
    message: Seq<char>,
    content: Seq<char>,
)
    requires
        machine.state == LoopState::Submitting,
    ensures
        ({
            let (generating, begun) = machine.on_submitted(Some(message))->0;
            let (after, reply) = generating.on_stream(StepView::Failed(message), content)->0;
            &&& machine.on_submitted(Some(message)) is Some
            &&& begun.tokens == seq![TokenView::Start]
            &&& begun.next == NextView::Fail(message)
            &&& generating.on_stream(StepView::Failed(message), content) is Some
            &&& reply.tokens.len() == 2
            &&& reply.tokens[0] == TokenView::Chunk(message)
            &&& reply.tokens[1] is End
            &&& reply.next == NextView::Input
            &&& after.state == LoopState::AwaitInput
        }),
{
}

/// Every turn is told to the listener from start to end: generation opens
/// with the start callback, and the step that ends the stream closes with
/// the end callback, whatever the text, even if it is empty. A text is
/// evaluated only if the stream finished and the text is not empty and no
/// comment; after an engine failure the loop waits for input from outside.
pub proof fn law_every_turn_is_told(machine: LoopView, step: StepView, content: Seq<char>)
    requires
        machine.state == LoopState::Generating,
    ensures
        ({
            let (generating, begin) = machine.at(LoopState::Submitting).on_submitted(None)->0;
            let (after, reply) = machine.on_stream(step, content)->0;
            let ends = step is Finished || step is Failed;
            &&& begin.tokens == seq![TokenView::Start]
            &&& machine.on_stream(step, content) is Some
            &&& ends ==> reply.tokens.len() > 0 && reply.tokens.last() is End
            &&& ends ==> after.state != LoopState::Generating
            &&& !ends ==> after.state == LoopState::Generating && reply.next == NextView::Token
            &&& !ends ==> forall|i: int| 0 <= i < reply.tokens.len() ==> reply.tokens[i] is Chunk
            &&& reply.next matches NextView::Evaluate(text) ==> step is Finished && !is_noop(text)
            &&& step is Failed ==> after.state == LoopState::AwaitInput && reply.next
                == NextView::Input
        }),
{
}

} // verus!
