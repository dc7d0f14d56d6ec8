//! The two chat contexts: what each sends to the engine for a turn, and how
//! the token cursor and the history follow.
//!
//! A context never talks to the engine. For a turn it says which texts are
//! to be tokenized and whether the engine's cache is to be cleared first;
//! given the tokens, it says which batches are to be decoded and keeps the
//! batch that the first sampling step decodes.

use crate::llm::batch::{Batch, BatchEntry};
use crate::llm::sequence::{flushed_views, Sequence, SequenceView};
use crate::llm::{
    turn_views, ChatError, Content, ContentView, PromptTemplate, Role, RoleView, TemplateView,
};
use vstd::prelude::*;

verus! {

/// `encoding_rs::Decoder`, of which nothing is known but that it is passed
/// on.
#[verifier::external_type_specification]
#[verifier::external_body]
pub struct ExDecoder(encoding_rs::Decoder);

/// The pieces of bytes that a decoder was given since it was made, in the
/// order in which it was given them. What a decoder does next depends on
/// nothing else.
pub uninterp spec fn decoder_fed(decoder: encoding_rs::Decoder) -> Seq<Seq<u8>>;

/// The most bytes of UTF-8 that a decoder which `UTF_8.new_decoder()` made
/// and which was given the pieces `fed` can write for `length` more bytes,
/// as `encoding_rs` reckons it.
pub uninterp spec fn utf8_bound(fed: Seq<Seq<u8>>, length: nat) -> nat;

/// The text that a decoder which `UTF_8.new_decoder()` made and which was
/// given the pieces `fed` writes for the piece `bytes` when it has room for
/// all of it and the stream goes on: the characters that end in `bytes`,
/// with a replacement character for each malformed sequence. Bytes at the
/// end that may yet begin a character give no text until a later piece. A
/// byte order mark at the start of the stream gives no text, and one of
/// UTF-16 makes the decoder read the rest as UTF-16.
pub uninterp spec fn utf8_text(fed: Seq<Seq<u8>>, bytes: Seq<u8>) -> Seq<char>;

/// `encoding_rs::UTF_8.new_decoder()`: a decoder for UTF-8 at the start of
/// a stream, which looks for a byte order mark and was given nothing yet.
#[verifier::external_body]
fn new_utf8_decoder() -> (decoder: encoding_rs::Decoder)
    ensures
        decoder_fed(decoder) == Seq::<Seq<u8>>::empty(),
{
    encoding_rs::UTF_8.new_decoder()
}

/// `encoding_rs::Decoder::max_utf8_buffer_length`: the most bytes of UTF-8
/// that the decoder can write when it is given `byte_length` more bytes, or
/// nothing where that number is beyond `usize`.
#[verifier::external_body]
fn max_text_length(decoder: &encoding_rs::Decoder, byte_length: usize) -> (length: Option<usize>)
    ensures
        match length {
            Some(n) => n == utf8_bound(decoder_fed(*decoder), byte_length as nat),
            None => utf8_bound(decoder_fed(*decoder), byte_length as nat) > usize::MAX,
        },
{
    decoder.max_utf8_buffer_length(byte_length)
}

/// `encoding_rs::Decoder::decode_to_string` on a stream that goes on, into
/// a string with room for `capacity` bytes. With room for what
/// `max_utf8_buffer_length` gives, the decoder never stops for lack of
/// room: it takes all of `bytes` and writes their text. With less than 4
/// bytes of room, or less than that length, it may panic, and
/// `String::with_capacity` panics beyond `isize::MAX` bytes, so those
/// capacities are left out.
#[verifier::external_body]
fn decode_piece(decoder: &mut encoding_rs::Decoder, bytes: &[u8], capacity: usize) -> (text:
    String)
    requires
        4 <= capacity <= isize::MAX,
        utf8_bound(decoder_fed(*old(decoder)), bytes@.len()) <= capacity,
    ensures
        text@ == utf8_text(decoder_fed(*old(decoder)), bytes@),
        decoder_fed(*final(decoder)) == decoder_fed(*old(decoder)).push(bytes@),
{
    let mut text = String::with_capacity(capacity);
    let _ = decoder.decode_to_string(bytes, &mut text, false);
    text
}

/// Whether the text of `bytes` can be held in memory by a decoder that was
/// given `fed`: the most that it can come to is no more than a string can
/// hold.
pub open spec fn decodable(fed: Seq<Seq<u8>>, bytes: Seq<u8>) -> bool {
    utf8_bound(fed, bytes.len()) <= isize::MAX
}

/// The text of a token whose bytes are `bytes`, from a decoder that was
/// given `fed`: the decoder's text where it can be held in memory, and no
/// text where it cannot.
pub open spec fn token_text(fed: Seq<Seq<u8>>, bytes: Seq<u8>) -> Seq<char> {
    if decodable(fed, bytes) {
        utf8_text(fed, bytes)
    } else {
        Seq::empty()
    }
}

/// What a decoder that was given `fed` has been given once the bytes of a
/// token were decoded: bytes whose text could not be held are not given to
/// it.
pub open spec fn fed_after(fed: Seq<Seq<u8>>, bytes: Seq<u8>) -> Seq<Seq<u8>> {
    if decodable(fed, bytes) {
        fed.push(bytes)
    } else {
        fed
    }
}

/// Decodes the bytes of a token with room for all that they can give. A
/// token whose text could not be held in memory gives no text and is not
/// given to the decoder.
fn decode_token(decoder: &mut encoding_rs::Decoder, bytes: &[u8]) -> (text: String)
    ensures
        text@ == token_text(decoder_fed(*old(decoder)), bytes@),
        decoder_fed(*final(decoder)) == fed_after(decoder_fed(*old(decoder)), bytes@),
{
    match room_for(max_text_length(decoder, bytes.len())) {
        Some(capacity) => decode_piece(decoder, bytes, capacity),
        None => String::new(),
    }
}

/// The room that a text is given which can take up to `length` bytes: that
/// length, and 4 bytes at the least, which the decoder always wants; none
/// where a string cannot be that long or the length is beyond counting.
pub open spec fn room(length: Option<usize>) -> Option<usize> {
    match length {
        Some(length) => if length > isize::MAX {
            None
        } else if length < 4 {
            Some(4usize)
        } else {
            Some(length)
        },
        None => None,
    }
}

/// The room that a text is given which can take up to `length` bytes.
fn room_for(length: Option<usize>) -> (capacity: Option<usize>)
    ensures
        capacity == room(length),
{
    match length {
        Some(length) => if length > isize::MAX as usize {
            None
        } else if length < 4 {
            Some(4)
        } else {
            Some(length)
        },
        None => None,
    }
}

/// What a caller asks of a context.
#[derive(Debug, Clone, PartialEq, Eq)]
pub enum ChatRequest {
    /// One more turn of the running conversation.
    Once(Content),
    /// A whole conversation in place of the running one.
    Full(Vec<Content>),
}

/// The mathematical value of a [`ChatRequest`].
pub enum RequestView {
    Once(ContentView),
    Full(Seq<ContentView>),
}

impl View for ChatRequest {
    type V = RequestView;

    open spec fn view(&self) -> RequestView {
        match self {
            ChatRequest::Once(message) => RequestView::Once(message@),
            ChatRequest::Full(turns) => RequestView::Full(turn_views(turns@)),
        }
    }
}

/// A text that the engine is to tokenize, with or without its leading
/// marker.
#[derive(Debug, Clone, PartialEq, Eq)]
pub struct PromptText {
    pub text: String,
    pub add_bos: bool,
}

/// What the engine has to do before the tokens of a turn can be submitted:
/// clear its cache or not, then tokenize the texts and join the tokens in
/// the order of the list.
#[derive(Debug, Clone, PartialEq, Eq)]
pub struct TurnPlan {
    pub clear_cache: bool,
    pub texts: Vec<PromptText>,
}

/// The mathematical value of a [`TurnPlan`].
pub struct PlanView {
    pub clear_cache: bool,
    pub texts: Seq<(Seq<char>, bool)>,
}

impl View for TurnPlan {
    type V = PlanView;

    open spec fn view(&self) -> PlanView {
        PlanView {
            clear_cache: self.clear_cache,
            texts: Seq::new(
                self.texts@.len(),
                |i: int| (self.texts@[i].text@, self.texts@[i].add_bos),
            ),
        }
    }
}

/// The mathematical value of a [`LlamaModelContext`].
pub struct ContextView {
    pub template: TemplateView,
    pub system_prompt: Seq<ContentView>,
    /// Whether the tokens of no turn were taken yet, so that the system
    /// prompt is still to be sent.
    pub first_turn: bool,
    /// Whether the last prompt ended in the assistant's header.
    pub primed: bool,
    pub sequence: SequenceView,
    /// The bytes that were decoded to text since the last turn was
    /// started, token by token.
    pub fed: Seq<Seq<u8>>,
}

impl ContextView {
    /// What a continuous context sends for `message`: on its first turn the
    /// system prompt and then the turn, afterwards the turn alone. The cache
    /// is never cleared.
    pub open spec fn plan(self, message: ContentView) -> PlanView {
        let turn = (self.template.encoded(seq![message]), true);
        PlanView {
            clear_cache: false,
            texts: if self.first_turn {
                seq![(self.template.encoded(self.system_prompt), false), turn]
            } else {
                seq![turn]
            },
        }
    }

    /// The context once the texts for `message` have been handed out. The
    /// system prompt stays to be sent until the tokens of a turn are taken:
    /// a turn whose texts the engine could not tokenize leaves no trace.
    pub open spec fn after_message(self, message: ContentView) -> ContextView {
        ContextView { primed: self.template.primes(seq![message]), ..self }
    }

    /// The context once a turn with `message` has been started: its texts
    /// are handed out, and text decoding starts afresh.
    pub open spec fn started(self, message: ContentView) -> ContextView {
        ContextView { fed: Seq::empty(), ..self.after_message(message) }
    }

    /// The context once the bytes of a token have been decoded.
    pub open spec fn decoded(self, bytes: Seq<u8>) -> ContextView {
        ContextView { fed: fed_after(self.fed, bytes), ..self }
    }

    /// The context with its sequence in another state.
    pub open spec fn with_sequence(self, sequence: SequenceView) -> ContextView {
        ContextView { sequence, ..self }
    }

    /// The context once the tokens of a turn have been scheduled and
    /// `pending` is what stays in the batch: the system prompt is sent with
    /// the first turn's tokens and is not sent again.
    pub open spec fn after_tokens(self, tokens: Seq<i32>, pending: Seq<BatchEntry>) -> ContextView {
        ContextView {
            first_turn: false,
            sequence: self.sequence.after_tokens(tokens, pending),
            ..self
        }
    }

    /// The context after the tokens of a turn were handed in, with the
    /// sequence in the state `sequence`: where they were taken, the first
    /// turn is over; where they were refused, the context is as it was.
    pub open spec fn submitted(self, taken: bool, sequence: SequenceView) -> ContextView {
        if taken {
            ContextView { first_turn: false, sequence, ..self }
        } else {
            self
        }
    }
}

/// The context that keeps the engine's cache warm: every turn adds its own
/// tokens behind those that the engine already holds.
pub struct LlamaModelContext {
    decoder: encoding_rs::Decoder,
    sequence: Sequence,
    template: PromptTemplate,
    pub system_prompt: Vec<Content>,
    first_chat: bool,
    primed: bool,
}

impl View for LlamaModelContext {
    type V = ContextView;

    closed spec fn view(&self) -> ContextView {
        ContextView {
            template: self.template@,
            system_prompt: turn_views(self.system_prompt@),
            first_turn: self.first_chat,
            primed: self.primed,
            sequence: self.sequence@,
            fed: decoder_fed(self.decoder),
        }
    }
}

/// The turns that a context starts with.
pub open spec fn initial_turns(turns: Option<Vec<Content>>) -> Seq<ContentView> {
    match turns {
        Some(turns) => turn_views(turns@),
        None => Seq::empty(),
    }
}

/// The given turns, or none.
fn turns_or_none(turns: Option<Vec<Content>>) -> (list: Vec<Content>)
    ensures
        turn_views(list@) == initial_turns(turns),
{
    match turns {
        Some(turns) => turns,
        None => {
            let list: Vec<Content> = Vec::new();
            assert(turn_views(list@) =~= Seq::<ContentView>::empty());
            list
        },
    }
}

impl LlamaModelContext {
    /// A context for an engine that decodes at most `n_batch` tokens at once
    /// and ends a sequence with the token `eos`. The cursor is at 0 and the
    /// system prompt has not been sent yet.
    pub fn new(
        template: PromptTemplate,
        n_batch: usize,
        eos: i32,
        system_prompt: Option<Vec<Content>>,
    ) -> (ctx: Self)
        ensures
            ctx@ == (ContextView {
                template: template@,
                system_prompt: initial_turns(system_prompt),
                first_turn: true,
                primed: false,
                sequence: SequenceView {
                    cursor: 0,
                    batch: Seq::empty(),
                    capacity: n_batch as nat,
                    eos,
                },
                fed: Seq::empty(),
            }),
    {
        LlamaModelContext {
            decoder: new_utf8_decoder(),
            sequence: Sequence::new(n_batch, eos),
            template,
            system_prompt: turns_or_none(system_prompt),
            first_chat: true,
            primed: false,
        }
    }

    /// The template of the context.
    pub fn template(&self) -> (template: &PromptTemplate)
        ensures
            template@ == self@.template,
    {
        &self.template
    }

    /// The number of tokens that were appended to the engine's sequence.
    pub fn cursor(&self) -> (n: usize)
        ensures
            n == self@.sequence.cursor,
    {
        self.sequence.cursor()
    }

    /// The batch that the next decode takes.
    pub fn batch(&self) -> (batch: &Batch)
        ensures
            batch@ == self@.sequence.batch,
            batch.limit() == self@.sequence.capacity,
    {
        self.sequence.batch()
    }

    /// Whether the last prompt ended in the assistant's header, so that the
    /// engine starts with the message itself.
    pub fn is_primed(&self) -> (b: bool)
        ensures
            b == self@.primed,
    {
        self.primed
    }

    /// Puts `turns` in the place of the system prompt and gives back the
    /// turns that were there.
    pub fn replace_system_prompt(&mut self, turns: Vec<Content>) -> (before: Vec<Content>)
        ensures
            turn_views(before@) == old(self)@.system_prompt,
            final(self)@ == (ContextView { system_prompt: turn_views(turns@), ..old(self)@ }),
    {
        let mut turns = turns;
        std::mem::swap(&mut self.system_prompt, &mut turns);
        turns
    }

    /// Says what is to be tokenized for `message`.
    ///
    /// The first turn of a context sends the system prompt before the turn
    /// itself; later turns send only themselves: what was sent stays in the
    /// engine's cache and is never sent again. The first turn lasts until
    /// the tokens of a turn are taken by `submit_tokens`.
    pub fn user_message(&mut self, message: Content) -> (plan: TurnPlan)
        ensures
            plan@ == old(self)@.plan(message@),
            final(self)@ == old(self)@.after_message(message@),
    {
        let mut texts: Vec<PromptText> = Vec::new();
        if self.first_chat {
            let system = self.template.encode_string(self.system_prompt.as_slice());
            texts.push(PromptText { text: system, add_bos: false });
        }
        let one = vec![message];
        assert(turn_views(one@) =~= seq![message@]);
        let turn = self.template.encode_string(one.as_slice());
        texts.push(PromptText { text: turn, add_bos: true });
        self.primed = !one[0].role.is_assistant();
        let plan = TurnPlan { clear_cache: false, texts };
        assert(plan@.texts =~= old(self)@.plan(message@).texts);
        plan
    }

    /// Starts a turn.
    ///
    /// A single turn is accepted: the result says what is to be tokenized
    /// for it, and text decoding starts afresh. A request that would replace
    /// the running conversation is refused, and the context is left as it
    /// was.
    pub fn chat(&mut self, request: ChatRequest) -> (r: Result<TurnPlan, ChatError>)
        ensures
            match request {
                ChatRequest::Once(message) => {
                    &&& r matches Ok(plan)
                    &&& plan@ == old(self)@.plan(message@)
                    &&& final(self)@ == old(self)@.started(message@)
                },
                ChatRequest::Full(_) => {
                    &&& r == Err::<TurnPlan, ChatError>(ChatError::Unsupported)
                    &&& final(self)@ == old(self)@
                },
            },
    {
        match request {
            ChatRequest::Once(message) => {
                let plan = self.user_message(message);
                self.decoder = new_utf8_decoder();
                Ok(plan)
            },
            ChatRequest::Full(_) => Err(ChatError::Unsupported),
        }
    }

    /// Takes the tokens of a turn.
    ///
    /// The tokens get the positions from the cursor on and are scheduled
    /// into batches by flush-on-full; the cursor advances by their number.
    /// The result lists the batches that the engine is to decode now, in
    /// order; the last batch stays in the context. Where the tokens cannot
    /// be scheduled the context is left as it was. With the tokens taken,
    /// the system prompt is sent and the first turn is over.
    pub fn submit_tokens(&mut self, tokens: &[i32]) -> (r: Result<Vec<Vec<BatchEntry>>, ChatError>)
        ensures
            old(self)@.sequence.appends(tokens@, flushed_views(r), final(self)@.sequence),
            final(self)@ == old(self)@.submitted(r is Ok, final(self)@.sequence),
    {
        let r = self.sequence.submit_tokens(tokens);
        if r.is_ok() {
            self.first_chat = false;
        }
        r
    }

    /// Takes the token that the engine sampled and says whether it ends the
    /// sequence.
    ///
    /// The token becomes the only entry of the batch, at the cursor's
    /// position and asking for logits, and the cursor advances by one. Where
    /// it cannot be scheduled the context is left as it was.
    pub fn take_a_token(&mut self, token: i32) -> (r: Result<bool, ChatError>)
        ensures
            old(self)@.sequence.samples(token, r, final(self)@.sequence),
            final(self)@ == old(self)@.with_sequence(final(self)@.sequence),
    {
        self.sequence.take_a_token(token)
    }

    /// The text that the bytes of a sampled token add to the turn: what the
    /// decoder of the turn, given the bytes decoded before, makes of them.
    /// The bytes of a character that is split over two tokens are held back
    /// until the character is complete.
    pub fn detokenize(&mut self, bytes: &[u8]) -> (text: String)
        ensures
            text@ == token_text(old(self)@.fed, bytes@),
            final(self)@ == old(self)@.decoded(bytes@),
    {
        decode_token(&mut self.decoder, bytes)
    }
}

/// The mathematical value of a [`LlamaModelFullPromptContext`].
pub struct FullContextView {
    pub template: TemplateView,
    pub history: Seq<ContentView>,
    /// Whether the last prompt ended in the assistant's header.
    pub primed: bool,
    pub sequence: SequenceView,
    /// The bytes that were decoded to text since the last turn was
    /// started, token by token.
    pub fed: Seq<Seq<u8>>,
}

impl FullContextView {
    /// The history that a request leaves: one more turn, or the given turns
    /// in place of the old ones.
    pub open spec fn history_after(self, request: RequestView) -> Seq<ContentView> {
        match request {
            RequestView::Once(message) => self.history.push(message),
            RequestView::Full(turns) => turns,
        }
    }

    /// What a full-rebuild context sends for a request: the cache is
    /// cleared and the whole history, the request included, is sent again.
    pub open spec fn plan(self, request: RequestView) -> PlanView {
        PlanView {
            clear_cache: true,
            texts: seq![(self.template.encoded(self.history_after(request)), true)],
        }
    }

    /// The context once the text for a request has been handed out: the
    /// cursor is back at 0, the batch is empty, and text decoding starts
    /// afresh.
    pub open spec fn after_request(self, request: RequestView) -> FullContextView {
        FullContextView {
            history: self.history_after(request),
            primed: self.template.primes(self.history_after(request)),
            sequence: self.sequence.restarted(),
            fed: Seq::empty(),
            ..self
        }
    }

    /// The context once the bytes of a token have been decoded.
    pub open spec fn decoded(self, bytes: Seq<u8>) -> FullContextView {
        FullContextView { fed: fed_after(self.fed, bytes), ..self }
    }

    /// The context with its sequence in another state.
    pub open spec fn with_sequence(self, sequence: SequenceView) -> FullContextView {
        FullContextView { sequence, ..self }
    }

    /// The context once `tokens` have been scheduled and `pending` is what
    /// stays in the batch.
    pub open spec fn after_tokens(
        self,
        tokens: Seq<i32>,
        pending: Seq<BatchEntry>,
    ) -> FullContextView {
        self.with_sequence(self.sequence.after_tokens(tokens, pending))
    }

    /// The context once `text` has been committed as the assistant's turn.
    pub open spec fn after_commit(self, text: Seq<char>) -> FullContextView {
        FullContextView {
            history: self.history.push(ContentView { role: RoleView::Assistant, message: text }),
            ..self
        }
    }

    /// The context after a step of its stream: when the step closed the
    /// stream, the text that the stream was left with has been committed.
    pub open spec fn committed_if(self, closed: bool, text: Seq<char>) -> FullContextView {
        if closed {
            self.after_commit(text)
        } else {
            self
        }
    }
}

/// The context that sends the whole conversation again for every turn.
pub struct LlamaModelFullPromptContext {
    decoder: encoding_rs::Decoder,
    sequence: Sequence,
    template: PromptTemplate,
    pub prompts: Vec<Content>,
    primed: bool,
}

impl View for LlamaModelFullPromptContext {
    type V = FullContextView;

    closed spec fn view(&self) -> FullContextView {
        FullContextView {
            template: self.template@,
            history: turn_views(self.prompts@),
            primed: self.primed,
            sequence: self.sequence@,
            fed: decoder_fed(self.decoder),
        }
    }
}

impl LlamaModelFullPromptContext {
    /// A context for an engine that decodes at most `n_batch` tokens at once
    /// and ends a sequence with the token `eos`. The history starts with the
    /// system prompts.
    pub fn new(
        template: PromptTemplate,
        n_batch: usize,
        eos: i32,
        system_prompts: Option<Vec<Content>>,
    ) -> (ctx: Self)
        ensures
            ctx@ == (FullContextView {
                template: template@,
                history: initial_turns(system_prompts),
                primed: false,
                sequence: SequenceView {
                    cursor: 0,
                    batch: Seq::empty(),
                    capacity: n_batch as nat,
                    eos,
                },
                fed: Seq::empty(),
            }),
    {
        LlamaModelFullPromptContext {
            decoder: new_utf8_decoder(),
            sequence: Sequence::new(n_batch, eos),
            template,
            prompts: turns_or_none(system_prompts),
            primed: false,
        }
    }

    /// The template of the context.
    pub fn template(&self) -> (template: &PromptTemplate)
        ensures
            template@ == self@.template,
    {
        &self.template
    }

    /// The number of tokens that were appended to the engine's sequence
    /// since the cache was last cleared.
    pub fn cursor(&self) -> (n: usize)
        ensures
            n == self@.sequence.cursor,
    {
        self.sequence.cursor()
    }

    /// The batch that the next decode takes.
    pub fn batch(&self) -> (batch: &Batch)
        ensures
            batch@ == self@.sequence.batch,
            batch.limit() == self@.sequence.capacity,
    {
        self.sequence.batch()
    }

    /// Whether the last prompt ended in the assistant's header, so that the
    /// engine starts with the message itself.
    pub fn is_primed(&self) -> (b: bool)
        ensures
            b == self@.primed,
    {
        self.primed
    }

    /// Puts `turns` in the place of the history and gives back the turns
    /// that were there.
    pub fn replace_history(&mut self, turns: Vec<Content>) -> (before: Vec<Content>)
        ensures
            turn_views(before@) == old(self)@.history,
            final(self)@ == (FullContextView { history: turn_views(turns@), ..old(self)@ }),
    {
        let mut turns = turns;
        std::mem::swap(&mut self.prompts, &mut turns);
        turns
    }

    /// Appends a turn to the history.
    pub fn add_message(&mut self, message: Content)
        ensures
            final(self)@ == (FullContextView {
                history: old(self)@.history.push(message@),
                ..old(self)@
            }),
    {
        self.prompts.push(message);
        assert(turn_views(self.prompts@) =~= turn_views(old(self).prompts@).push(message@));
    }

    /// Starts a turn.
    ///
    /// The request's turn joins the history, or its turns replace it. The
    /// cursor goes back to 0, the batch is emptied and text decoding starts
    /// afresh. The result tells the engine to clear its cache and to
    /// tokenize the whole history. Every request is accepted.
    pub fn chat(&mut self, request: ChatRequest) -> (r: Result<TurnPlan, ChatError>)
        ensures
            r matches Ok(plan) && plan@ == old(self)@.plan(request@),
            final(self)@ == old(self)@.after_request(request@),
    {
        match request {
            ChatRequest::Once(message) => {
                self.add_message(message);
            },
            ChatRequest::Full(prompts) => {
                self.prompts = prompts;
            },
        }
        self.decoder = new_utf8_decoder();
        Ok(self.reset_batch_with_prompt())
    }

    /// Empties the batch, puts the cursor back to 0 and encodes the whole
    /// history for a fresh start of the engine.
    fn reset_batch_with_prompt(&mut self) -> (plan: TurnPlan)
        ensures
            plan@ == (PlanView {
                clear_cache: true,
                texts: seq![(old(self)@.template.encoded(old(self)@.history), true)],
            }),
            final(self)@ == (FullContextView {
                primed: old(self)@.template.primes(old(self)@.history),
                sequence: old(self)@.sequence.restarted(),
                ..old(self)@
            }),
    {
        self.sequence.restart();
        let n = self.prompts.len();
        self.primed = n > 0 && !self.prompts[n - 1].role.is_assistant();
        let text = self.template.encode_string(self.prompts.as_slice());
        let plan = TurnPlan { clear_cache: true, texts: vec![PromptText { text, add_bos: true }] };
        assert(plan@.texts =~= seq![(old(self)@.template.encoded(old(self)@.history), true)]);
        plan
    }

    /// Takes the tokens of the encoded history.
    ///
    /// The tokens get the positions from the cursor on and are scheduled
    /// into batches by flush-on-full; the cursor advances by their number.
    /// The result lists the batches that the engine is to decode now, in
    /// order; the last batch stays in the context. Where the tokens cannot
    /// be scheduled the context is left as it was.
    pub fn submit_tokens(&mut self, tokens: &[i32]) -> (r: Result<Vec<Vec<BatchEntry>>, ChatError>)
        ensures
            old(self)@.sequence.appends(tokens@, flushed_views(r), final(self)@.sequence),
            final(self)@ == old(self)@.with_sequence(final(self)@.sequence),
    {
        self.sequence.submit_tokens(tokens)
    }

    /// Takes the token that the engine sampled and says whether it ends the
    /// sequence.
    ///
    /// The token becomes the only entry of the batch, at the cursor's
    /// position and asking for logits, and the cursor advances by one. Where
    /// it cannot be scheduled the context is left as it was.
    pub fn take_a_token(&mut self, token: i32) -> (r: Result<bool, ChatError>)
        ensures
            old(self)@.sequence.samples(token, r, final(self)@.sequence),
            final(self)@ == old(self)@.with_sequence(final(self)@.sequence),
    {
        self.sequence.take_a_token(token)
    }

    /// The text that the bytes of a sampled token add to the turn: what the
    /// decoder of the turn, given the bytes decoded before, makes of them.
    /// The bytes of a character that is split over two tokens are held back
    /// until the character is complete.
    pub fn detokenize(&mut self, bytes: &[u8]) -> (text: String)
        ensures
            text@ == token_text(old(self)@.fed, bytes@),
            final(self)@ == old(self)@.decoded(bytes@),
    {
        decode_token(&mut self.decoder, bytes)
    }

    /// Appends `text` to the history as the assistant's turn.
    pub fn commit(&mut self, text: String)
        ensures
            final(self)@ == old(self)@.after_commit(text@),
    {
        self.add_message(Content { role: Role::Assistant, message: text });
    }
}

/// A chat context of either kind.
pub enum LlamaCtx {
    Full(LlamaModelFullPromptContext),
    Continuous(LlamaModelContext),
}

impl LlamaCtx {
    /// Starts a turn in the context, whatever its kind: a full-rebuild
    /// context takes every request, a continuous one a single turn only.
    pub fn chat(&mut self, request: ChatRequest) -> (r: Result<TurnPlan, ChatError>)
        ensures
            match (*old(self), *final(self)) {
                (LlamaCtx::Full(before), LlamaCtx::Full(after)) => {
                    &&& r matches Ok(plan)
                    &&& plan@ == before@.plan(request@)
                    &&& after@ == before@.after_request(request@)
                },
                (LlamaCtx::Continuous(before), LlamaCtx::Continuous(after)) => match request {
                    ChatRequest::Once(message) => {
                        &&& r matches Ok(plan)
                        &&& plan@ == before@.plan(message@)
                        &&& after@ == before@.started(message@)
                    },
                    ChatRequest::Full(_) => {
                        &&& r == Err::<TurnPlan, ChatError>(ChatError::Unsupported)
                        &&& after@ == before@
                    },
                },
                _ => false,
            },
    {
        match self {
            LlamaCtx::Full(ctx) => ctx.chat(request),
            LlamaCtx::Continuous(ctx) => ctx.chat(request),
        }
    }

    /// Takes the tokens of a turn into the context, whatever its kind. The
    /// result lists the batches that the engine is to decode now.
    pub fn submit_tokens(&mut self, tokens: &[i32]) -> (r: Result<Vec<Vec<BatchEntry>>, ChatError>)
        ensures
            match (*old(self), *final(self)) {
                (LlamaCtx::Full(before), LlamaCtx::Full(after)) => {
                    &&& before@.sequence.appends(tokens@, flushed_views(r), after@.sequence)
                    &&& after@ == before@.with_sequence(after@.sequence)
                },
                (LlamaCtx::Continuous(before), LlamaCtx::Continuous(after)) => {
                    &&& before@.sequence.appends(tokens@, flushed_views(r), after@.sequence)
                    &&& after@ == before@.submitted(r is Ok, after@.sequence)
                },
                _ => false,
            },
    {
        match self {
            LlamaCtx::Full(ctx) => ctx.submit_tokens(tokens),
            LlamaCtx::Continuous(ctx) => ctx.submit_tokens(tokens),
        }
    }
}

impl From<LlamaModelFullPromptContext> for LlamaCtx {
    fn from(llm: LlamaModelFullPromptContext) -> (ctx: LlamaCtx) {
        LlamaCtx::Full(llm)
    }
}

impl vstd::std_specs::convert::FromSpecImpl<LlamaModelFullPromptContext> for LlamaCtx {
    open spec fn obeys_from_spec() -> bool {
        true
    }

    open spec fn from_spec(llm: LlamaModelFullPromptContext) -> LlamaCtx {
        LlamaCtx::Full(llm)
    }
}

impl From<LlamaModelContext> for LlamaCtx {
    fn from(llm: LlamaModelContext) -> (ctx: LlamaCtx) {
        LlamaCtx::Continuous(llm)
    }
}

impl vstd::std_specs::convert::FromSpecImpl<LlamaModelContext> for LlamaCtx {
    open spec fn obeys_from_spec() -> bool {
        true
    }

    open spec fn from_spec(llm: LlamaModelContext) -> LlamaCtx {
        LlamaCtx::Continuous(llm)
    }
}

} // verus!
