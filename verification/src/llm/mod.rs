//! Conversation turns and the prompt template that lays them out as text.

use crate::text::{
    ends_with, joined_ends_with, lemma_concat_affixes, strip_prefix, strip_suffix, without_prefix,
    without_suffix,
};
use vstd::prelude::*;
use vstd::string::StringExecFns;

pub mod batch;
pub mod context;
pub mod gemma;
pub mod laws;
pub mod llama3;
pub mod qwen;
pub mod sequence;
pub mod stream;

pub use crate::llm::batch::{Batch, BatchEntry};
pub use crate::llm::context::{
    ChatRequest, LlamaCtx, LlamaModelContext, LlamaModelFullPromptContext, PromptText, TurnPlan,
};
pub use crate::llm::sequence::Sequence;
pub use crate::llm::stream::{LlamaModelChatStream, StreamState, StreamStep};

verus! {

/// Why a request was refused.
#[derive(Debug, Clone, Copy, PartialEq, Eq, Structural)]
pub enum ChatError {
    /// The context does not take requests of this kind.
    Unsupported,
    /// The batch holds as many tokens as the engine accepts at once.
    InsufficientSpace,
    /// A token would get a position beyond what the engine can address.
    PositionOverflow,
}

impl ChatError {
    /// The error in words.
    pub open spec fn message_view(self) -> Seq<char> {
        match self {
            ChatError::Unsupported => "no support for full chat"@,
            ChatError::InsufficientSpace => "insufficient space in batch"@,
            ChatError::PositionOverflow => "token position out of range"@,
        }
    }

    /// The error in words.
    pub fn message(&self) -> (text: String)
        ensures
            text@ == self.message_view(),
    {
        match self {
            ChatError::Unsupported => "no support for full chat".to_owned(),
            ChatError::InsufficientSpace => "insufficient space in batch".to_owned(),
            ChatError::PositionOverflow => "token position out of range".to_owned(),
        }
    }
}

/// Who speaks in a turn.
#[derive(Debug, Clone, PartialEq, Eq)]
pub enum Role {
    System,
    User,
    Assistant,
    Tool,
    Other(String),
}

/// The mathematical value of a [`Role`].
pub enum RoleView {
    System,
    User,
    Assistant,
    Tool,
    Other(Seq<char>),
}

impl RoleView {
    /// The name under which the role appears in a turn header.
    pub open spec fn name(self) -> Seq<char> {
        match self {
            RoleView::System => "system"@,
            RoleView::User => "user"@,
            RoleView::Assistant => "assistant"@,
            RoleView::Tool => "tool"@,
            RoleView::Other(s) => s,
        }
    }
}

impl View for Role {
    type V = RoleView;

    open spec fn view(&self) -> RoleView {
        match self {
            Role::System => RoleView::System,
            Role::User => RoleView::User,
            Role::Assistant => RoleView::Assistant,
            Role::Tool => RoleView::Tool,
            Role::Other(s) => RoleView::Other(s@),
        }
    }
}

impl Role {
    /// The role's name as it is written into a turn header:
    /// `system`, `user`, `assistant`, `tool`, or the custom name itself.
    pub fn to_string(&self) -> (name: String)
        ensures
            name@ == self@.name(),
    {
        match self {
            Role::System => "system".to_owned(),
            Role::User => "user".to_owned(),
            Role::Assistant => "assistant".to_owned(),
            Role::Tool => "tool".to_owned(),
            Role::Other(s) => s.clone(),
        }
    }

    /// Whether this is the assistant's own role. A custom role that merely
    /// carries the name `assistant` is not.
    pub fn is_assistant(&self) -> (b: bool)
        ensures
            b == (self@ == RoleView::Assistant),
    {
        match self {
            Role::Assistant => true,
            _ => false,
        }
    }

    /// A copy of the role.
    pub fn duplicate(&self) -> (copy: Role)
        ensures
            copy@ == self@,
    {
        match self {
            Role::System => Role::System,
            Role::User => Role::User,
            Role::Assistant => Role::Assistant,
            Role::Tool => Role::Tool,
            Role::Other(s) => Role::Other(s.clone()),
        }
    }
}

/// One role-tagged message of a conversation.
#[derive(Debug, Clone, PartialEq, Eq)]
pub struct Content {
    pub role: Role,
    pub message: String,
}

/// The mathematical value of a [`Content`].
pub struct ContentView {
    pub role: RoleView,
    pub message: Seq<char>,
}

impl View for Content {
    type V = ContentView;

    open spec fn view(&self) -> ContentView {
        ContentView { role: self.role@, message: self.message@ }
    }
}

impl Content {
    /// A copy of the turn.
    pub fn duplicate(&self) -> (copy: Content)
        ensures
            copy@ == self@,
    {
        Content { role: self.role.duplicate(), message: self.message.clone() }
    }
}

/// The values of a list of turns, in order.
pub open spec fn turn_views(turns: Seq<Content>) -> Seq<ContentView> {
    Seq::new(turns.len(), |i: int| turns[i]@)
}

/// The values of a list of strings, in order.
pub open spec fn string_views(strings: Seq<String>) -> Seq<Seq<char>> {
    Seq::new(strings.len(), |i: int| strings[i]@)
}

/// How one model family writes turns and marks their end.
///
/// A turn is written as `header_prefix`, the role's name, `header_suffix`,
/// the message and `end_of_content`. Generation stops at the first of the
/// `stops`, which are tried in the order in which they are listed.
#[derive(Debug, Clone, PartialEq, Eq)]
pub struct PromptTemplate {
    pub header_prefix: String,
    pub header_suffix: String,
    pub end_of_content: String,
    pub stops: Vec<String>,
}

/// The mathematical value of a [`PromptTemplate`].
pub struct TemplateView {
    pub header_prefix: Seq<char>,
    pub header_suffix: Seq<char>,
    pub end_of_content: Seq<char>,
    pub stops: Seq<Seq<char>>,
}

impl View for PromptTemplate {
    type V = TemplateView;

    open spec fn view(&self) -> TemplateView {
        TemplateView {
            header_prefix: self.header_prefix@,
            header_suffix: self.header_suffix@,
            end_of_content: self.end_of_content@,
            stops: string_views(self.stops@),
        }
    }
}

impl TemplateView {
    /// A template can end a turn only if it names at least one stop.
    pub open spec fn valid(self) -> bool {
        self.stops.len() > 0
    }

    /// The header that opens a turn of the role with the given name.
    pub open spec fn header(self, role_name: Seq<char>) -> Seq<char> {
        self.header_prefix + role_name + self.header_suffix
    }

    /// The header that primes the engine to write an assistant turn.
    pub open spec fn primer(self) -> Seq<char> {
        self.header("assistant"@)
    }

    /// One turn as text: header, message, end marker.
    pub open spec fn turn_text(self, turn: ContentView) -> Seq<char> {
        self.header(turn.role.name()) + turn.message + self.end_of_content
    }

    /// All turns as text, one after the other.
    pub open spec fn transcript(self, turns: Seq<ContentView>) -> Seq<char>
        decreases turns.len(),
    {
        if turns.len() == 0 {
            Seq::empty()
        } else {
            self.transcript(turns.drop_last()) + self.turn_text(turns.last())
        }
    }

    /// Whether the encoding of `turns` is closed by a primer header: there is
    /// a last turn and it is not the assistant's.
    pub open spec fn primes(self, turns: Seq<ContentView>) -> bool {
        turns.len() > 0 && turns.last().role != RoleView::Assistant
    }

    /// The prompt text for `turns`: the transcript, followed by the primer
    /// header where the assistant is to speak next.
    pub open spec fn encoded(self, turns: Seq<ContentView>) -> Seq<char> {
        if self.primes(turns) {
            self.transcript(turns) + self.primer()
        } else {
            self.transcript(turns)
        }
    }

    /// Whether some stop is a suffix of `text`.
    pub open spec fn ends_with_stop(self, text: Seq<char>) -> bool {
        exists|i: int| 0 <= i < self.stops.len() && #[trigger] self.stops[i].is_suffix_of(text)
    }

    /// Whether `token`, arriving after `accumulated`, ends the turn: it is
    /// itself a stop, or it completes one at the end of the running text.
    pub open spec fn stops_at(self, accumulated: Seq<char>, token: Seq<char>) -> bool {
        self.stops.contains(token) || self.ends_with_stop(accumulated + token)
    }

    /// `text` without the first of the stops, from index `from` on, that it
    /// ends with; `text` itself where it ends with none of them.
    pub open spec fn strip_stop_from(self, text: Seq<char>, from: int) -> Seq<char>
        decreases self.stops.len() - from,
    {
        if from < 0 || from >= self.stops.len() {
            text
        } else if self.stops[from].is_suffix_of(text) {
            without_suffix(text, self.stops[from])
        } else {
            self.strip_stop_from(text, from + 1)
        }
    }

    /// `text` without a leading primer header.
    pub open spec fn strip_primer(self, text: Seq<char>) -> Seq<char> {
        if self.primer().is_prefix_of(text) {
            without_prefix(text, self.primer())
        } else {
            text
        }
    }

    /// The visible message in `text`: an echoed primer header is taken from
    /// its front, then the first matching stop from its end.
    pub open spec fn trimmed(self, text: Seq<char>) -> Seq<char> {
        self.strip_stop_from(self.strip_primer(text), 0)
    }

    /// Whether the stop at `index` is the first of the stops, from `from`
    /// on, that `text` ends with.
    pub open spec fn first_stop_from(self, text: Seq<char>, from: int, index: int) -> bool {
        &&& from <= index < self.stops.len()
        &&& self.stops[index].is_suffix_of(text)
        &&& forall|j: int| from <= j < index ==> !(#[trigger] self.stops[j]).is_suffix_of(text)
    }

    /// Whether `text` is a bare message, one that trimming leaves alone: it
    /// does not start with the primer header, and the first stop that it
    /// ends with, if there is one, is empty.
    pub open spec fn bare(self, text: Seq<char>) -> bool {
        &&& !self.primer().is_prefix_of(text)
        &&& forall|i: int| #[trigger]
            self.first_stop_from(text, 0, i) ==> self.stops[i].len() == 0
    }

    /// Whether `token` closes a header that the engine writes itself.
    pub open spec fn header_ends_at(self, token: Seq<char>) -> bool {
        self.header_suffix.is_suffix_of(token)
    }
}

impl PromptTemplate {
    /// Whether the template names at least one stop.
    pub fn is_valid(&self) -> (b: bool)
        ensures
            b == self@.valid(),
    {
        self.stops.len() > 0
    }

    /// The header that opens a turn of the role with the given name.
    fn header(&self, role_name: &str) -> (text: String)
        ensures
            text@ == self@.header(role_name@),
    {
        let mut text = self.header_prefix.clone();
        text.append(role_name);
        text.append(self.header_suffix.as_str());
        text
    }

    /// Lays the turns out as prompt text.
    ///
    /// Every turn is written as header, message and end marker. Where the
    /// last turn is not the assistant's, an assistant header without content
    /// follows, so that the engine continues with the assistant's message.
    pub fn encode_string(&self, content: &[Content]) -> (result: String)
        ensures
            result@ == self@.encoded(turn_views(content@)),
    {
        let ghost turns = turn_views(content@);
        let mut result = String::new();
        let mut i: usize = 0;
        while i < content.len()
            invariant
                i <= content.len(),
                turns == turn_views(content@),
                result@ == self@.transcript(turns.take(i as int)),
            decreases content.len() - i,
        {
            let c = &content[i];
            let name = c.role.to_string();
            proof {
                let next = turns.take(i + 1);
                assert(next.drop_last() =~= turns.take(i as int));
                assert(next.last() == c@);
            }
            result.append(self.header_prefix.as_str());
            result.append(name.as_str());
            result.append(self.header_suffix.as_str());
            result.append(c.message.as_str());
            result.append(self.end_of_content.as_str());
            assert(result@ =~= self@.transcript(turns.take(i as int)) + self@.turn_text(c@));
            i += 1;
        }
        assert(turns.take(content.len() as int) =~= turns);
        if content.len() > 0 {
            if !content[content.len() - 1].role.is_assistant() {
                let primer = self.header("assistant");
                result.append(primer.as_str());
            }
        }
        result
    }

    /// Whether `token` ends the turn that has gathered `content` so far: it
    /// is one of the stops, or the text ends with a stop once the token is
    /// appended.
    pub fn ends_turn(&self, token: &str, content: &str) -> (ends: bool)
        ensures
            ends == self@.stops_at(content@, token@),
    {
        let ghost stops = self@.stops;
        let ghost joined = content@ + token@;
        proof {
            lemma_stop_token_ends_text(self@, content@, token@);
        }
        let mut i: usize = 0;
        while i < self.stops.len()
            invariant
                i <= self.stops.len(),
                stops == self@.stops,
                joined == content@ + token@,
                forall|j: int| 0 <= j < i ==> !(#[trigger] stops[j]).is_suffix_of(joined),
            decreases self.stops.len() - i,
        {
            if joined_ends_with(content, token, self.stops[i].as_str()) {
                assert(stops[i as int].is_suffix_of(joined));
                return true;
            }
            i += 1;
        }
        false
    }

    /// Passes a raw token on or ends the turn.
    ///
    /// `content` is the text gathered before `token`. There is no result when
    /// the token ends the turn; otherwise the token comes back unchanged.
    pub fn post_handle(&self, token: String, content: &str) -> (visible: Option<String>)
        ensures
            self@.stops_at(content@, token@) ==> visible is None,
            !self@.stops_at(content@, token@) ==> visible == Some(token),
    {
        if self.ends_turn(token.as_str(), content) {
            None
        } else {
            Some(token)
        }
    }

    /// Reduces the text gathered in a turn to the visible message.
    ///
    /// A primer header at the front, left by an engine that echoes it, is
    /// removed. Then the first stop, in the order of the list, that the text
    /// ends with is removed from its end.
    pub fn post_handle_content(&self, content: &mut String)
        ensures
            final(content)@ == self@.trimmed(old(content)@),
    {
        let header = self.header("assistant");
        let unprimed = match strip_prefix(content.as_str(), header.as_str()) {
            Some(rest) => {
                proof {
                    lemma_concat_affixes(header@, rest@);
                }
                Some(rest.to_owned())
            },
            None => None,
        };
        if let Some(rest) = unprimed {
            *content = rest;
        }
        assert(content@ == self@.strip_primer(old(content)@));
        let ghost text = content@;
        let ghost stops = self@.stops;
        let mut i: usize = 0;
        while i < self.stops.len()
            invariant
                i <= self.stops.len(),
                stops == self@.stops,
                content@ == text,
                text == self@.strip_primer(old(content)@),
                self@.strip_stop_from(text, 0) == self@.strip_stop_from(text, i as int),
            decreases self.stops.len() - i,
        {
            let cut = match strip_suffix(content.as_str(), self.stops[i].as_str()) {
                Some(rest) => {
                    proof {
                        lemma_concat_affixes(rest@, stops[i as int]);
                    }
                    Some(rest.to_owned())
                },
                None => None,
            };
            if let Some(rest) = cut {
                assert(stops[i as int].is_suffix_of(text));
                assert(rest@ == without_suffix(text, stops[i as int]));
                *content = rest;
                return ;
            }
            assert(!stops[i as int].is_suffix_of(text));
            i += 1;
        }
    }

    /// Whether `token` closes a header written by the engine itself: it does
    /// when it ends with the template's header suffix.
    pub fn is_end_of_header(&self, token: &str) -> (b: bool)
        ensures
            b == self@.header_ends_at(token@),
    {
        ends_with(token, self.header_suffix.as_str())
    }

    /// A copy of the template.
    pub fn duplicate(&self) -> (copy: PromptTemplate)
        ensures
            copy@ == self@,
    {
        let mut stops: Vec<String> = Vec::new();
        let mut i: usize = 0;
        while i < self.stops.len()
            invariant
                i <= self.stops.len(),
                stops.len() == i,
                forall|j: int| 0 <= j < i ==> stops[j]@ == self.stops[j]@,
            decreases self.stops.len() - i,
        {
            stops.push(self.stops[i].clone());
            i += 1;
        }
        let copy = PromptTemplate {
            header_prefix: self.header_prefix.clone(),
            header_suffix: self.header_suffix.clone(),
            end_of_content: self.end_of_content.clone(),
            stops,
        };
        assert(copy@.stops =~= self@.stops);
        copy
    }
}

/// A token that is itself a stop also completes that stop at the end of the
/// running text, so looking at the end of the text finds every stop.
pub proof fn lemma_stop_token_ends_text(t: TemplateView, accumulated: Seq<char>, token: Seq<char>)
    ensures
        t.stops_at(accumulated, token) == t.ends_with_stop(accumulated + token),
{
    if t.stops.contains(token) {
        let i = choose|i: int| 0 <= i < t.stops.len() && t.stops[i] == token;
        lemma_concat_affixes(accumulated, token);
        assert(t.stops[i].is_suffix_of(accumulated + token));
    }
}

} // verus!
