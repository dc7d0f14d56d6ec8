//! Laws of the prompt template, of the stream and of the contexts.

use crate::llm::batch::BatchEntry;
use crate::llm::context::{ContextView, FullContextView, PlanView, RequestView};
use crate::llm::stream::{StepView, StreamState, StreamView};
use crate::llm::{lemma_stop_token_ends_text, ContentView, RoleView, TemplateView};
use crate::text::{lemma_concat_affixes, without_suffix};
use vstd::prelude::*;

verus! {

/// The primer header is never empty: it holds the assistant's name.
pub proof fn lemma_primer_not_empty(t: TemplateView)
    ensures
        t.primer().len() >= 9,
{
    reveal_strlit("assistant");
}

/// The prompt for a conversation ends with the primer header whenever the
/// last turn is not the assistant's. When the last turn is the assistant's,
/// no primer is added: the prompt is the transcript, and it ends with the
/// primer's characters only if the transcript itself happens to.
pub proof fn law_encode_primes(t: TemplateView, turns: Seq<ContentView>)
    requires
        turns.len() > 0,
    ensures
        turns.last().role != RoleView::Assistant ==> t.encoded(turns) == t.transcript(turns)
            + t.primer(),
        turns.last().role == RoleView::Assistant ==> t.encoded(turns) == t.transcript(turns),
        t.primer().is_suffix_of(t.encoded(turns)) <==> (turns.last().role != RoleView::Assistant
            || t.primer().is_suffix_of(t.transcript(turns))),
{
    if turns.last().role != RoleView::Assistant {
        lemma_concat_affixes(t.transcript(turns), t.primer());
    }
}

/// The prompt for a single turn is the turn's own text, followed by the
/// primer header unless the turn is the assistant's. So it ends with the
/// primer whenever the turn is not the assistant's; and when it is, only if
/// the turn's own text ends with the primer's characters.
pub proof fn law_encode_single_turn(t: TemplateView, turn: ContentView)
    ensures
        t.encoded(seq![turn]) == if turn.role != RoleView::Assistant {
            t.turn_text(turn) + t.primer()
        } else {
            t.turn_text(turn)
        },
        t.primer().is_suffix_of(t.encoded(seq![turn])) <==> (turn.role != RoleView::Assistant
            || t.primer().is_suffix_of(t.turn_text(turn))),
{
    let turns = seq![turn];
    assert(turns.last() == turn);
    assert(turns.drop_last() =~= Seq::<ContentView>::empty());
    assert(t.transcript(turns.drop_last()) =~= Seq::<char>::empty());
    assert(t.transcript(turns) =~= t.turn_text(turn));
    law_encode_primes(t, turns);
}

/// Taking a stop from the end of a text leaves the text as it is exactly
/// when the first stop that the text ends with, from `from` on, is empty or
/// there is none. Otherwise the text gets shorter.
pub proof fn lemma_strip_stop_length(t: TemplateView, text: Seq<char>, from: int)
    requires
        0 <= from,
    ensures
        t.strip_stop_from(text, from).len() <= text.len(),
        t.strip_stop_from(text, from) == text <==> (forall|i: int| #[trigger]
            t.first_stop_from(text, from, i) ==> t.stops[i].len() == 0),
    decreases t.stops.len() - from,
{
    let fixed = forall|i: int| #[trigger]
        t.first_stop_from(text, from, i) ==> t.stops[i].len() == 0;
    if from >= t.stops.len() {
        assert(fixed);
    } else if t.stops[from].is_suffix_of(text) {
        let stop = t.stops[from];
        assert(t.first_stop_from(text, from, from));
        assert(t.strip_stop_from(text, from) == without_suffix(text, stop));
        assert(without_suffix(text, stop).len() == text.len() - stop.len());
        if stop.len() == 0 {
            assert(without_suffix(text, stop) =~= text);
            assert forall|i: int| #[trigger]
                t.first_stop_from(text, from, i) implies t.stops[i].len() == 0 by {
                if i > from {
                    assert(t.stops[from].is_suffix_of(text));
                }
            }
            assert(fixed);
        } else {
            assert(!fixed);
        }
    } else {
        lemma_strip_stop_length(t, text, from + 1);
        assert(t.strip_stop_from(text, from) == t.strip_stop_from(text, from + 1));
        let fixed_next = forall|i: int| #[trigger]
            t.first_stop_from(text, from + 1, i) ==> t.stops[i].len() == 0;
        assert forall|i: int| #[trigger]
            t.first_stop_from(text, from, i) implies t.first_stop_from(text, from + 1, i) by {
            assert(i != from);
        }
        assert forall|i: int| #[trigger]
            t.first_stop_from(text, from + 1, i) implies t.first_stop_from(text, from, i) by {
            assert forall|j: int| from <= j < i implies !(#[trigger] t.stops[j]).is_suffix_of(
                text,
            ) by {}
        }
        assert(fixed == fixed_next);
    }
}

/// Trimming leaves a text as it is exactly when the text is a bare message.
pub proof fn law_trim_fixes_bare(t: TemplateView, text: Seq<char>)
    ensures
        t.trimmed(text) == text <==> t.bare(text),
        t.trimmed(text).len() <= text.len(),
{
    lemma_primer_not_empty(t);
    let unprimed = t.strip_primer(text);
    lemma_strip_stop_length(t, unprimed, 0);
    if t.primer().is_prefix_of(text) {
        assert(unprimed.len() == text.len() - t.primer().len());
        assert(t.trimmed(text).len() < text.len());
    }
}

/// Trimming a second time changes nothing, where the first trimming left
/// a bare message.
pub proof fn law_trim_idempotent(t: TemplateView, text: Seq<char>)
    requires
        t.bare(t.trimmed(text)),
    ensures
        t.trimmed(t.trimmed(text)) == t.trimmed(text),
{
    law_trim_fixes_bare(t, t.trimmed(text));
}

/// Trimming a second time goes on where the first trimming stopped: a
/// trimmed text that still starts with a primer header, or still ends with
/// a stop, gets shorter again. With the single stop `\n`, the text
/// `a\n\n` is trimmed to `a\n` and then to `a`.
pub proof fn law_trim_goes_on(t: TemplateView, text: Seq<char>)
    requires
        !t.bare(t.trimmed(text)),
    ensures
        t.trimmed(t.trimmed(text)).len() < t.trimmed(text).len(),
{
    law_trim_fixes_bare(t, t.trimmed(text));
    lemma_trim_shortens(t, t.trimmed(text));
}

/// A text that trimming changes gets shorter.
pub proof fn lemma_trim_shortens(t: TemplateView, text: Seq<char>)
    ensures
        t.trimmed(text) != text ==> t.trimmed(text).len() < text.len(),
{
    lemma_primer_not_empty(t);
    let unprimed = t.strip_primer(text);
    lemma_strip_stop_shortens(t, unprimed, 0);
    if t.primer().is_prefix_of(text) {
        assert(unprimed.len() == text.len() - t.primer().len());
    }
}

/// A text from whose end a stop was taken, and which changed by it, got
/// shorter.
pub proof fn lemma_strip_stop_shortens(t: TemplateView, text: Seq<char>, from: int)
    requires
        0 <= from,
    ensures
        t.strip_stop_from(text, from) != text ==> t.strip_stop_from(text, from).len() < text.len(),
    decreases t.stops.len() - from,
{
    if from >= t.stops.len() {
    } else if t.stops[from].is_suffix_of(text) {
        let stop = t.stops[from];
        if stop.len() == 0 {
            assert(without_suffix(text, stop) =~= text);
        }
    } else {
        lemma_strip_stop_shortens(t, text, from + 1);
    }
}

/// The stream after the first `n` of `pieces` were pushed, one by one.
pub open spec fn run(s: StreamView, t: TemplateView, pieces: Seq<Seq<char>>, n: int) -> StreamView
    decreases n,
{
    if n <= 0 {
        s
    } else {
        run(s, t, pieces, n - 1).push(t, pieces[n - 1])
    }
}

/// The first `n` of `pieces` as one text.
pub open spec fn joined(pieces: Seq<Seq<char>>, n: int) -> Seq<char> {
    pieces.take(n).flatten()
}

/// One more piece is joined at the end.
pub proof fn lemma_joined_next(pieces: Seq<Seq<char>>, n: int)
    requires
        0 < n <= pieces.len(),
    ensures
        joined(pieces, n) == joined(pieces, n - 1) + pieces[n - 1],
        joined(pieces, 0) == Seq::<char>::empty(),
{
    assert(pieces.take(n) =~= pieces.take(n - 1).push(pieces[n - 1]));
    pieces.take(n - 1).lemma_flatten_push(pieces[n - 1]);
    assert(pieces.take(0) =~= Seq::<Seq<char>>::empty());
}

/// A stream in the body that is given pieces of text either has closed, or
/// holds all of them behind its text and saw no stop at the end of any
/// piece.
pub proof fn lemma_run_in_body(t: TemplateView, content: Seq<char>, pieces: Seq<Seq<char>>, n: int)
    requires
        0 <= n <= pieces.len(),
    ensures
        ({
            let s = StreamView { content, state: StreamState::InBody };
            ||| run(s, t, pieces, n).state == StreamState::Closed && exists|m: int|
                0 < m <= n && t.ends_with_stop(content + #[trigger] joined(pieces, m))
            ||| run(s, t, pieces, n) == (StreamView {
                content: content + joined(pieces, n),
                state: StreamState::InBody,
            }) && forall|m: int|
                0 < m <= n ==> !t.ends_with_stop(content + #[trigger] joined(pieces, m))
        }),
    decreases n,
{
    let s = StreamView { content, state: StreamState::InBody };
    if n == 0 {
        assert(pieces.take(0) =~= Seq::<Seq<char>>::empty());
        assert(content + joined(pieces, 0) =~= content);
    } else {
        lemma_run_in_body(t, content, pieces, n - 1);
        lemma_joined_next(pieces, n);
        let before = run(s, t, pieces, n - 1);
        if before.state == StreamState::Closed {
            let m = choose|m: int|
                0 < m <= n - 1 && t.ends_with_stop(content + #[trigger] joined(pieces, m));
            assert(0 < m <= n && t.ends_with_stop(content + joined(pieces, m)));
        } else {
            let piece = pieces[n - 1];
            lemma_stop_token_ends_text(t, before.content, piece);
            assert(before.content + piece =~= content + joined(pieces, n));
            if t.stops_at(before.content, piece) {
                assert(0 < n <= n && t.ends_with_stop(content + joined(pieces, n)));
            } else {
                assert forall|m: int| 0 < m <= n implies !t.ends_with_stop(
                    content + #[trigger] joined(pieces, m),
                ) by {
                    if m < n {
                    }
                }
            }
        }
    }
}

/// A stop ends the turn however the engine cuts it into tokens: when the
/// characters of a stop arrive in any number of pieces, the stream has
/// closed by the last of them. A closed stream stays closed, so the turn
/// ends once.
pub proof fn law_split_stop_closes(
    t: TemplateView,
    content: Seq<char>,
    pieces: Seq<Seq<char>>,
    k: int,
)
    requires
        0 <= k < t.stops.len(),
        pieces.len() > 0,
        pieces.flatten() == t.stops[k],
    ensures
        run(
            StreamView { content, state: StreamState::InBody },
            t,
            pieces,
            pieces.len() as int,
        ).state == StreamState::Closed,
        forall|text: Seq<char>|
            (StreamView { content, state: StreamState::Closed }).push(t, text) == (StreamView {
                content,
                state: StreamState::Closed,
            }),
{
    let n = pieces.len() as int;
    lemma_run_in_body(t, content, pieces, n);
    assert(pieces.take(n) =~= pieces);
    lemma_concat_affixes(content, t.stops[k]);
    assert(t.stops[k].is_suffix_of(content + joined(pieces, n)));
}

/// What a reader sees of a stop that arrives in pieces, when no stop ends
/// the text before the last piece: every piece but the last is handed on
/// as it is, the last piece closes the stream, and the stream is left with
/// the trimmed text.
pub proof fn law_split_stop_output(
    t: TemplateView,
    content: Seq<char>,
    pieces: Seq<Seq<char>>,
    k: int,
)
    requires
        0 <= k < t.stops.len(),
        pieces.len() > 0,
        pieces.flatten() == t.stops[k],
        forall|m: int|
            0 < m < pieces.len() ==> !t.ends_with_stop(content + #[trigger] joined(pieces, m)),
    ensures
        ({
            let s = StreamView { content, state: StreamState::InBody };
            let last = pieces.len() - 1;
            &&& forall|n: int|
                0 <= n < last ==> (#[trigger] run(s, t, pieces, n)).push_step(t, pieces[n])
                    == StepView::Visible(pieces[n])
            &&& run(s, t, pieces, last).push_step(t, pieces[last]) == StepView::Finished
            &&& run(s, t, pieces, last + 1) == (StreamView {
                content: t.trimmed(content + t.stops[k]),
                state: StreamState::Closed,
            })
        }),
{
    let s = StreamView { content, state: StreamState::InBody };
    let last = pieces.len() - 1;
    assert forall|n: int| 0 <= n <= last implies (#[trigger] run(s, t, pieces, n)) == (StreamView {
        content: content + joined(pieces, n),
        state: StreamState::InBody,
    }) by {
        lemma_run_in_body(t, content, pieces, n);
    }
    assert forall|n: int| 0 <= n < last implies (#[trigger] run(s, t, pieces, n)).push_step(
        t,
        pieces[n],
    ) == StepView::Visible(pieces[n]) by {
        let before = run(s, t, pieces, n);
        lemma_joined_next(pieces, n + 1);
        lemma_stop_token_ends_text(t, before.content, pieces[n]);
        assert(before.content + pieces[n] =~= content + joined(pieces, n + 1));
    }
    let before = run(s, t, pieces, last);
    lemma_joined_next(pieces, last + 1);
    assert(pieces.take(last + 1) =~= pieces);
    lemma_stop_token_ends_text(t, before.content, pieces[last]);
    assert(before.content + pieces[last] =~= content + t.stops[k]);
    lemma_concat_affixes(content, t.stops[k]);
    assert(t.stops[k].is_suffix_of(content + t.stops[k]));
}

/// Trimming takes a stop from the end of a text and gives back what came
/// before it, when that stop is the first in the list that the whole text
/// ends with and the text does not start with the primer header.
pub proof fn law_trim_takes_stop(t: TemplateView, content: Seq<char>, k: int)
    requires
        t.first_stop_from(content + t.stops[k], 0, k),
        !t.primer().is_prefix_of(content + t.stops[k]),
    ensures
        t.trimmed(content + t.stops[k]) == content,
{
    let text = content + t.stops[k];
    lemma_first_stop_is_taken(t, text, 0, k);
    lemma_concat_affixes(content, t.stops[k]);
    assert(without_suffix(text, t.stops[k]) =~= content);
}

/// A turn that ends with a stop is committed without it, however the
/// engine cuts the stop into tokens: when the characters of a stop arrive
/// after `content` in any number of pieces, the stream closes with the last
/// piece and is left with `content`, the text before the stop.
///
/// This holds where the stop is met as a whole and first: no stop ends the
/// text before the last piece, the stop is the first in the list that the
/// whole text ends with, and the text does not start with the primer
/// header. With the single stop `aa`, the text `xa` and the pieces `a`,
/// `a`, the stream closes with the first piece already, and is left with
/// `x`.
pub proof fn law_split_stop_leaves_content(
    t: TemplateView,
    content: Seq<char>,
    pieces: Seq<Seq<char>>,
    k: int,
)
    requires
        0 <= k < t.stops.len(),
        pieces.len() > 0,
        pieces.flatten() == t.stops[k],
        forall|m: int|
            0 < m < pieces.len() ==> !t.ends_with_stop(content + #[trigger] joined(pieces, m)),
        t.first_stop_from(content + t.stops[k], 0, k),
        !t.primer().is_prefix_of(content + t.stops[k]),
    ensures
        run(
            StreamView { content, state: StreamState::InBody },
            t,
            pieces,
            pieces.len() as int,
        ) == (StreamView { content, state: StreamState::Closed }),
{
    law_split_stop_output(t, content, pieces, k);
    law_trim_takes_stop(t, content, k);
}

/// Trimming undoes what an echoing engine adds to a message: the primer
/// header in front of it and the stop behind it, when that stop is the
/// first in the list that the message with the stop ends with.
pub proof fn law_trim_recovers_message(t: TemplateView, message: Seq<char>, k: int)
    requires
        t.first_stop_from(message + t.stops[k], 0, k),
    ensures
        t.trimmed(t.primer() + message + t.stops[k]) == message,
{
    let tail = message + t.stops[k];
    let text = t.primer() + message + t.stops[k];
    assert(text =~= t.primer() + tail);
    lemma_concat_affixes(t.primer(), tail);
    assert(t.strip_primer(text) =~= tail);
    lemma_first_stop_is_taken(t, tail, 0, k);
    lemma_concat_affixes(message, t.stops[k]);
    assert(without_suffix(tail, t.stops[k]) =~= message);
}

/// The stop that is taken from the end of a text is the first that the
/// text ends with.
pub proof fn lemma_first_stop_is_taken(t: TemplateView, text: Seq<char>, from: int, k: int)
    requires
        0 <= from,
        t.first_stop_from(text, from, k),
    ensures
        t.strip_stop_from(text, from) == without_suffix(text, t.stops[k]),
    decreases k - from,
{
    if from < k {
        assert(!t.stops[from].is_suffix_of(text));
        lemma_first_stop_is_taken(t, text, from + 1, k);
    }
}

/// The tokens that a tokenizer makes of the texts of a plan, joined in the
/// order of the plan.
pub open spec fn plan_tokens(
    plan: PlanView,
    tokenizer: spec_fn(Seq<char>, bool) -> Seq<i32>,
) -> Seq<i32> {
    Seq::new(plan.texts.len(), |i: int| tokenizer(plan.texts[i].0, plan.texts[i].1)).flatten()
}

/// In a continuous context the cursor grows, with the tokens of a turn, by
/// exactly the tokens of the system prompt, on the first turn only, and the
/// tokens of the new turn's encoding. Whatever the tokenizer, earlier turns
/// are never counted again.
pub proof fn law_continuous_cursor(
    c: ContextView,
    message: ContentView,
    tokenizer: spec_fn(Seq<char>, bool) -> Seq<i32>,
    pending: Seq<BatchEntry>,
)
    ensures
        ({
            let tokens = plan_tokens(c.plan(message), tokenizer);
            let after = c.after_message(message).after_tokens(tokens, pending);
            let system = tokenizer(c.template.encoded(c.system_prompt), false);
            let turn = tokenizer(c.template.encoded(seq![message]), true);
            let grown = after.sequence.cursor - c.sequence.cursor;
            &&& !c.plan(message).clear_cache
            &&& !after.first_turn
            &&& c.first_turn ==> tokens == system + turn && grown == system.len() + turn.len()
            &&& !c.first_turn ==> tokens == turn && grown == turn.len()
        }),
{
    let plan = c.plan(message);
    let texts = Seq::new(plan.texts.len(), |i: int| tokenizer(plan.texts[i].0, plan.texts[i].1));
    let system = tokenizer(c.template.encoded(c.system_prompt), false);
    let turn = tokenizer(c.template.encoded(seq![message]), true);
    if c.first_turn {
        assert(texts =~= seq![system].push(turn));
        seq![system].lemma_flatten_push(turn);
        assert(seq![system] =~= Seq::<Seq<i32>>::empty().push(system));
        Seq::<Seq<i32>>::empty().lemma_flatten_push(system);
        assert(texts.flatten() =~= system + turn);
    } else {
        assert(texts =~= Seq::<Seq<i32>>::empty().push(turn));
        Seq::<Seq<i32>>::empty().lemma_flatten_push(turn);
        assert(texts.flatten() =~= turn);
    }
}

/// In a full-rebuild context every turn starts with the cursor at 0 and a
/// cleared cache, and with the tokens of the turn the cursor is exactly
/// the number of tokens of the whole history, encoded again.
pub proof fn law_full_rebuild_cursor(
    c: FullContextView,
    request: RequestView,
    tokenizer: spec_fn(Seq<char>, bool) -> Seq<i32>,
    pending: Seq<BatchEntry>,
)
    ensures
        ({
            let started = c.after_request(request);
            let tokens = plan_tokens(c.plan(request), tokenizer);
            let history = tokenizer(c.template.encoded(started.history), true);
            &&& c.plan(request).clear_cache
            &&& started.sequence.cursor == 0
            &&& started.sequence.batch.len() == 0
            &&& tokens == history
            &&& started.after_tokens(tokens, pending).sequence.cursor == history.len()
        }),
{
    let plan = c.plan(request);
    let texts = Seq::new(plan.texts.len(), |i: int| tokenizer(plan.texts[i].0, plan.texts[i].1));
    let history = tokenizer(c.template.encoded(c.history_after(request)), true);
    assert(texts =~= Seq::<Seq<i32>>::empty().push(history));
    Seq::<Seq<i32>>::empty().lemma_flatten_push(history);
    assert(texts.flatten() =~= history);
}

} // verus!
