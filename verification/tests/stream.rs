use lua_llama::llm::batch::BatchEntry;
use lua_llama::llm::context::{ChatRequest, LlamaModelContext, LlamaModelFullPromptContext};
use lua_llama::llm::stream::{StreamState, StreamStep};
use lua_llama::llm::{Content, PromptTemplate, Role};

fn template(prefix: &str, suffix: &str, end: &str, stops: &[&str]) -> PromptTemplate {
    PromptTemplate {
        header_prefix: prefix.to_string(),
        header_suffix: suffix.to_string(),
        end_of_content: end.to_string(),
        stops: stops.iter().map(|s| s.to_string()).collect(),
    }
}

fn angle() -> PromptTemplate {
    template("<A>", ":", "\n", &["\n\n"])
}

fn turn(role: Role, message: &str) -> Content {
    Content { role, message: message.to_string() }
}

fn visible(text: &str) -> StreamStep {
    StreamStep::Visible(text.to_string())
}

fn primed_full(t: PromptTemplate) -> LlamaModelFullPromptContext {
    let mut ctx = LlamaModelFullPromptContext::new(t, 4, 2, None);
    ctx.chat(ChatRequest::Once(turn(Role::User, "hi"))).unwrap();
    ctx.submit_tokens(&[1, 2, 3]).unwrap();
    ctx
}

fn primed_continuous(t: PromptTemplate) -> LlamaModelContext {
    let mut ctx = LlamaModelContext::new(t, 4, 2, None);
    ctx.chat(ChatRequest::Once(turn(Role::User, "hi"))).unwrap();
    ctx.submit_tokens(&[1, 2, 3]).unwrap();
    ctx
}

#[test]
fn hello_then_stop() {
    let ctx = primed_full(angle());
    let mut stream = ctx.stream();
    assert_eq!(stream.state(), StreamState::InBody);
    assert_eq!(stream.push("Hel".to_string()), visible("Hel"));
    assert_eq!(stream.push("lo".to_string()), visible("lo"));
    assert!(!stream.is_closed());
    assert_eq!(stream.push("\n\n".to_string()), StreamStep::Finished);
    assert!(stream.is_closed());
    let (ctx, text) = stream.finish();
    assert_eq!(text, "Hello");
    assert_eq!(ctx.prompts, vec![turn(Role::User, "hi"), turn(Role::Assistant, "Hello")]);
}

#[test]
fn hello_then_stop_from_bytes() {
    let ctx = primed_continuous(angle());
    let mut stream = ctx.stream();
    assert_eq!(stream.take_a_token(11), None);
    assert_eq!(stream.feed(b"Hel"), visible("Hel"));
    assert_eq!(stream.take_a_token(12), None);
    assert_eq!(stream.feed(b"lo"), visible("lo"));
    assert_eq!(stream.take_a_token(13), None);
    assert_eq!(stream.feed(b"\n\n"), StreamStep::Finished);
    assert_eq!(stream.content(), "Hello");
    let (ctx, text) = stream.finish();
    assert_eq!(text, "Hello");
    assert_eq!(ctx.cursor(), 6);
}

#[test]
fn a_stop_in_pieces_ends_the_turn_for_every_split() {
    let stop = "<|end|>";
    for first in 0..=stop.len() {
        for second in first..=stop.len() {
            let pieces = [&stop[..first], &stop[first..second], &stop[second..]];
            let ctx = primed_full(template("<", ">", "", &[stop]));
            let mut stream = ctx.stream();
            assert_eq!(stream.push("Hello".to_string()), visible("Hello"));
            let mut ends = 0;
            let mut shown = String::new();
            for piece in pieces {
                if stream.is_closed() {
                    break;
                }
                match stream.push(piece.to_string()) {
                    StreamStep::Visible(t) => shown.push_str(&t),
                    StreamStep::Finished => ends += 1,
                    other => panic!("unexpected step {other:?}"),
                }
            }
            assert_eq!(ends, 1);
            assert!(stream.is_closed());
            assert!(stop.starts_with(&shown));
            let (ctx, text) = stream.finish();
    assert_eq!(text, "Hello");
            assert_eq!(ctx.prompts.len(), 2);
            assert_eq!(ctx.prompts[1], turn(Role::Assistant, "Hello"));
        }
    }
}

#[test]
fn pieces_before_the_last_are_shown() {
    let ctx = primed_continuous(angle());
    let mut stream = ctx.stream();
    assert_eq!(stream.push("Hello".to_string()), visible("Hello"));
    assert_eq!(stream.push("\n".to_string()), visible("\n"));
    assert_eq!(stream.content(), "Hello\n");
    assert_eq!(stream.push("\n".to_string()), StreamStep::Finished);
    let (_, text) = stream.finish();
    assert_eq!(text, "Hello");
}

#[test]
fn an_earlier_stop_ends_the_turn_earlier() {
    let ctx = primed_continuous(template("<", ">", "", &["aa"]));
    let mut stream = ctx.stream();
    assert_eq!(stream.push("xa".to_string()), visible("xa"));
    assert_eq!(stream.push("a".to_string()), StreamStep::Finished);
    let (_, text) = stream.finish();
    assert_eq!(text, "x");
}

#[test]
fn text_before_a_stop_in_the_last_token_is_kept() {
    let ctx = primed_full(angle());
    let mut stream = ctx.stream();
    assert_eq!(stream.push("Hello".to_string()), visible("Hello"));
    assert_eq!(stream.push("!\n\n".to_string()), StreamStep::Finished);
    let (ctx, text) = stream.finish();
    assert_eq!(text, "Hello!");
    assert_eq!(ctx.prompts[1], turn(Role::Assistant, "Hello!"));
}

#[test]
fn an_echoed_primer_is_not_part_of_the_message() {
    let ctx = primed_full(angle());
    let mut stream = ctx.stream();
    assert_eq!(stream.push("<A>assistant:".to_string()), visible("<A>assistant:"));
    assert_eq!(stream.push("Hi".to_string()), visible("Hi"));
    assert_eq!(stream.push("\n\n".to_string()), StreamStep::Finished);
    assert_eq!(stream.llama_ctx().prompts[1], turn(Role::Assistant, "Hi"));
    let (ctx, _) = stream.finish();
    assert_eq!(ctx.prompts[1], turn(Role::Assistant, "Hi"));
}

#[test]
fn end_of_sequence_ends_the_turn() {
    let ctx = primed_full(angle());
    let mut stream = ctx.stream();
    assert_eq!(stream.take_a_token(7), None);
    assert_eq!(stream.feed(b"Hi"), visible("Hi"));
    assert_eq!(stream.take_a_token(2), Some(StreamStep::Finished));
    assert!(stream.is_closed());
    let (ctx, text) = stream.finish();
    assert_eq!(text, "Hi");
    assert_eq!(ctx.prompts[1], turn(Role::Assistant, "Hi"));
    assert_eq!(ctx.cursor(), 5);
    assert_eq!(
        ctx.batch().entries(),
        &vec![BatchEntry { token: 2, position: 4, sequence_id: 0, logits: true }]
    );
}

#[test]
fn end_of_sequence_trims_the_text() {
    let ctx = primed_continuous(template("<", ">", "", &["#"]));
    let mut stream = ctx.stream();
    assert_eq!(stream.push("<assistant>".to_string()), visible("<assistant>"));
    assert_eq!(stream.push("value".to_string()), visible("value"));
    assert_eq!(stream.take_a_token(2), Some(StreamStep::Finished));
    let (_, text) = stream.finish();
    assert_eq!(text, "value");
}

#[test]
fn an_empty_turn_is_committed_as_empty() {
    let ctx = primed_full(angle());
    let mut stream = ctx.stream();
    assert_eq!(stream.take_a_token(2), Some(StreamStep::Finished));
    let (ctx, text) = stream.finish();
    assert_eq!(text, "");
    assert_eq!(ctx.prompts[1], turn(Role::Assistant, ""));
}

#[test]
fn a_closed_stream_takes_nothing() {
    let ctx = primed_full(angle());
    let mut stream = ctx.stream();
    assert_eq!(stream.push("a".to_string()), visible("a"));
    assert_eq!(stream.push("\n\n".to_string()), StreamStep::Finished);
    assert_eq!(stream.push("more".to_string()), StreamStep::Finished);
    assert_eq!(stream.feed(b"more"), StreamStep::Finished);
    assert_eq!(stream.take_a_token(9), Some(StreamStep::Finished));
    assert_eq!(stream.fail("late".to_string()), StreamStep::Finished);
    let (ctx, text) = stream.finish();
    assert_eq!(text, "a");
    assert_eq!(ctx.prompts.len(), 2);
    assert_eq!(ctx.cursor(), 3);
}

#[test]
fn an_engine_failure_is_the_last_fragment() {
    let ctx = primed_full(angle());
    let mut stream = ctx.stream();
    assert_eq!(stream.push("par".to_string()), visible("par"));
    assert_eq!(
        stream.fail("decode failed".to_string()),
        StreamStep::Failed("decode failed".to_string())
    );
    assert!(stream.is_closed());
    let (mut ctx, text) = stream.finish();
    assert_eq!(text, "pardecode failed");
    assert_eq!(ctx.prompts[1], turn(Role::Assistant, "pardecode failed"));
    let plan = ctx.chat(ChatRequest::Once(turn(Role::User, "again"))).unwrap();
    assert!(plan.clear_cache);
}

#[test]
fn a_token_that_cannot_be_scheduled_fails_the_stream() {
    let mut ctx = LlamaModelContext::new(angle(), 0, 2, None);
    ctx.chat(ChatRequest::Once(turn(Role::User, "hi"))).unwrap();
    let mut stream = ctx.stream();
    assert_eq!(
        stream.take_a_token(5),
        Some(StreamStep::Failed("insufficient space in batch".to_string()))
    );
    assert!(stream.is_closed());
    let (ctx, text) = stream.finish();
    assert_eq!(text, "insufficient space in batch");
    assert_eq!(ctx.cursor(), 0);
}

#[test]
fn an_unprimed_stream_skips_the_header() {
    let mut ctx = LlamaModelFullPromptContext::new(angle(), 4, 2, None);
    ctx.chat(ChatRequest::Full(vec![turn(Role::User, "a"), turn(Role::Assistant, "b")])).unwrap();
    let mut stream = ctx.stream();
    assert_eq!(stream.state(), StreamState::InHeader);
    assert_eq!(stream.push("<A>".to_string()), StreamStep::Discarded);
    assert_eq!(stream.push("\n\n".to_string()), StreamStep::Discarded);
    assert_eq!(stream.push("user:".to_string()), StreamStep::Discarded);
    assert_eq!(stream.state(), StreamState::InBody);
    assert_eq!(stream.push("more".to_string()), visible("more"));
    assert_eq!(stream.push("\n\n".to_string()), StreamStep::Finished);
    let (ctx, text) = stream.finish();
    assert_eq!(text, "more");
    assert_eq!(ctx.prompts.len(), 3);
    assert_eq!(ctx.prompts[2], turn(Role::Assistant, "more"));
}

#[test]
fn a_fresh_context_streams_from_the_header() {
    let ctx = LlamaModelContext::new(angle(), 4, 2, None);
    let mut stream = ctx.stream();
    assert_eq!(stream.state(), StreamState::InHeader);
    assert_eq!(stream.take_a_token(2), Some(StreamStep::Finished));
    let (_, text) = stream.finish();
    assert_eq!(text, "");
}

#[test]
fn a_continuous_stream_leaves_the_commit_to_the_caller() {
    let ctx = primed_continuous(angle());
    let mut stream = ctx.stream();
    assert_eq!(stream.push("Hi".to_string()), visible("Hi"));
    assert_eq!(stream.push("\n\n".to_string()), StreamStep::Finished);
    let (ctx, text) = stream.finish();
    assert_eq!(text, "Hi");
    assert!(ctx.system_prompt.is_empty());
    assert_eq!(ctx.cursor(), 3);
}

#[test]
fn a_character_split_over_tokens_is_shown_when_complete() {
    let ctx = primed_continuous(angle());
    let mut stream = ctx.stream();
    assert_eq!(stream.feed(&[0xE4, 0xB8]), visible(""));
    assert_eq!(stream.feed(&[0x8B]), visible("下"));
    assert_eq!(stream.feed("雨".as_bytes()), visible("雨"));
    assert_eq!(stream.feed(b"\n\n"), StreamStep::Finished);
    let (_, text) = stream.finish();
    assert_eq!(text, "下雨");
}

#[test]
fn a_refused_turn_fails_its_stream_at_once() {
    let ctx = primed_full(angle());
    let mut stream = ctx.stream();
    assert_eq!(
        stream.refused(Some("no kv slot".to_string())),
        Some(StreamStep::Failed("no kv slot".to_string()))
    );
    assert!(stream.is_closed());
    let (ctx, text) = stream.finish();
    assert_eq!(text, "no kv slot");
    assert_eq!(ctx.prompts, vec![turn(Role::User, "hi"), turn(Role::Assistant, "no kv slot")]);

    let mut stream = primed_continuous(angle()).stream();
    assert_eq!(stream.refused(None), None);
    assert_eq!(stream.state(), StreamState::InBody);
    assert_eq!(stream.content(), "");
    assert_eq!(
        stream.refused(Some("late".to_string())),
        Some(StreamStep::Failed("late".to_string()))
    );
    assert_eq!(stream.refused(Some("again".to_string())), Some(StreamStep::Finished));
    assert_eq!(stream.llama_ctx().cursor(), 3);
}

#[test]
fn a_stream_shows_what_follows_a_byte_held_back_at_the_start() {
    let ctx = primed_continuous(angle());
    let mut stream = ctx.stream();
    assert_eq!(stream.feed(&[0xEF]), visible(""));
    assert_eq!(stream.feed(&[0x41]), visible("\u{FFFD}A"));
    assert_eq!(stream.feed(b"\n\n"), StreamStep::Finished);
    let (_, text) = stream.finish();
    assert_eq!(text, "\u{FFFD}A");
}

#[test]
fn a_full_stream_decodes_each_turn_from_its_start() {
    let ctx = primed_full(angle());
    let mut stream = ctx.stream();
    assert_eq!(stream.feed(&[0xE4, 0xB8]), visible(""));
    assert_eq!(stream.feed(b"\n\n"), StreamStep::Finished);
    let (mut ctx, _) = stream.finish();
    ctx.chat(ChatRequest::Once(turn(Role::User, "again"))).unwrap();
    let mut stream = ctx.stream();
    assert_eq!(stream.feed(b"ok"), visible("ok"));
}
