use lua_llama::llm::batch::BatchEntry;
use lua_llama::llm::context::{
    ChatRequest, LlamaCtx, LlamaModelContext, LlamaModelFullPromptContext, PromptText,
    TurnPlan,
};
use lua_llama::llm::{ChatError, Content, PromptTemplate, Role};

fn angle() -> PromptTemplate {
    PromptTemplate {
        header_prefix: "<A>".to_string(),
        header_suffix: ":".to_string(),
        end_of_content: "\n".to_string(),
        stops: vec!["\n\n".to_string()],
    }
}

fn turn(role: Role, message: &str) -> Content {
    Content { role, message: message.to_string() }
}

fn text(text: &str, add_bos: bool) -> PromptText {
    PromptText { text: text.to_string(), add_bos }
}

fn entry(token: i32, position: i32, logits: bool) -> BatchEntry {
    BatchEntry { token, position, sequence_id: 0, logits }
}

#[test]
fn continuous_context_starts_at_zero() {
    let ctx = LlamaModelContext::new(angle(), 4, 2, None);
    assert_eq!(ctx.cursor(), 0);
    assert_eq!(ctx.batch().n_tokens(), 0);
    assert_eq!(ctx.batch().capacity(), 4);
    assert!(ctx.system_prompt.is_empty());
    assert!(!ctx.is_primed());
    assert_eq!(ctx.template(), &angle());
}

#[test]
fn continuous_first_turn_sends_system_prompt_then_turn() {
    let system = vec![turn(Role::System, "be brief")];
    let mut ctx = LlamaModelContext::new(angle(), 4, 2, Some(system));
    let plan = ctx.chat(ChatRequest::Once(turn(Role::User, "hi"))).unwrap();
    assert_eq!(
        plan,
        TurnPlan {
            clear_cache: false,
            texts: vec![
                text("<A>system:be brief\n<A>assistant:", false),
                text("<A>user:hi\n<A>assistant:", true),
            ],
        }
    );
    assert!(ctx.is_primed());
}

#[test]
fn continuous_later_turns_send_only_themselves() {
    let system = vec![turn(Role::System, "be brief")];
    let mut ctx = LlamaModelContext::new(angle(), 4, 2, Some(system));
    ctx.chat(ChatRequest::Once(turn(Role::User, "hi"))).unwrap();
    ctx.submit_tokens(&[1, 2, 3]).unwrap();
    let plan = ctx.chat(ChatRequest::Once(turn(Role::User, "again"))).unwrap();
    assert_eq!(
        plan,
        TurnPlan { clear_cache: false, texts: vec![text("<A>user:again\n<A>assistant:", true)] }
    );
    let plan = ctx.user_message(turn(Role::Assistant, "so"));
    assert_eq!(plan, TurnPlan { clear_cache: false, texts: vec![text("<A>assistant:so\n", true)] });
    assert!(!ctx.is_primed());
}

#[test]
fn continuous_context_refuses_a_whole_conversation() {
    let mut ctx = LlamaModelContext::new(angle(), 4, 2, Some(vec![turn(Role::System, "s")]));
    let r = ctx.chat(ChatRequest::Full(vec![turn(Role::User, "hi")]));
    assert_eq!(r, Err(ChatError::Unsupported));
    assert_eq!(ChatError::Unsupported.message(), "no support for full chat");
    assert_eq!(ctx.cursor(), 0);
    assert_eq!(ctx.batch().n_tokens(), 0);
    let plan = ctx.chat(ChatRequest::Once(turn(Role::User, "hi"))).unwrap();
    assert_eq!(plan.texts.len(), 2);
    ctx.submit_tokens(&[1, 2, 3]).unwrap();
    assert_eq!(ctx.chat(ChatRequest::Full(vec![])), Err(ChatError::Unsupported));
    assert_eq!(ctx.cursor(), 3);
    assert_eq!(ctx.batch().n_tokens(), 3);
    let plan = ctx.chat(ChatRequest::Once(turn(Role::User, "hi"))).unwrap();
    assert_eq!(plan.texts.len(), 1);
}

#[test]
fn continuous_cursor_counts_every_token_once() {
    let mut ctx = LlamaModelContext::new(angle(), 4, 2, Some(vec![turn(Role::System, "s")]));
    let first = ctx.chat(ChatRequest::Once(turn(Role::User, "one"))).unwrap();
    assert_eq!(first.texts.len(), 2);
    let system_tokens = [1, 2, 3];
    let turn_tokens = [4, 5, 6, 7];
    let all: Vec<i32> = system_tokens.iter().chain(turn_tokens.iter()).copied().collect();
    let flushed = ctx.submit_tokens(&all).unwrap();
    assert_eq!(
        flushed,
        vec![vec![entry(1, 0, false), entry(2, 1, false), entry(3, 2, false), entry(4, 3, false)]]
    );
    assert_eq!(
        ctx.batch().entries(),
        &vec![entry(5, 4, false), entry(6, 5, false), entry(7, 6, true)]
    );
    assert_eq!(ctx.cursor(), 7);

    let second = ctx.chat(ChatRequest::Once(turn(Role::User, "two"))).unwrap();
    assert_eq!(second.texts.len(), 1);
    assert_eq!(ctx.cursor(), 7);
    let flushed = ctx.submit_tokens(&[8, 9]).unwrap();
    assert!(flushed.is_empty());
    assert_eq!(ctx.batch().entries(), &vec![entry(8, 7, false), entry(9, 8, true)]);
    assert_eq!(ctx.cursor(), 9);
}

#[test]
fn a_turn_whose_tokens_never_arrive_leaves_the_first_turn_open() {
    let system = vec![turn(Role::System, "be brief")];
    let mut ctx = LlamaModelContext::new(angle(), 4, 2, Some(system));
    let first = ctx.chat(ChatRequest::Once(turn(Role::User, "lost"))).unwrap();
    assert_eq!(first.texts.len(), 2);
    assert_eq!(ctx.cursor(), 0);
    let again = ctx.chat(ChatRequest::Once(turn(Role::User, "hi"))).unwrap();
    assert_eq!(
        again.texts,
        vec![
            text("<A>system:be brief\n<A>assistant:", false),
            text("<A>user:hi\n<A>assistant:", true),
        ]
    );
    ctx.submit_tokens(&[1, 2]).unwrap();
    let later = ctx.chat(ChatRequest::Once(turn(Role::User, "more"))).unwrap();
    assert_eq!(later.texts, vec![text("<A>user:more\n<A>assistant:", true)]);
}

#[test]
fn refused_tokens_leave_the_first_turn_open() {
    let mut ctx = LlamaModelContext::new(angle(), 0, 2, Some(vec![turn(Role::System, "s")]));
    ctx.chat(ChatRequest::Once(turn(Role::User, "hi"))).unwrap();
    assert_eq!(ctx.submit_tokens(&[1]), Err(ChatError::InsufficientSpace));
    let plan = ctx.chat(ChatRequest::Once(turn(Role::User, "hi"))).unwrap();
    assert_eq!(plan.texts.len(), 2);
    assert_eq!(ctx.take_a_token(1), Err(ChatError::InsufficientSpace));
}

#[test]
fn a_sampled_token_does_not_end_the_first_turn() {
    let mut ctx = LlamaModelContext::new(angle(), 4, 2, Some(vec![turn(Role::System, "s")]));
    assert_eq!(ctx.take_a_token(7), Ok(false));
    let plan = ctx.chat(ChatRequest::Once(turn(Role::User, "hi"))).unwrap();
    assert_eq!(plan.texts.len(), 2);
}

#[test]
fn continuous_sampled_token_is_the_next_batch() {
    let mut ctx = LlamaModelContext::new(angle(), 4, 2, None);
    ctx.submit_tokens(&[5, 6]).unwrap();
    assert_eq!(ctx.take_a_token(9), Ok(false));
    assert_eq!(ctx.batch().entries(), &vec![entry(9, 2, true)]);
    assert_eq!(ctx.cursor(), 3);
    assert_eq!(ctx.take_a_token(2), Ok(true));
    assert_eq!(ctx.batch().entries(), &vec![entry(2, 3, true)]);
    assert_eq!(ctx.cursor(), 4);
}

#[test]
fn context_without_batch_room_refuses_tokens() {
    let mut ctx = LlamaModelContext::new(angle(), 0, 2, None);
    assert_eq!(ctx.submit_tokens(&[1]), Err(ChatError::InsufficientSpace));
    assert_eq!(ctx.take_a_token(1), Err(ChatError::InsufficientSpace));
    assert_eq!(ctx.cursor(), 0);
    assert_eq!(ctx.submit_tokens(&[]), Ok(vec![]));
    assert_eq!(
        ChatError::InsufficientSpace.message(),
        "insufficient space in batch"
    );
    assert_eq!(
        ChatError::PositionOverflow.message(),
        "token position out of range"
    );
}

#[test]
fn replacing_the_system_prompt_hands_back_the_old_one() {
    let mut ctx = LlamaModelContext::new(angle(), 4, 2, Some(vec![turn(Role::System, "s")]));
    let old = ctx.replace_system_prompt(vec![turn(Role::System, "t"), turn(Role::User, "u")]);
    assert_eq!(old, vec![turn(Role::System, "s")]);
    assert_eq!(ctx.system_prompt, vec![turn(Role::System, "t"), turn(Role::User, "u")]);
}

#[test]
fn full_context_starts_with_the_system_prompts() {
    let ctx = LlamaModelFullPromptContext::new(angle(), 8, 2, Some(vec![turn(Role::System, "s")]));
    assert_eq!(ctx.prompts, vec![turn(Role::System, "s")]);
    assert_eq!(ctx.cursor(), 0);
    assert_eq!(ctx.batch().capacity(), 8);
    assert_eq!(ctx.template(), &angle());
    let none = LlamaModelFullPromptContext::new(angle(), 8, 2, None);
    assert!(none.prompts.is_empty());
}

#[test]
fn full_context_sends_the_whole_history_every_turn() {
    let mut ctx =
        LlamaModelFullPromptContext::new(angle(), 8, 2, Some(vec![turn(Role::System, "s")]));
    let plan = ctx.chat(ChatRequest::Once(turn(Role::User, "hi"))).unwrap();
    assert_eq!(
        plan,
        TurnPlan {
            clear_cache: true,
            texts: vec![text("<A>system:s\n<A>user:hi\n<A>assistant:", true)],
        }
    );
    assert_eq!(ctx.prompts, vec![turn(Role::System, "s"), turn(Role::User, "hi")]);
    assert!(ctx.is_primed());
    ctx.commit("hello".to_string());
    let plan = ctx.chat(ChatRequest::Once(turn(Role::User, "more"))).unwrap();
    assert_eq!(
        plan.texts,
        vec![text("<A>system:s\n<A>user:hi\n<A>assistant:hello\n<A>user:more\n<A>assistant:", true)]
    );
}

#[test]
fn full_context_takes_a_whole_conversation() {
    let mut ctx =
        LlamaModelFullPromptContext::new(angle(), 8, 2, Some(vec![turn(Role::System, "s")]));
    let plan = ctx
        .chat(ChatRequest::Full(vec![turn(Role::User, "a"), turn(Role::Assistant, "b")]))
        .unwrap();
    assert_eq!(
        plan,
        TurnPlan { clear_cache: true, texts: vec![text("<A>user:a\n<A>assistant:b\n", true)] }
    );
    assert_eq!(ctx.prompts, vec![turn(Role::User, "a"), turn(Role::Assistant, "b")]);
    assert!(!ctx.is_primed());
}

#[test]
fn full_cursor_restarts_with_every_turn() {
    let mut ctx = LlamaModelFullPromptContext::new(angle(), 2, 2, None);
    ctx.chat(ChatRequest::Once(turn(Role::User, "one"))).unwrap();
    assert_eq!(ctx.cursor(), 0);
    let flushed = ctx.submit_tokens(&[1, 2, 3, 4, 5]).unwrap();
    assert_eq!(
        flushed,
        vec![vec![entry(1, 0, false), entry(2, 1, false)], vec![entry(3, 2, false), entry(4, 3, false)]]
    );
    assert_eq!(ctx.batch().entries(), &vec![entry(5, 4, true)]);
    assert_eq!(ctx.cursor(), 5);
    assert_eq!(ctx.take_a_token(7), Ok(false));
    assert_eq!(ctx.cursor(), 6);

    ctx.chat(ChatRequest::Once(turn(Role::User, "two"))).unwrap();
    assert_eq!(ctx.cursor(), 0);
    assert_eq!(ctx.batch().n_tokens(), 0);
    ctx.submit_tokens(&[1, 2, 3, 4, 5, 6, 7, 8, 9]).unwrap();
    assert_eq!(ctx.cursor(), 9);
}

#[test]
fn full_context_history_can_be_replaced() {
    let mut ctx =
        LlamaModelFullPromptContext::new(angle(), 8, 2, Some(vec![turn(Role::System, "s")]));
    ctx.add_message(turn(Role::User, "u"));
    let old = ctx.replace_history(Vec::new());
    assert_eq!(old, vec![turn(Role::System, "s"), turn(Role::User, "u")]);
    assert!(ctx.prompts.is_empty());
}

#[test]
fn either_context_becomes_a_llama_ctx() {
    let full: LlamaCtx = LlamaModelFullPromptContext::new(angle(), 8, 2, None).into();
    assert!(matches!(full, LlamaCtx::Full(_)));
    let continuous = LlamaCtx::from(LlamaModelContext::new(angle(), 8, 2, None));
    assert!(matches!(continuous, LlamaCtx::Continuous(_)));
}

#[test]
fn a_llama_ctx_passes_requests_to_its_context() {
    let mut full: LlamaCtx = LlamaModelFullPromptContext::new(angle(), 2, 2, None).into();
    let plan = full.chat(ChatRequest::Full(vec![turn(Role::User, "a")])).unwrap();
    assert_eq!(
        plan,
        TurnPlan { clear_cache: true, texts: vec![text("<A>user:a\n<A>assistant:", true)] }
    );
    assert_eq!(full.submit_tokens(&[1, 2, 3]), Ok(vec![vec![entry(1, 0, false), entry(2, 1, false)]]));

    let mut continuous = LlamaCtx::from(LlamaModelContext::new(angle(), 2, 2, None));
    assert_eq!(
        continuous.chat(ChatRequest::Full(vec![turn(Role::User, "a")])),
        Err(ChatError::Unsupported)
    );
    let plan = continuous.chat(ChatRequest::Once(turn(Role::User, "a"))).unwrap();
    assert!(!plan.clear_cache);
    assert_eq!(plan.texts.len(), 2);
    assert_eq!(continuous.submit_tokens(&[1, 2]), Ok(vec![]));
    match &continuous {
        LlamaCtx::Continuous(ctx) => assert_eq!(ctx.cursor(), 2),
        LlamaCtx::Full(_) => panic!("the context changed its kind"),
    }
}

#[test]
fn decoding_assembles_characters_across_tokens() {
    let mut ctx = LlamaModelContext::new(angle(), 8, 2, None);
    assert_eq!(ctx.detokenize(b"Hel"), "Hel");
    assert_eq!(ctx.detokenize(&[0xE4, 0xB8]), "");
    assert_eq!(ctx.detokenize(&[0x8B, b'!']), "下!");
    assert_eq!(ctx.detokenize(&[0xFF]), "\u{FFFD}");
}

#[test]
fn decoding_keeps_all_of_a_long_token() {
    let mut ctx = LlamaModelContext::new(angle(), 8, 2, None);
    let long = "雨".repeat(200);
    assert_eq!(ctx.detokenize(long.as_bytes()), long);
    let broken = vec![0xFF; 100];
    assert_eq!(ctx.detokenize(&broken), "\u{FFFD}".repeat(100));
}

#[test]
fn decoding_starts_afresh_with_every_turn() {
    let mut ctx = LlamaModelFullPromptContext::new(angle(), 8, 2, None);
    assert_eq!(ctx.detokenize(&[0xE4, 0xB8]), "");
    ctx.chat(ChatRequest::Once(turn(Role::User, "hi"))).unwrap();
    assert_eq!(ctx.detokenize(b"a"), "a");
}

#[test]
fn continuous_turns_start_decoding_afresh() {
    let mut ctx = LlamaModelContext::new(angle(), 8, 2, None);
    assert_eq!(ctx.detokenize(&[0xE4, 0xB8]), "");
    ctx.chat(ChatRequest::Once(turn(Role::User, "hi"))).unwrap();
    assert_eq!(ctx.detokenize(b"a"), "a");
}

#[test]
fn a_refused_request_leaves_the_decoder_as_it_was() {
    let mut ctx = LlamaModelContext::new(angle(), 8, 2, None);
    assert_eq!(ctx.detokenize(&[0xE4, 0xB8]), "");
    assert_eq!(
        ctx.chat(ChatRequest::Full(vec![turn(Role::User, "hi")])),
        Err(ChatError::Unsupported)
    );
    assert_eq!(ctx.detokenize(&[0x8B]), "下");
}

#[test]
fn decoding_has_room_after_a_byte_held_back_at_the_start() {
    for first in [0xEF_u8, 0xFE, 0xFF] {
        let mut ctx = LlamaModelContext::new(angle(), 8, 2, None);
        assert_eq!(ctx.detokenize(&[first]), "");
        assert_eq!(ctx.detokenize(&[0x41]), "\u{FFFD}A");
        assert_eq!(ctx.detokenize(b"bc"), "bc");
    }
}

#[test]
fn decoding_has_room_after_two_bytes_held_back_at_the_start() {
    let mut ctx = LlamaModelFullPromptContext::new(angle(), 8, 2, None);
    assert_eq!(ctx.detokenize(&[0xEF]), "");
    assert_eq!(ctx.detokenize(&[0xBB]), "");
    assert_eq!(ctx.detokenize(&[0x41]), "\u{FFFD}A");
}

#[test]
fn a_byte_order_mark_at_the_start_of_a_turn_gives_no_text() {
    let mut ctx = LlamaModelContext::new(angle(), 8, 2, None);
    assert_eq!(ctx.detokenize(&[0xEF, 0xBB]), "");
    assert_eq!(ctx.detokenize(&[0xBF, b'a']), "a");
    assert_eq!(ctx.detokenize(&[0xEF, 0xBB, 0xBF]), "\u{FEFF}");
}

#[test]
fn decoding_no_bytes_gives_no_text() {
    let mut ctx = LlamaModelContext::new(angle(), 8, 2, None);
    assert_eq!(ctx.detokenize(&[]), "");
    assert_eq!(ctx.detokenize(&[0xE4]), "");
    assert_eq!(ctx.detokenize(&[]), "");
    assert_eq!(ctx.detokenize(&[0xB8, 0x8B]), "下");
}

#[test]
fn a_byte_order_mark_of_another_encoding_changes_the_decoding() {
    let mut ctx = LlamaModelContext::new(angle(), 8, 2, None);
    assert_eq!(ctx.detokenize(&[0xFF]), "");
    assert_eq!(ctx.detokenize(&[0xFE]), "");
    assert_eq!(ctx.detokenize(&[0x41, 0x00]), "A");
    ctx.chat(ChatRequest::Once(turn(Role::User, "hi"))).unwrap();
    assert_eq!(ctx.detokenize(&[0x41, 0x00]), "A\u{0}");
}
