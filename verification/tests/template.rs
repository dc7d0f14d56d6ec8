use lua_llama::llm::gemma::gemma2_prompt_template;
use lua_llama::llm::llama3::{hermes_2_pro_llama3_prompt_template, llama3_prompt_template};
use lua_llama::llm::qwen::qwen_prompt_template;
use lua_llama::llm::{Content, PromptTemplate, Role};

fn template(prefix: &str, suffix: &str, end: &str, stops: &[&str]) -> PromptTemplate {
    PromptTemplate {
        header_prefix: prefix.to_string(),
        header_suffix: suffix.to_string(),
        end_of_content: end.to_string(),
        stops: stops.iter().map(|s| s.to_string()).collect(),
    }
}

fn angle() -> PromptTemplate {
    template("<A>", ":", "\n", &["\n\n"])
}

fn turn(role: Role, message: &str) -> Content {
    Content { role, message: message.to_string() }
}

#[test]
fn role_names() {
    assert_eq!(Role::System.to_string(), "system");
    assert_eq!(Role::User.to_string(), "user");
    assert_eq!(Role::Assistant.to_string(), "assistant");
    assert_eq!(Role::Tool.to_string(), "tool");
    assert_eq!(Role::Other("critic".to_string()).to_string(), "critic");
}

#[test]
fn only_the_assistant_role_is_the_assistant() {
    assert!(Role::Assistant.is_assistant());
    assert!(!Role::User.is_assistant());
    assert!(!Role::Other("assistant".to_string()).is_assistant());
}

#[test]
fn copies_are_equal() {
    let c = turn(Role::Other("critic".to_string()), "hm");
    assert_eq!(c.duplicate(), c);
    assert_eq!(c.role.duplicate(), c.role);
    assert_eq!(angle().duplicate(), angle());
}

#[test]
fn encode_user_turn_is_primed() {
    let text = angle().encode_string(&[turn(Role::User, "hi")]);
    assert_eq!(text, "<A>user:hi\n<A>assistant:");
}

#[test]
fn encode_assistant_turn_is_not_primed() {
    let text = angle().encode_string(&[turn(Role::Assistant, "hello")]);
    assert_eq!(text, "<A>assistant:hello\n");
}

#[test]
fn encode_nothing_is_empty() {
    assert_eq!(angle().encode_string(&[]), "");
}

#[test]
fn encode_keeps_the_order_of_turns() {
    let turns = [
        turn(Role::System, "be brief"),
        turn(Role::User, "hi"),
        turn(Role::Assistant, "hello"),
        turn(Role::Tool, "{}"),
    ];
    assert_eq!(
        angle().encode_string(&turns),
        "<A>system:be brief\n<A>user:hi\n<A>assistant:hello\n<A>tool:{}\n<A>assistant:"
    );
}

#[test]
fn encode_primes_after_a_custom_role_named_assistant() {
    let text = angle().encode_string(&[turn(Role::Other("assistant".to_string()), "x")]);
    assert_eq!(text, "<A>assistant:x\n<A>assistant:");
}

#[test]
fn encode_ends_with_primer_exactly_when_due() {
    let t = angle();
    let primer = "<A>assistant:";
    for role in [Role::System, Role::User, Role::Tool, Role::Other("x".to_string())] {
        assert!(t.encode_string(&[turn(role, "m")]).ends_with(primer));
    }
    assert!(!t.encode_string(&[turn(Role::Assistant, "m")]).ends_with(primer));
}

#[test]
fn an_assistant_turn_that_is_all_header_looks_primed() {
    let t = template("", "", "", &["\n"]);
    assert_eq!(t.encode_string(&[turn(Role::Assistant, "")]), "assistant");
}

#[test]
fn post_handle_passes_ordinary_tokens() {
    let t = angle();
    assert_eq!(t.post_handle("lo".to_string(), "Hel"), Some("lo".to_string()));
    assert_eq!(t.post_handle("\n".to_string(), "Hello"), Some("\n".to_string()));
    assert_eq!(t.post_handle("".to_string(), ""), Some("".to_string()));
}

#[test]
fn post_handle_stops_at_a_stop_token() {
    assert_eq!(angle().post_handle("\n\n".to_string(), "Hello"), None);
    assert_eq!(angle().post_handle("\n\n".to_string(), ""), None);
}

#[test]
fn post_handle_stops_when_the_token_completes_a_stop() {
    let t = angle();
    assert_eq!(t.post_handle("\n".to_string(), "Hello\n"), None);
    assert_eq!(t.post_handle("!\n\n".to_string(), "Hello"), None);
    let long = template("<", ">", "", &["<|end|>"]);
    assert_eq!(long.post_handle("nd|>".to_string(), "text<|e"), None);
    assert_eq!(long.post_handle("nd|>".to_string(), "text<|f"), Some("nd|>".to_string()));
    assert_eq!(long.post_handle(">".to_string(), "<|end|"), None);
}

#[test]
fn ends_turn_agrees_with_post_handle() {
    let t = template("<", ">", "", &["<|end|>", "#"]);
    let cases = [
        ("", ""),
        ("Hello", "<|end|>"),
        ("Hello<|e", "nd|>"),
        ("Hello<|e", "nd|"),
        ("Hello", "#"),
        ("Hello#", "x"),
        ("Hello", " world"),
    ];
    for (content, token) in cases {
        let ends = t.ends_turn(token, content);
        assert_eq!(t.post_handle(token.to_string(), content).is_none(), ends);
        assert_eq!(format!("{content}{token}").ends_with("<|end|>") || token.ends_with('#'), ends);
    }
}

#[test]
fn post_handle_looks_at_the_end_only() {
    let t = angle();
    assert_eq!(t.post_handle("\n\nmore".to_string(), "Hello"), Some("\n\nmore".to_string()));
    assert_eq!(t.post_handle("x".to_string(), "Hello\n\n"), Some("x".to_string()));
}

#[test]
fn post_handle_tries_every_stop() {
    let t = template("<", ">", "", &["END", "#"]);
    assert_eq!(t.post_handle("#".to_string(), "a"), None);
    assert_eq!(t.post_handle("D".to_string(), "aEN"), None);
    assert_eq!(t.post_handle("E".to_string(), "a"), Some("E".to_string()));
}

#[test]
fn post_handle_without_stops_never_stops() {
    let t = template("<", ">", "", &[]);
    assert!(!t.is_valid());
    assert_eq!(t.post_handle("x".to_string(), "y"), Some("x".to_string()));
}

#[test]
fn an_empty_stop_always_stops() {
    let t = template("<", ">", "", &[""]);
    assert_eq!(t.post_handle("x".to_string(), "y"), None);
}

#[test]
fn trim_takes_the_stop_from_the_end() {
    let mut text = "Hello\n\n".to_string();
    angle().post_handle_content(&mut text);
    assert_eq!(text, "Hello");
}

#[test]
fn trim_takes_an_echoed_primer_from_the_front() {
    let mut text = "<A>assistant:Hello\n\n".to_string();
    angle().post_handle_content(&mut text);
    assert_eq!(text, "Hello");
    let mut only = "<A>assistant:".to_string();
    angle().post_handle_content(&mut only);
    assert_eq!(only, "");
}

#[test]
fn trim_leaves_a_bare_message() {
    let mut text = "Hello\n".to_string();
    angle().post_handle_content(&mut text);
    assert_eq!(text, "Hello\n");
    let mut empty = String::new();
    angle().post_handle_content(&mut empty);
    assert_eq!(empty, "");
}

#[test]
fn trim_takes_the_first_stop_in_the_list() {
    let first = template("<", ">", "", &["\n", "\n\n"]);
    let mut text = "a\n\n".to_string();
    first.post_handle_content(&mut text);
    assert_eq!(text, "a\n");
    let second = template("<", ">", "", &["\n\n", "\n"]);
    let mut text = "a\n\n".to_string();
    second.post_handle_content(&mut text);
    assert_eq!(text, "a");
}

#[test]
fn trim_takes_one_stop_only() {
    let t = template("<", ">", "", &["#", "!"]);
    let mut text = "a!#".to_string();
    t.post_handle_content(&mut text);
    assert_eq!(text, "a!");
}

#[test]
fn trim_twice_is_trim_once_on_bare_results() {
    for start in ["Hello\n\n", "<A>assistant:Hello\n\n", "Hello", "", "<A>assistant:"] {
        let mut once = start.to_string();
        angle().post_handle_content(&mut once);
        let mut twice = once.clone();
        angle().post_handle_content(&mut twice);
        assert_eq!(twice, once);
    }
}

#[test]
fn trim_twice_goes_on_where_a_stop_is_left() {
    let t = template("<", ">", "", &["\n"]);
    let mut text = "a\n\n".to_string();
    t.post_handle_content(&mut text);
    assert_eq!(text, "a\n");
    t.post_handle_content(&mut text);
    assert_eq!(text, "a");
}

#[test]
fn trim_handles_multibyte_text() {
    let t = template("«", "»", "", &["。"]);
    let mut text = "«assistant»下雨。".to_string();
    t.post_handle_content(&mut text);
    assert_eq!(text, "下雨");
}

#[test]
fn header_ends_with_the_header_suffix() {
    let t = llama3_prompt_template();
    assert!(t.is_end_of_header("<|end_header_id|>"));
    assert!(!t.is_end_of_header("assistant"));
    let g = gemma2_prompt_template();
    assert!(g.is_end_of_header("model\n"));
    assert!(g.is_end_of_header("\n"));
    assert!(!g.is_end_of_header("model"));
}

#[test]
fn llama3_template() {
    let t = llama3_prompt_template();
    assert_eq!(t, template("<|start_header_id|>", "<|end_header_id|>", "<|eot_id|>", &["<|eot_id|>", "#"]));
    assert!(t.is_valid());
    assert_eq!(
        t.encode_string(&[turn(Role::User, "hi")]),
        "<|start_header_id|>user<|end_header_id|>hi<|eot_id|><|start_header_id|>assistant<|end_header_id|>"
    );
    assert_eq!(t.post_handle("<|eot_id|>".to_string(), "4"), None);
    assert_eq!(t.post_handle("#".to_string(), "4"), None);
}

#[test]
fn hermes_template() {
    let t = hermes_2_pro_llama3_prompt_template();
    assert_eq!(t, template("<|im_start|>", "\r", "<|im_end|>\r", &["<|im_end|>"]));
    assert!(t.is_valid());
    assert_eq!(
        t.encode_string(&[turn(Role::Assistant, "ok")]),
        "<|im_start|>assistant\rok<|im_end|>\r"
    );
    let mut text = "ok<|im_end|>".to_string();
    t.post_handle_content(&mut text);
    assert_eq!(text, "ok");
}

#[test]
fn gemma_template() {
    let t = gemma2_prompt_template();
    assert_eq!(t, template("<start_of_turn>", "\n", "<end_of_turn>", &["<end_of_turn>"]));
    assert!(t.is_valid());
    assert_eq!(
        t.encode_string(&[turn(Role::User, "hi")]),
        "<start_of_turn>user\nhi<end_of_turn><start_of_turn>assistant\n"
    );
    assert_eq!(t.post_handle("<end_of_turn>".to_string(), "hello"), None);
}

#[test]
fn qwen_template() {
    let t = qwen_prompt_template();
    assert_eq!(t, template("<|im_start|>", "\n", "<|im_end|>\n", &["<|im_end|>"]));
    assert!(t.is_valid());
    assert_eq!(
        t.encode_string(&[turn(Role::System, "s"), turn(Role::User, "u")]),
        "<|im_start|>system\ns<|im_end|>\n<|im_start|>user\nu<|im_end|>\n<|im_start|>assistant\n"
    );
}
