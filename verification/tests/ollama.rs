use greeting_bot::capability::Failure;
use greeting_bot::config::Configuration;
use greeting_bot::ollama::OllamaAi;

fn remove_reasoning(text: &str) -> String {
    OllamaAi::remove_reasoning(text).expect("Failed to remove reasoning")
}

#[test]
fn ai_test_remove_reasoning_no_newline() {
    let text = "<think>My thoughts...</think>Hello world!";
    assert_eq!(remove_reasoning(text), "Hello world!");
    let text = "<think> My thoughts...</think> Hello world!";
    assert_eq!(remove_reasoning(text), " Hello world!");
}

#[test]
fn ai_test_remove_reasoning_with_newline() {
    let text = "<think>My thoughts...\nMore...</think>Hello world!";
    assert_eq!(remove_reasoning(text), "Hello world!");
    let text =
        "<think>My thoughts...\nMore...\nAND MORE!\n\n\n\nThoughts...</think>Hello world!";
    assert_eq!(remove_reasoning(text), "Hello world!");
}

#[test]
fn ollama_ai_test_remove_reasoning_no_newline() {
    let text = "<think>My thoughts...</think>Hello world!";
    assert_eq!(remove_reasoning(text), "Hello world!");
    let text = "<think> My thoughts...</think> Hello world!";
    assert_eq!(remove_reasoning(text), " Hello world!");
}

#[test]
fn ollama_ai_test_remove_reasoning_with_newline() {
    let text = "<think>My thoughts...\nMore...</think>Hello world!";
    assert_eq!(remove_reasoning(text), "Hello world!");
    let text =
        "<think>My thoughts...\nMore...\nAND MORE!\n\n\n\nThoughts...</think>Hello world!";
    assert_eq!(remove_reasoning(text), "Hello world!");
}

#[test]
fn ollama_test_remove_reasoning_no_newline() {
    let text = "<think>My thoughts...</think>Hello world!";
    assert_eq!(remove_reasoning(text), "Hello world!");
    let text = "<think> My thoughts...</think> Hello world!";
    assert_eq!(remove_reasoning(text), " Hello world!");
}

#[test]
fn ollama_test_remove_reasoning_with_newline() {
    let text = "<think>My thoughts...\nMore...</think>Hello world!";
    assert_eq!(remove_reasoning(text), "Hello world!");
    let text =
        "<think>My thoughts...\nMore...\nAND MORE!\n\n\n\nThoughts...</think>Hello world!";
    assert_eq!(remove_reasoning(text), "Hello world!");
}

#[test]
fn reasoning_is_stripped_and_the_rest_kept() {
    assert_eq!(remove_reasoning("<think>X</think>Y"), "Y");
    assert_eq!(remove_reasoning("<think>X\nmore</think> Y"), " Y");
    assert_eq!(remove_reasoning("before <think>X</think> after"), "before  after");
}

#[test]
fn text_without_reasoning_is_unchanged() {
    assert_eq!(remove_reasoning("Hello world!"), "Hello world!");
    assert_eq!(remove_reasoning(""), "");
    assert_eq!(remove_reasoning("<think>never closed"), "<think>never closed");
    assert_eq!(remove_reasoning("<thinker>X</think>"), "<thinker>X</think>");
}

#[test]
fn every_block_is_removed_and_each_is_the_shortest() {
    assert_eq!(remove_reasoning("<think>a</think>b<think>c</think>d"), "bd");
    assert_eq!(remove_reasoning("<think>a</think>b</think>"), "b</think>");
    assert_eq!(remove_reasoning("<think id=\"1\">a</think>b"), "b");
}

fn settings() -> Configuration {
    Configuration {
        weather_url: String::new(),
        weather_fmt: String::new(),
        ai_model: "qwen3".to_string(),
        ai_prompt: "Weather today: {}. Say something kind.".to_string(),
        ai_msg_off: String::new(),
        greeting_date_cron: String::new(),
        greeting_fmt: String::new(),
        start_fmt: String::new(),
        db_url: String::new(),
        draw_date_cron: String::new(),
        draw_win_fmt: String::new(),
        admin: String::new(),
        draw_admin_fmt: String::new(),
        channel: String::new(),
    }
}

#[test]
fn the_request_holds_the_model_and_the_filled_prompt() {
    let request = OllamaAi::request(&settings(), "-3 ❄️");
    assert_eq!(request.model, "qwen3");
    assert_eq!(request.prompt, "Weather today: -3 ❄️. Say something kind.");
}

#[test]
fn the_response_is_kept_without_its_reasoning() {
    let kept = OllamaAi::response(Ok("<think>hm</think>Good morning".to_string()));
    assert_eq!(kept.expect("a response"), "Good morning");
}

#[test]
fn a_failed_call_stays_failed() {
    let failed = OllamaAi::response(Err(Failure { reason: "connection refused".to_string() }));
    assert_eq!(failed.expect_err("a failure").reason, "connection refused");
}
