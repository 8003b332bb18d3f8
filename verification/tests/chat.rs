use commitgen::chat::{
    api_call, build_request, extract_message, generate_commit_message, ChatResponse, Choice,
    GenerateError, MessageResponse, Usage,
};

fn choice(index: u32, content: &str) -> Choice {
    Choice {
        index,
        message: MessageResponse { role: "assistant".to_string(), content: content.to_string() },
        logprobs: None,
        finish_reason: "stop".to_string(),
    }
}

fn response(choices: Vec<Choice>) -> ChatResponse {
    ChatResponse {
        id: "c0ffee".to_string(),
        object: "chat.completion".to_string(),
        created: 1_700_000_000,
        model: "deepseek-chat".to_string(),
        choices,
        usage: Usage {
            prompt_tokens: 12,
            completion_tokens: 7,
            total_tokens: 19,
            prompt_cache_hit_tokens: 0,
            prompt_cache_miss_tokens: 12,
        },
        system_fingerprint: "fp_1".to_string(),
    }
}

#[test]
fn request_has_system_then_user_message() {
    let request = build_request("+foo\n-bar\n");
    assert_eq!(request.messages.len(), 2);
    assert_eq!(request.messages[0].role, "system");
    assert_eq!(
        request.messages[0].content,
        "You are a helpful assistant to great a short git commit message"
    );
    assert_eq!(request.messages[1].role, "user");
    assert_eq!(request.messages[1].content, "+foo\n-bar\n");
}

#[test]
fn request_names_the_model_and_does_not_stream() {
    let request = build_request("x");
    assert_eq!(request.model, "deepseek-chat");
    assert!(!request.stream);
}

#[test]
fn request_carries_a_long_diff_whole() {
    let diff = "+line of a large change\n".repeat(20_000);
    let request = build_request(&diff);
    assert_eq!(request.messages.len(), 2);
    assert_eq!(request.messages[1].content, diff);
}

#[test]
fn request_does_not_trim_the_diff() {
    let request = build_request("  \n+a\n\n ");
    assert_eq!(request.messages[1].content, "  \n+a\n\n ");
}

#[test]
fn call_goes_to_the_endpoint_with_bearer_credential() {
    let call = api_call("SECRET-REDACTED", "+foo\n");
    assert_eq!(call.url, "https://api.deepseek.com/chat/completions");
    assert_eq!(call.authorization, "Bearer SECRET-REDACTED");
    assert_eq!(call.content_type, "application/json");
    assert_eq!(call.body, build_request("+foo\n"));
}

#[test]
fn single_candidate_is_returned() {
    let reply = response(vec![choice(0, "Add foo, remove bar")]);
    assert_eq!(extract_message(&reply), Ok("Add foo, remove bar".to_string()));
}

#[test]
fn first_candidate_wins_over_later_ones() {
    let reply = response(vec![choice(0, "first"), choice(1, "second"), choice(2, "third")]);
    assert_eq!(extract_message(&reply), Ok("first".to_string()));
}

#[test]
fn candidate_content_is_not_trimmed() {
    let reply = response(vec![choice(0, "  Add foo \n\n")]);
    assert_eq!(extract_message(&reply), Ok("  Add foo \n\n".to_string()));
}

#[test]
fn empty_candidate_content_is_still_a_message() {
    let reply = response(vec![choice(0, ""), choice(1, "later")]);
    assert_eq!(extract_message(&reply), Ok(String::new()));
}

#[test]
fn no_candidates_is_the_no_response_error() {
    let reply = response(Vec::new());
    assert_eq!(extract_message(&reply), Err(GenerateError::NoResponse));
}

#[test]
fn generation_takes_the_first_candidate_of_a_reply() {
    let reply = Ok(response(vec![choice(0, "Add foo, remove bar"), choice(1, "other")]));
    assert_eq!(generate_commit_message(&reply), Ok("Add foo, remove bar".to_string()));
}

#[test]
fn generation_fails_on_a_reply_without_candidates() {
    let reply = Ok(response(Vec::new()));
    assert_eq!(generate_commit_message(&reply), Err(GenerateError::NoResponse));
}

#[test]
fn generation_passes_a_transport_failure_on() {
    let reply = Err("error sending request".to_string());
    assert_eq!(
        generate_commit_message(&reply),
        Err(GenerateError::Transport("error sending request".to_string()))
    );
}

#[test]
fn errors_describe_themselves() {
    assert_eq!(GenerateError::NoResponse.describe(), "No response from DeepSeek");
    assert_eq!(
        GenerateError::Transport("missing field `choices`".to_string()).describe(),
        "missing field `choices`"
    );
}
