use autocommit::openai::{
    evaluate_reply, plan_request, ChatCompletionChoice, GenerationError, Message, MessageRole,
    OAIConfig, OAIModel, OAIResponse, OpenAI, ProviderReply, RequestOptions, Generator,
};

fn response_with(contents: &[&str]) -> OAIResponse {
    OAIResponse {
        id: String::from("resp-1"),
        object: String::from("chat.completion"),
        created: 0,
        model: String::from("gpt-3.5-turbo"),
        choices: contents
            .iter()
            .enumerate()
            .map(|(i, c)| ChatCompletionChoice {
                index: i as u64,
                message: Message::new(MessageRole::Assistant, String::from(*c)),
                finish_reason: Some(String::from("stop")),
            })
            .collect(),
        usage: None,
    }
}

#[test]
fn success_returns_first_completion() {
    let reply = ProviderReply::Http {
        status: 200,
        response: Some(response_with(&["first answer", "second answer"])),
        body: String::from("{}"),
    };
    let outcome = evaluate_reply(&reply);
    assert_eq!(outcome.unwrap(), "first answer");
}

#[test]
fn success_with_zero_choices_is_no_completion() {
    let reply = ProviderReply::Http {
        status: 200,
        response: Some(response_with(&[])),
        body: String::from("{}"),
    };
    let outcome = evaluate_reply(&reply);
    assert!(matches!(outcome, Err(GenerationError::NoCompletionReturned)));
}

#[test]
fn success_with_undecodable_body_is_unexpected() {
    let reply = ProviderReply::Http {
        status: 200,
        response: None,
        body: String::from("not json"),
    };
    let outcome = evaluate_reply(&reply);
    match outcome {
        Err(GenerationError::UnexpectedResponse { status, body }) => {
            assert_eq!(status, 200);
            assert_eq!(body, "not json");
        }
        _ => panic!("expected an unexpected-response error"),
    }
}

#[test]
fn rate_limit_status_is_rate_limited() {
    let reply = ProviderReply::Http {
        status: 429,
        response: None,
        body: String::from("slow down"),
    };
    assert!(matches!(evaluate_reply(&reply), Err(GenerationError::RateLimited)));
}

#[test]
fn other_status_is_unexpected_with_status_and_body() {
    let reply = ProviderReply::Http {
        status: 503,
        response: None,
        body: String::from("overloaded"),
    };
    match evaluate_reply(&reply) {
        Err(GenerationError::UnexpectedResponse { status, body }) => {
            assert_eq!(status, 503);
            assert_eq!(body, "overloaded");
        }
        _ => panic!("expected an unexpected-response error"),
    }
}

#[test]
fn transport_failure_is_transport_error() {
    let reply = ProviderReply::Transport { detail: String::from("connection refused") };
    match evaluate_reply(&reply) {
        Err(GenerationError::TransportError { detail }) => {
            assert_eq!(detail, "connection refused")
        }
        _ => panic!("expected a transport error"),
    }
}

#[test]
fn generation_is_idempotent_under_a_deterministic_double() {
    // the test double always answers the same; two runs must agree
    let double = || ProviderReply::Http {
        status: 200,
        response: Some(response_with(&["stable answer"])),
        body: String::from("{}"),
    };
    let first = evaluate_reply(&double());
    let second = evaluate_reply(&double());
    assert_eq!(first.unwrap(), second.unwrap());
}

#[test]
fn model_names_parse_and_print() {
    assert!(matches!(OAIModel::from_str("gpt-3.5-turbo"), Ok(OAIModel::GPT3Turbo)));
    assert!(matches!(OAIModel::from_str("gpt-4"), Ok(OAIModel::GPT4)));
    assert!(matches!(OAIModel::from_str("gpt-4-32k-0314"), Ok(OAIModel::GPT4_32K0314)));
    assert!(OAIModel::from_str("gpt-5").is_err());
    assert_eq!(OAIModel::GPT4_0314.name(), "gpt-4-0314");
    assert_eq!(OAIModel::GPT3_5Turbo0301.name(), "gpt-3.5-turbo-0301");
}

#[test]
fn plan_request_defaults_model_and_decoding() {
    let prompt = vec![Message::new(MessageRole::User, String::from("hello"))];
    let request = plan_request(&prompt, &None).unwrap();
    assert!(matches!(request.model, OAIModel::GPT3Turbo));
    assert_eq!(request.messages.len(), 1);
    assert_eq!(request.messages[0].content, "hello");
    assert_eq!(request.options.temperature_milli, 500);
    assert_eq!(request.options.top_p_milli, 100);
    assert!(request.options.max_tokens.is_none());
}

#[test]
fn plan_request_rejects_unknown_model() {
    let prompt = vec![Message::new(MessageRole::User, String::from("hello"))];
    let outcome = plan_request(&prompt, &Some(String::from("gpt-9000")));
    match outcome {
        Err(GenerationError::InvalidModel { name }) => assert_eq!(name, "gpt-9000"),
        _ => panic!("expected the model to be rejected"),
    }
}

#[test]
fn plan_request_takes_configured_model() {
    let prompt = vec![Message::new(MessageRole::System, String::from("s"))];
    let request = plan_request(&prompt, &Some(String::from("gpt-4"))).unwrap();
    assert!(matches!(request.model, OAIModel::GPT4));
}

#[test]
fn request_options_standard_values() {
    let options = RequestOptions::standard();
    assert_eq!(options.temperature_milli, 500);
    assert_eq!(options.top_p_milli, 100);
    assert!(options.max_tokens.is_none());
}

#[test]
fn generator_holds_its_configuration() {
    let generator = Generator::new("sk-test-3", "https://api.openai.com");
    assert_eq!(generator.openai.config.api_host, "https://api.openai.com");
    assert_eq!(generator.openai.config.openai_api_key, "sk-test-3");
    let client = OpenAI::new(OAIConfig::new(String::from("h"), String::from("k")));
    assert_eq!(client.config.api_host, "h");
    assert_eq!(client.config.openai_api_key, "k");
}

#[test]
fn error_descriptions_name_the_failure() {
    assert_eq!(GenerationError::RateLimited.describe(), "Rate limit exceeded");
    assert_eq!(GenerationError::NoCompletionReturned.describe(), "No message returned");
    assert_eq!(
        GenerationError::TransportError { detail: String::from("timeout") }.describe(),
        "Failed to send request to api: timeout"
    );
    assert_eq!(
        GenerationError::InvalidModel { name: String::from("x") }.describe(),
        "Invalid OpenAI Model: x"
    );
}
