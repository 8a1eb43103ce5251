use await_openai::entity::chat_completion_object::{
    Choice, Message as ResponseMsg, Role as ObjectRole,
};
use await_openai::entity::create_chat_completion::{
    Content, FinishReason, FunctionTool, Message, SystemMessage, Tool, ToolCall, ToolCallFunction,
    ToolCallFunctionObj, ToolType, UserMessage,
};
use await_openai::image_token::get_image_tokens;
use await_openai::entity::create_chat_completion::ImageUrlDetail;
use await_openai::jsonval::JsonValue;
use await_openai::tiktoken::{completion_tokens, prompt_tokens};

fn user(text: &str) -> Message {
    Message::User(UserMessage {
        name: None,
        content: Content::Text(text.to_string()),
    })
}

fn params(json: &str) -> Option<JsonValue> {
    let v: serde_json::Value = serde_json::from_str(json).unwrap();
    Some(JsonValue::from_value(v))
}

#[test]
fn test_get_image_tokens() {
    let test_data = vec![
        ("512-auto", 512, 512, Some(ImageUrlDetail::Auto), 255),
        ("512-none", 512, 512, None, 255),
        ("512-low", 512, 512, Some(ImageUrlDetail::Low), 85),
        ("4096-low", 4096, 8192, Some(ImageUrlDetail::Low), 85),
        ("1024-high", 1024, 1024, Some(ImageUrlDetail::High), 765),
        ("2048-high", 2048, 4096, Some(ImageUrlDetail::High), 1105),
        ("150-auto", 150, 150, Some(ImageUrlDetail::Auto), 255),
        ("1024-auto", 1024, 1024, Some(ImageUrlDetail::Auto), 765),
        ("1000-auto", 1000, 500, Some(ImageUrlDetail::Auto), 425),
        ("2048-auto", 2048, 1024, Some(ImageUrlDetail::Auto), 1105),
        ("4096-auto", 4096, 5801, Some(ImageUrlDetail::Auto), 1105),
    ];
    for t in test_data {
        let got = get_image_tokens((t.1, t.2), &t.3);
        assert_eq!(got, t.4, "test case: {}", t.0)
    }
}

#[test]
fn messages() {
    let messages = vec![
        Message::System(SystemMessage {
            name: None,
            content: "You are a helpful assistant.".to_string(),
        }),
        user("hi, how are you"),
    ];
    let num_tokens = prompt_tokens("gpt-3.5-turbo", &messages, None).unwrap();
    assert_eq!(num_tokens, 22);
}

#[test]
fn completion() {
    let choices = vec![Choice {
        index: 0,
        message: ResponseMsg {
            content: Some("I'm just a computer program, so I don't have feelings, but I'm here to help you with anything you need. How can I assist you today?".to_string()),
            reasoning: None,
            tool_calls: None,
            role: ObjectRole::Assistant,
        },
        finish_reason: Some(FinishReason::Stop),
    }];
    let num_tokens = completion_tokens("gpt-3.5-turbo", &choices).unwrap();
    assert_eq!(num_tokens, 33);
}

#[test]
fn test_estimate_get_weather_example() {
    let messages = vec![user("hi, how is the weather in San Francisco, CA")];
    let tools = vec![Tool {
        kind: ToolType::Function,
        function: FunctionTool {
            name: "get_current_weather".to_string(),
            description: Some("Get the current weather in a given location".to_string()),
            parameters: params(
                r#"{
                    "type": "object",
                    "properties": {
                        "location": {
                            "type": "string",
                            "description": "The city and state, e.g. San Francisco, CA"
                        },
                        "unit": {
                            "type": "string",
                            "enum": ["celsius", "fahrenheit"]
                        }
                    },
                    "required": ["location"]
                }"#,
            ),
        },
    }];
    let num_tokens = prompt_tokens("gpt-3.5-turbo", &messages, Some(&tools)).unwrap();
    assert_eq!(num_tokens, 85);
}

#[test]
fn canonical_json_text() {
    // The stored text is the canonical serialization, not the input text.
    let v = JsonValue::from_text("{\"a\": 1}").unwrap();
    assert_eq!(v.text(), "{\"a\":1}");
    assert!(v.is_object());
    assert!(!v.is_null());
    assert!(JsonValue::from_text("{\"a\": not json").is_none());
    let null = JsonValue::from_text("null").unwrap();
    assert!(null.is_null());
    assert!(!null.is_object());
}

#[test]
fn usage_combines_both_estimates() {
    let messages = vec![
        Message::System(SystemMessage {
            name: None,
            content: "You are a helpful assistant.".to_string(),
        }),
        user("hi, how are you"),
    ];
    let choices = vec![Choice {
        index: 0,
        message: ResponseMsg {
            content: Some("I'm just a computer program, so I don't have feelings, but I'm here to help you with anything you need. How can I assist you today?".to_string()),
            reasoning: None,
            tool_calls: None,
            role: ObjectRole::Assistant,
        },
        finish_reason: Some(FinishReason::Stop),
    }];
    let usage = await_openai::tiktoken::usage("gpt-3.5-turbo", &messages, None, &choices).unwrap();
    assert_eq!(usage.prompt_tokens, 22);
    assert_eq!(usage.completion_tokens, 33);
    assert_eq!(usage.total_tokens, 55);
}
