use await_openai::claude::{ClaudeEventDataParser, TranslationError};
use await_openai::entity::chat_completion_chunk::{Choice, Chunk, ChunkResponse, DeltaMessage};
use await_openai::entity::chat_completion_object::{
    Choice as ObjectChoice, Message as ObjectMessage, Response as ObjectResponse,
    Role as OpenaiRole, Usage as ObjectUsage,
};
use await_openai::entity::create_chat_completion::{
    FinishReason, ToolCall, ToolCallFunction, ToolCallFunctionObj,
};
use await_openai::jsonval::JsonValue;
use await_openai::messages::{
    BaseContentBlock, DeltaContentBlock, ResponseContentBlock, Role, StopReason,
    ToolUseContentBlock, Usage,
};
use await_openai::response::Response;
use await_openai::stream_response::{ErrorData, EventData, EventName, MessageDelta};

fn message_start(id: &str, model: &str, input_tokens: u32, output_tokens: u32) -> EventData {
    EventData::MessageStart {
        message: Response {
            id: id.to_string(),
            kind: "message".to_string(),
            role: Role::Assistant,
            content: vec![],
            model: model.to_string(),
            stop_reason: None,
            stop_sequence: None,
            usage: Usage {
                input_tokens: Some(input_tokens),
                output_tokens,
            },
        },
    }
}

fn text_delta(index: u32, text: &str) -> EventData {
    EventData::ContentBlockDelta {
        index,
        delta: DeltaContentBlock::TextDelta {
            text: text.to_string(),
        },
    }
}

fn json_delta(index: u32, partial: &str) -> EventData {
    EventData::ContentBlockDelta {
        index,
        delta: DeltaContentBlock::InputJsonDelta {
            partial_json: partial.to_string(),
        },
    }
}

fn message_delta(stop_reason: StopReason, output_tokens: u32) -> EventData {
    EventData::MessageDelta {
        delta: MessageDelta {
            stop_reason,
            stop_sequence: None,
        },
        usage: Usage {
            input_tokens: None,
            output_tokens,
        },
    }
}

fn tool_use_start(index: u32, id: &str, name: &str) -> EventData {
    EventData::ContentBlockStart {
        index,
        content_block: BaseContentBlock::ToolUse(ToolUseContentBlock {
            id: id.to_string(),
            name: name.to_string(),
            input: JsonValue::from_text("{}").unwrap(),
        }),
    }
}

fn data_chunk(
    id: &str,
    model: &str,
    index: usize,
    content: Option<&str>,
    role: Option<OpenaiRole>,
    finish_reason: Option<FinishReason>,
) -> Chunk {
    Chunk::Data(ChunkResponse {
        id: id.to_string(),
        choices: vec![Choice {
            index,
            delta: DeltaMessage {
                content: content.map(|s| s.to_string()),
                reasoning: None,
                tool_calls: None,
                role,
            },
            finish_reason,
        }],
        created: 0,
        model: model.to_string(),
        system_fingerprint: String::new(),
        service_tier: None,
        object: "chat.completion.chunk".to_string(),
        usage: None,
    })
}

#[test]
fn test_process_stream_events() {
    let id = "msg_1nZdL29xx5MUA1yADyHTEsnR8uuvGzszyY";
    let model = "vendor-large-20250219";
    let events: Vec<(&str, EventData, Option<Chunk>)> = vec![
        (
            "data1",
            message_start(id, model, 25, 1),
            Some(data_chunk(id, model, 0, None, Some(OpenaiRole::Assistant), None)),
        ),
        (
            "data2",
            EventData::ContentBlockStart {
                index: 0,
                content_block: BaseContentBlock::Text {
                    text: "".to_string(),
                },
            },
            None,
        ),
        ("data3", EventData::Ping, None),
        (
            "data4",
            text_delta(0, "Hello"),
            Some(data_chunk(id, model, 0, Some("Hello"), None, None)),
        ),
        (
            "data5",
            text_delta(0, "!"),
            Some(data_chunk(id, model, 0, Some("!"), None, None)),
        ),
        ("data6", EventData::ContentBlockStop { index: 0 }, None),
        (
            "data7",
            message_delta(StopReason::EndTurn, 15),
            Some(data_chunk(id, model, 0, None, None, Some(FinishReason::Stop))),
        ),
        ("data8", EventData::MessageStop, Some(Chunk::Done)),
    ];

    let mut parser = ClaudeEventDataParser::new();
    for (name, event, want) in events {
        match parser.parse(&event) {
            Ok((got, tool_call)) => {
                assert_eq!(got, want, "openai event data not match: {}", name);
                assert_eq!(tool_call, None, "tool call should be None");
            }
            Err(_) => panic!("unexpected error parsing event: {}", name),
        }
    }

    let claude_response = parser.claude_response();
    let want_claude_response = Response {
        id: id.to_string(),
        kind: "message".to_string(),
        role: Role::Assistant,
        content: vec![ResponseContentBlock::Base(BaseContentBlock::Text {
            text: "Hello!".to_string(),
        })],
        model: model.to_string(),
        stop_reason: Some(StopReason::EndTurn),
        stop_sequence: None,
        usage: Usage {
            input_tokens: Some(25),
            output_tokens: 16,
        },
    };
    assert_eq!(claude_response, want_claude_response);

    let openai_response = parser.response();
    let want_openai_response = ObjectResponse {
        id: id.to_string(),
        object: "chat.completion".to_string(),
        created: 0,
        model: model.to_string(),
        system_fingerprint: String::new(),
        choices: vec![ObjectChoice {
            index: 0,
            message: ObjectMessage {
                role: OpenaiRole::Assistant,
                content: Some("Hello!".to_string()),
                reasoning: None,
                tool_calls: None,
            },
            finish_reason: Some(FinishReason::Stop),
        }],
        usage: ObjectUsage {
            prompt_tokens: 25,
            completion_tokens: 16,
            total_tokens: 41,
        },
    };
    assert_eq!(openai_response, want_openai_response);
}

#[test]
fn test_process_tool_use_events() {
    let id = "msg_014p7gG3wDgGV9EUtLvnow3U";
    let model = "vendor-small-20240307";
    let tool_id = "toolu_01T1x1fJ34qAmk2tNTrN7Up6";
    let events: Vec<(&str, EventData, Option<Chunk>, Option<ToolCall>)> = vec![
        (
            "data1",
            message_start(id, model, 472, 2),
            Some(data_chunk(id, model, 0, None, Some(OpenaiRole::Assistant), None)),
            None,
        ),
        (
            "data2",
            EventData::ContentBlockStart {
                index: 0,
                content_block: BaseContentBlock::Text {
                    text: "".to_string(),
                },
            },
            None,
            None,
        ),
        ("data3", EventData::Ping, None, None),
        (
            "data4",
            text_delta(0, "Okay"),
            Some(data_chunk(id, model, 0, Some("Okay"), None, None)),
            None,
        ),
        (
            "data5",
            text_delta(0, ","),
            Some(data_chunk(id, model, 0, Some(","), None, None)),
            None,
        ),
        (
            "data6",
            text_delta(0, " let"),
            Some(data_chunk(id, model, 0, Some(" let"), None, None)),
            None,
        ),
        (
            "data7",
            text_delta(0, "'s check the weather for San Francisco, CA:"),
            Some(data_chunk(
                id,
                model,
                0,
                Some("'s check the weather for San Francisco, CA:"),
                None,
                None,
            )),
            None,
        ),
        (
            "data9",
            EventData::ContentBlockStop { index: 0 },
            None,
            None,
        ),
        (
            "data10",
            tool_use_start(1, tool_id, "get_weather"),
            None,
            None,
        ),
        ("data11", json_delta(1, ""), None, None),
        ("data12", json_delta(1, "{\"location\":"), None, None),
        (
            "data13",
            json_delta(1, " \"San Francisco, CA\", \"unit\": \"fahrenheit\"}"),
            None,
            None,
        ),
        (
            "data14",
            EventData::ContentBlockStop { index: 1 },
            None,
            Some(ToolCall::Function(ToolCallFunction {
                id: tool_id.to_string(),
                function: ToolCallFunctionObj {
                    name: "get_weather".to_string(),
                    arguments: "{\"location\": \"San Francisco, CA\", \"unit\": \"fahrenheit\"}"
                        .to_string(),
                },
            })),
        ),
        (
            "data15",
            message_delta(StopReason::ToolUse, 89),
            Some(data_chunk(
                id,
                model,
                0,
                None,
                None,
                Some(FinishReason::ToolCalls),
            )),
            None,
        ),
        ("data16", EventData::MessageStop, Some(Chunk::Done), None),
    ];

    let mut parser = ClaudeEventDataParser::new();
    for (name, event, want, want_tool_call) in events {
        match parser.parse(&event) {
            Ok((got, got_tool_call)) => {
                assert_eq!(got, want, "openai event data not match: {}", name);
                assert_eq!(
                    got_tool_call, want_tool_call,
                    "openai event tool call not match: {}",
                    name
                );
            }
            Err(_) => panic!("unexpected error parsing event: {}", name),
        }
    }

    let claude_response = parser.claude_response();
    let want_input = JsonValue::from_text(
        "{\"location\": \"San Francisco, CA\", \"unit\": \"fahrenheit\"}",
    )
    .unwrap();
    let want_claude_response = Response {
        id: id.to_string(),
        kind: "message".to_string(),
        role: Role::Assistant,
        content: vec![
            ResponseContentBlock::Base(BaseContentBlock::Text {
                text: "Okay, let's check the weather for San Francisco, CA:".to_string(),
            }),
            ResponseContentBlock::Base(BaseContentBlock::ToolUse(ToolUseContentBlock {
                id: tool_id.to_string(),
                name: "get_weather".to_string(),
                input: want_input,
            })),
        ],
        model: model.to_string(),
        stop_reason: Some(StopReason::ToolUse),
        stop_sequence: None,
        usage: Usage {
            input_tokens: Some(472),
            output_tokens: 91,
        },
    };
    assert_eq!(claude_response, want_claude_response);

    let openai_response = parser.response();
    let want_openai_response = ObjectResponse {
        id: id.to_string(),
        object: "chat.completion".to_string(),
        created: 0,
        model: model.to_string(),
        system_fingerprint: String::new(),
        choices: vec![ObjectChoice {
            index: 0,
            message: ObjectMessage {
                role: OpenaiRole::Assistant,
                content: Some("Okay, let's check the weather for San Francisco, CA:".to_string()),
                reasoning: None,
                tool_calls: Some(vec![ToolCall::Function(ToolCallFunction {
                    id: tool_id.to_string(),
                    function: ToolCallFunctionObj {
                        name: "get_weather".to_string(),
                        arguments:
                            "{\"location\": \"San Francisco, CA\", \"unit\": \"fahrenheit\"}"
                                .to_string(),
                    },
                })]),
            },
            finish_reason: Some(FinishReason::ToolCalls),
        }],
        usage: ObjectUsage {
            prompt_tokens: 472,
            completion_tokens: 91,
            total_tokens: 563,
        },
    };
    assert_eq!(openai_response, want_openai_response);
}

#[test]
fn streaming_reconstruction() {
    let mut parser = ClaudeEventDataParser::new();
    parser.parse(&message_start("id1", "m1", 1, 0)).unwrap();
    parser.parse(&text_delta(0, "Hel")).unwrap();
    parser.parse(&text_delta(0, "lo")).unwrap();
    parser
        .parse(&message_delta(StopReason::EndTurn, 2))
        .unwrap();
    parser.parse(&EventData::MessageStop).unwrap();

    let claude = parser.claude_response();
    assert_eq!(
        claude.content,
        vec![ResponseContentBlock::Base(BaseContentBlock::Text {
            text: "Hello".to_string()
        })]
    );
    let openai = parser.response();
    assert_eq!(openai.choices[0].message.content, Some("Hello".to_string()));
    assert_eq!(openai.choices[0].finish_reason, Some(FinishReason::Stop));
}

#[test]
fn tool_call_reconstruction() {
    let mut parser = ClaudeEventDataParser::new();
    parser.parse(&tool_use_start(0, "t1", "add")).unwrap();
    parser.parse(&json_delta(0, "{\"a\":")).unwrap();
    parser.parse(&json_delta(0, "1}")).unwrap();
    let (chunk, tool_call) = parser
        .parse(&EventData::ContentBlockStop { index: 0 })
        .unwrap();
    assert_eq!(chunk, None);
    let tool_call = tool_call.expect("tool call must complete at block stop");
    assert_eq!(tool_call.id(), "t1");
    assert_eq!(tool_call.name(), "add");
    match &tool_call {
        ToolCall::Function(f) => assert_eq!(f.function.arguments, "{\"a\":1}"),
    }

    let claude = parser.claude_response();
    assert_eq!(claude.content.len(), 1);
    match &claude.content[0] {
        ResponseContentBlock::Base(BaseContentBlock::ToolUse(t)) => {
            assert_eq!(t.id, "t1");
            assert_eq!(t.name, "add");
            assert!(t.input.is_object());
            let want: serde_json::Value = serde_json::from_str("{\"a\":1}").unwrap();
            assert_eq!(t.input.value(), &want);
        }
        other => panic!("expected a tool use block, got {:?}", other),
    }
}

#[test]
fn unparseable_tool_arguments_are_dropped_from_vendor_response() {
    let mut parser = ClaudeEventDataParser::new();
    parser.parse(&tool_use_start(0, "t1", "add")).unwrap();
    parser.parse(&json_delta(0, "{\"a\": not json")).unwrap();
    let (_, tool_call) = parser
        .parse(&EventData::ContentBlockStop { index: 0 })
        .unwrap();
    // The raw call is still handed to the caller and kept in the normalized
    // response, but the vendor-shaped response drops it.
    assert!(tool_call.is_some());
    let claude = parser.claude_response();
    assert_eq!(claude.content.len(), 0);
    let openai = parser.response();
    assert!(openai.choices[0].message.tool_calls.is_some());
}

#[test]
fn error_propagation() {
    let mut parser = ClaudeEventDataParser::new();
    parser.parse(&message_start("id9", "m9", 7, 0)).unwrap();
    parser.parse(&text_delta(0, "partial")).unwrap();
    let got = parser.parse(&EventData::Error {
        error: ErrorData::OverloadedError {
            message: "Overloaded".to_string(),
        },
    });
    match got {
        Err(TranslationError::VendorError { error }) => {
            assert_eq!(error.display_string(), "OverloadedError: Overloaded");
        }
        other => panic!("expected a vendor error, got {:?}", other),
    }
    // State accumulated before the error remains queryable.
    let claude = parser.claude_response();
    assert_eq!(
        claude.content,
        vec![ResponseContentBlock::Base(BaseContentBlock::Text {
            text: "partial".to_string()
        })]
    );
    assert_eq!(claude.usage.input_tokens, Some(7));
}

#[test]
fn event_name_from_str() {
    assert_eq!(EventName::from_str("error"), EventName::Error);
    assert_eq!(EventName::from_str("message_start"), EventName::MessageStart);
    assert_eq!(
        EventName::from_str("content_block_start"),
        EventName::ContentBlockStart
    );
    assert_eq!(EventName::from_str("ping"), EventName::Ping);
    assert_eq!(
        EventName::from_str("content_block_delta"),
        EventName::ContentBlockDelta
    );
    assert_eq!(
        EventName::from_str("content_block_stop"),
        EventName::ContentBlockStop
    );
    assert_eq!(EventName::from_str("message_delta"), EventName::MessageDelta);
    assert_eq!(EventName::from_str("message_stop"), EventName::MessageStop);
    assert_eq!(EventName::from_str("whatever"), EventName::Unspecified);
}

#[test]
fn error_display_strings() {
    assert_eq!(
        ErrorData::InternalServerError {
            message: "x".to_string()
        }
        .display_string(),
        "InternalServerError: x"
    );
    assert_eq!(
        ErrorData::BadRequestError {
            message: "y".to_string()
        }
        .display_string(),
        "BadRequestError: y"
    );
    assert_eq!(
        ErrorData::UnauthorizedError {
            message: "z".to_string()
        }
        .display_string(),
        "UnauthorizedError: z"
    );
}

#[test]
fn stop_reason_mapping() {
    assert_eq!(FinishReason::from(StopReason::EndTurn), FinishReason::Stop);
    assert_eq!(FinishReason::from(StopReason::MaxTokens), FinishReason::Length);
    assert_eq!(FinishReason::from(StopReason::StopSequence), FinishReason::Stop);
    assert_eq!(FinishReason::from(StopReason::ToolUse), FinishReason::ToolCalls);
}

#[test]
fn message_start_captures_metadata_once() {
    let mut parser = ClaudeEventDataParser::new();
    parser.parse(&message_start("first", "model-a", 1, 0)).unwrap();
    parser.parse(&message_start("second", "model-b", 2, 0)).unwrap();
    let res = parser.response();
    assert_eq!(res.id, "first");
    assert_eq!(res.model, "model-a");
    // Usage counts are reseeded by a later message start.
    assert_eq!(res.usage.prompt_tokens, 2);
}
