use await_openai::claude::{convert_messages, parse_mime_from_base64};
use await_openai::entity::chat_completion_object::Role as ObjectRole;
use await_openai::entity::create_chat_completion::{
    first_user_message, first_user_message_text, last_user_message_text, AssistantMessage,
    Content, ContentPart, ImageContentPart, ImageUrl, Message as OaMessage, SystemMessage,
    TextContentPart, ToolCall, ToolCallFunction, ToolCallFunctionObj, UserMessage,
};
use await_openai::gemini::generate_content::{Content as GeminiContent, Part, Role as GeminiRole};
use await_openai::gemini::generate_request::process_contents;
use await_openai::messages::{
    BaseContentBlock, ContentBlock, DeltaContentBlock, ImageSource, Message, MessageContent, Role,
};

fn oa_user_text(s: &str) -> OaMessage {
    OaMessage::User(UserMessage {
        content: Content::Text(s.to_string()),
        name: None,
    })
}

#[test]
fn test_first_user_message_text() {
    let messages = vec![
        OaMessage::System(SystemMessage {
            content: "You are a helpful assistant.".to_string(),
            name: None,
        }),
        oa_user_text("Hello!"),
        OaMessage::Assistant(AssistantMessage {
            content: Some("Hi there".to_string()),
            name: None,
            tool_calls: None,
        }),
        oa_user_text("Second question"),
    ];
    assert_eq!(
        first_user_message_text(&messages),
        Some("Hello!".to_string())
    );

    let with_array = vec![OaMessage::User(UserMessage {
        content: Content::Array(vec![
            ContentPart::Text(TextContentPart {
                text: "What's in".to_string(),
            }),
            ContentPart::Text(TextContentPart {
                text: " this image?".to_string(),
            }),
        ]),
        name: None,
    })];
    assert_eq!(
        first_user_message_text(&with_array),
        Some("What's in this image?".to_string())
    );

    let no_user = vec![OaMessage::System(SystemMessage {
        content: "only system".to_string(),
        name: None,
    })];
    assert_eq!(first_user_message_text(&no_user), None);
    assert!(first_user_message(&no_user).is_none());
}

#[test]
fn last_user_message_text_joins_with_space() {
    let messages = vec![
        oa_user_text("first"),
        OaMessage::User(UserMessage {
            content: Content::Array(vec![
                ContentPart::Text(TextContentPart {
                    text: "a".to_string(),
                }),
                ContentPart::Text(TextContentPart {
                    text: "b".to_string(),
                }),
            ]),
            name: None,
        }),
    ];
    assert_eq!(last_user_message_text(&messages), Some("a b".to_string()));
}

#[test]
fn mime_from_base64() {
    assert_eq!(
        parse_mime_from_base64("data:image/png;base64,iVBOR"),
        Some("image/png".to_string())
    );
    assert_eq!(
        parse_mime_from_base64("data:image/jpeg;base64,/9j/4"),
        Some("image/jpeg".to_string())
    );
    assert_eq!(
        parse_mime_from_base64("data:image/gif;base64,R0lGOD"),
        Some("image/gif".to_string())
    );
    assert_eq!(
        parse_mime_from_base64("data:image/webp;base64,UklGR"),
        Some("image/webp".to_string())
    );
    assert_eq!(parse_mime_from_base64("data:image/bmp;base64,Qk0"), None);
    assert_eq!(parse_mime_from_base64("no comma here"), None);
}

#[test]
fn convert_request_messages() {
    let messages = vec![
        OaMessage::System(SystemMessage {
            content: "You are a helpful assistant.".to_string(),
            name: None,
        }),
        oa_user_text("Hello!"),
    ];
    let (converted, system) = convert_messages(messages);
    assert_eq!(system, Some("You are a helpful assistant.".to_string()));
    assert_eq!(
        converted,
        vec![Message {
            role: Role::User,
            content: MessageContent::Text("Hello!".to_string()),
        }]
    );

    let with_image = vec![OaMessage::User(UserMessage {
        content: Content::Array(vec![
            ContentPart::Text(TextContentPart {
                text: "What's in this image?".to_string(),
            }),
            ContentPart::Image(ImageContentPart {
                image_url: ImageUrl {
                    url: "data:image/png;base64,iVBORw0KGgo".to_string(),
                    detail: None,
                },
                dimensions: None,
            }),
            ContentPart::Image(ImageContentPart {
                image_url: ImageUrl {
                    url: "https://example.com/cat.png".to_string(),
                    detail: None,
                },
                dimensions: None,
            }),
        ]),
        name: None,
    })];
    let (converted, system) = convert_messages(with_image);
    assert_eq!(system, None);
    assert_eq!(
        converted,
        vec![Message {
            role: Role::User,
            content: MessageContent::Blocks(vec![
                ContentBlock::Base(BaseContentBlock::Text {
                    text: "What's in this image?".to_string(),
                }),
                ContentBlock::RequestOnly(
                    await_openai::messages::RequestOnlyContentBlock::Image {
                        source: ImageSource::Base64 {
                            media_type: "image/png".to_string(),
                            data: "data:image/png;base64,iVBORw0KGgo".to_string(),
                        },
                    }
                ),
            ]),
        }]
    );

    let assistant_only = vec![OaMessage::Assistant(AssistantMessage {
        content: None,
        name: None,
        tool_calls: Some(vec![ToolCall::Function(ToolCallFunction {
            id: "c1".to_string(),
            function: ToolCallFunctionObj {
                name: "f".to_string(),
                arguments: "{}".to_string(),
            },
        })]),
    })];
    let (converted, system) = convert_messages(assistant_only);
    assert_eq!(system, None);
    assert_eq!(converted, vec![]);
}

#[test]
fn tool_call_accessors() {
    let tc = ToolCall::Function(ToolCallFunction {
        id: "call_1".to_string(),
        function: ToolCallFunctionObj {
            name: "get_weather".to_string(),
            arguments: "{}".to_string(),
        },
    });
    assert_eq!(tc.id(), "call_1");
    assert_eq!(tc.name(), "get_weather");
}

#[test]
fn object_role_as_str() {
    assert_eq!(ObjectRole::System.as_str(), "system");
    assert_eq!(ObjectRole::User.as_str(), "user");
    assert_eq!(ObjectRole::Assistant.as_str(), "assistant");
    assert_eq!(ObjectRole::Tool.as_str(), "tool");
}

#[test]
fn delta_block_emptiness() {
    assert!(DeltaContentBlock::TextDelta {
        text: "   ".to_string()
    }
    .is_empty());
    assert!(!DeltaContentBlock::TextDelta {
        text: " x ".to_string()
    }
    .is_empty());
    assert!(DeltaContentBlock::InputJsonDelta {
        partial_json: "".to_string()
    }
    .is_empty());
    assert!(!DeltaContentBlock::InputJsonDelta {
        partial_json: " ".to_string()
    }
    .is_empty());
    assert!(DeltaContentBlock::ThinkingDelta {
        thinking: "".to_string()
    }
    .is_empty());
    assert!(DeltaContentBlock::SignatureDelta {
        signature: "".to_string()
    }
    .is_empty());
}

fn gemini_turn(role: GeminiRole, text: &str) -> GeminiContent {
    GeminiContent {
        role,
        parts: vec![Part::Text(text.to_string())],
    }
}

#[test]
fn gemini_process_contents() {
    // Same-role turns merge by appending parts.
    let got = process_contents(vec![
        gemini_turn(GeminiRole::User, "a"),
        gemini_turn(GeminiRole::User, "b"),
    ]);
    assert_eq!(
        got,
        vec![GeminiContent {
            role: GeminiRole::User,
            parts: vec![Part::Text("a".to_string()), Part::Text("b".to_string())],
        }]
    );

    // A conversation opening with the model gains a synthetic user turn, and
    // one ending with the model gains a continuation turn.
    let got = process_contents(vec![gemini_turn(GeminiRole::Model, "hi")]);
    assert_eq!(
        got,
        vec![
            gemini_turn(GeminiRole::User, "Starting the conversation..."),
            gemini_turn(GeminiRole::Model, "hi"),
            gemini_turn(GeminiRole::User, "continue"),
        ]
    );

    // An alternating conversation ending with the user is untouched.
    let input = vec![
        gemini_turn(GeminiRole::User, "q"),
        gemini_turn(GeminiRole::Model, "a"),
        gemini_turn(GeminiRole::User, "q2"),
    ];
    assert_eq!(process_contents(input.clone()), input);

    assert_eq!(process_contents(vec![]), vec![]);
}

#[test]
fn gemini_part_emptiness() {
    assert!(Part::Text("   ".to_string()).is_empty());
    assert!(!Part::Text("x".to_string()).is_empty());
    let null_response = await_openai::gemini::generate_content::FunctionResponse {
        name: "f".to_string(),
        response: await_openai::jsonval::JsonValue::from_text("null").unwrap(),
    };
    assert!(Part::FunctionResponse(null_response).is_empty());
    let real_response = await_openai::gemini::generate_content::FunctionResponse {
        name: "f".to_string(),
        response: await_openai::jsonval::JsonValue::from_text("{\"ok\":true}").unwrap(),
    };
    assert!(!Part::FunctionResponse(real_response).is_empty());
}
