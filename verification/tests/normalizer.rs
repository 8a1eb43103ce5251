use await_openai::messages::{
    BaseContentBlock, ContentBlock, ImageSource, Message, MessageContent, RequestOnlyContentBlock,
    Role,
};
use await_openai::request::process_messages;

fn user_text(s: &str) -> Message {
    Message {
        role: Role::User,
        content: MessageContent::Text(s.to_string()),
    }
}

fn assistant_text(s: &str) -> Message {
    Message {
        role: Role::Assistant,
        content: MessageContent::Text(s.to_string()),
    }
}

fn text_block(s: &str) -> ContentBlock {
    ContentBlock::Base(BaseContentBlock::Text {
        text: s.to_string(),
    })
}

fn image_block(media: &str, data: &str) -> ContentBlock {
    ContentBlock::RequestOnly(RequestOnlyContentBlock::Image {
        source: ImageSource::Base64 {
            media_type: media.to_string(),
            data: data.to_string(),
        },
    })
}

fn blocks(role: Role, bs: Vec<ContentBlock>) -> Message {
    Message {
        role,
        content: MessageContent::Blocks(bs),
    }
}

#[test]
fn request_process() {
    let tests: Vec<(&str, Vec<Message>, Vec<Message>)> = vec![
        (
            "[(assistant, text)]",
            vec![assistant_text("hi")],
            vec![user_text("Starting the conversation..."), assistant_text("hi")],
        ),
        (
            "[(assistant, blocks)]",
            vec![blocks(Role::Assistant, vec![text_block("hi")])],
            vec![
                user_text("Starting the conversation..."),
                blocks(Role::Assistant, vec![text_block("hi")]),
            ],
        ),
        (
            "[(assistant, blocks)]-2",
            vec![blocks(
                Role::Assistant,
                vec![text_block("hi"), image_block("img/png", "abcs")],
            )],
            vec![
                user_text("Starting the conversation..."),
                blocks(
                    Role::Assistant,
                    vec![text_block("hi"), image_block("img/png", "abcs")],
                ),
            ],
        ),
        (
            "[(assistant, text), (user, text)]",
            vec![assistant_text("hi"), user_text("hi")],
            vec![
                user_text("Starting the conversation..."),
                assistant_text("hi"),
                user_text("hi"),
            ],
        ),
        (
            "[(assistant, text), (user, blocks)]",
            vec![
                assistant_text("hi"),
                blocks(
                    Role::User,
                    vec![text_block("hi"), image_block("img/png", "abcs")],
                ),
            ],
            vec![
                user_text("Starting the conversation..."),
                assistant_text("hi"),
                blocks(
                    Role::User,
                    vec![text_block("hi"), image_block("img/png", "abcs")],
                ),
            ],
        ),
        (
            "[(user, text), (user, text)]",
            vec![user_text("Hi,"), user_text("how are you")],
            vec![user_text("Hi,\nhow are you")],
        ),
        (
            "[(user, text), (user, blocks)]",
            vec![
                user_text("Hi,"),
                blocks(Role::User, vec![text_block("how are you")]),
            ],
            vec![blocks(
                Role::User,
                vec![text_block("Hi,"), text_block("how are you")],
            )],
        ),
        (
            "[(user, blocks), (user, text)]",
            vec![
                blocks(Role::User, vec![text_block("how are you")]),
                user_text("Hi,"),
            ],
            vec![blocks(
                Role::User,
                vec![text_block("how are you"), text_block("Hi,")],
            )],
        ),
        (
            "[(assistant, text), (assistant, text)]",
            vec![assistant_text("Hi,"), assistant_text("how are you")],
            vec![
                user_text("Starting the conversation..."),
                assistant_text("Hi,\nhow are you"),
            ],
        ),
        (
            "[(assistant, blocks), (assistant, text)]",
            vec![
                blocks(Role::Assistant, vec![text_block("how are you")]),
                assistant_text("Hi,"),
            ],
            vec![
                user_text("Starting the conversation..."),
                blocks(
                    Role::Assistant,
                    vec![text_block("how are you"), text_block("Hi,")],
                ),
            ],
        ),
        (
            "[(user, blocks), (user, text), (user, blocks)]",
            vec![
                blocks(Role::User, vec![text_block("how are you")]),
                user_text("Hi,"),
                blocks(Role::User, vec![text_block("who are you")]),
            ],
            vec![blocks(
                Role::User,
                vec![
                    text_block("how are you"),
                    text_block("Hi,"),
                    text_block("who are you"),
                ],
            )],
        ),
        (
            "[(user, blocks), (user, text), (user, blocks), (user, text)]",
            vec![
                blocks(Role::User, vec![text_block("how are you")]),
                user_text("Hi,"),
                blocks(Role::User, vec![text_block("who are you")]),
                user_text("ho"),
            ],
            vec![blocks(
                Role::User,
                vec![
                    text_block("how are you"),
                    text_block("Hi,"),
                    text_block("who are you"),
                    text_block("ho"),
                ],
            )],
        ),
        (
            "[(user, blocks), (user, text), (user, blocks), (assistant, text)]",
            vec![
                blocks(Role::User, vec![text_block("how are you")]),
                user_text("Hi,"),
                blocks(Role::User, vec![text_block("who are you")]),
                assistant_text("ho"),
            ],
            vec![
                blocks(
                    Role::User,
                    vec![
                        text_block("how are you"),
                        text_block("Hi,"),
                        text_block("who are you"),
                    ],
                ),
                assistant_text("ho"),
            ],
        ),
        (
            "[(user, blocks), (user, text), (assistant, blocks), (user, text)]",
            vec![
                blocks(Role::User, vec![text_block("how are you")]),
                user_text("Hi,"),
                blocks(Role::Assistant, vec![text_block("who are you")]),
                user_text("ho"),
            ],
            vec![
                blocks(
                    Role::User,
                    vec![text_block("how are you"), text_block("Hi,")],
                ),
                blocks(Role::Assistant, vec![text_block("who are you")]),
                user_text("ho"),
            ],
        ),
        (
            "[(user, blocks), (assistant, text), (user, blocks), (user, text)]",
            vec![
                blocks(Role::User, vec![text_block("how are you")]),
                assistant_text("Hi,"),
                blocks(Role::User, vec![text_block("who are you")]),
                user_text("ho"),
            ],
            vec![
                blocks(Role::User, vec![text_block("how are you")]),
                assistant_text("Hi,"),
                blocks(
                    Role::User,
                    vec![text_block("who are you"), text_block("ho")],
                ),
            ],
        ),
        (
            "[(assistant, blocks), (user, text), (user, blocks), (user, text)]",
            vec![
                blocks(Role::Assistant, vec![text_block("how are you")]),
                user_text("Hi,"),
                blocks(Role::User, vec![text_block("who are you")]),
                user_text("ho"),
            ],
            vec![
                user_text("Starting the conversation..."),
                blocks(Role::Assistant, vec![text_block("how are you")]),
                blocks(
                    Role::User,
                    vec![
                        text_block("Hi,"),
                        text_block("who are you"),
                        text_block("ho"),
                    ],
                ),
            ],
        ),
        (
            "[(user, text), empty, (assistant, text with trailing space), empty]",
            vec![
                user_text("hi"),
                user_text(""),
                assistant_text("hi    "),
                user_text(""),
            ],
            vec![user_text("hi"), assistant_text("hi")],
        ),
        (
            "last one",
            vec![
                assistant_text("hi"),
                user_text(""),
                blocks(Role::User, vec![text_block("   ")]),
                blocks(Role::User, vec![text_block("     "), text_block("hi")]),
                user_text("how are you"),
                assistant_text("hi   "),
                blocks(Role::Assistant, vec![text_block("who are you    ")]),
                user_text("         "),
                user_text(""),
            ],
            vec![
                user_text("Starting the conversation..."),
                assistant_text("hi"),
                blocks(Role::User, vec![text_block("hi"), text_block("how are you")]),
                blocks(
                    Role::Assistant,
                    vec![text_block("hi"), text_block("who are you")],
                ),
            ],
        ),
    ];
    for (name, input, expected) in tests {
        let got = process_messages(input);
        assert_eq!(got, expected, "test failed: {}", name);
    }
}

#[test]
fn merge_correctness() {
    let got = process_messages(vec![user_text("a"), user_text("b")]);
    assert_eq!(got, vec![user_text("a\nb")]);
}

#[test]
fn leading_role_fixup() {
    let got = process_messages(vec![assistant_text("hi")]);
    assert_eq!(
        got,
        vec![user_text("Starting the conversation..."), assistant_text("hi")]
    );
}

#[test]
fn trailing_trim() {
    let got = process_messages(vec![user_text("q"), assistant_text("hi   ")]);
    assert_eq!(got, vec![user_text("q"), assistant_text("hi")]);
}

#[test]
fn empty_drop() {
    let got = process_messages(vec![user_text(""), user_text("  ")]);
    assert_eq!(got, Vec::<Message>::new());
}

#[test]
fn idempotence_on_normalized() {
    let once = process_messages(vec![
        assistant_text("hello   "),
        user_text("q"),
        user_text("r"),
        assistant_text("a   "),
    ]);
    let twice = process_messages(once.clone());
    assert_eq!(once, twice);
}

#[test]
fn message_validate_and_emptiness() {
    let ok = blocks(Role::User, vec![text_block("hi")]);
    assert!(ok.validate().is_ok());
    assert!(!ok.is_all_empty());

    let redacted = blocks(
        Role::User,
        vec![ContentBlock::RedactedThinking(
            await_openai::messages::RedactedThinkingContentBlock::RedactedThinking {
                data: "xyz".to_string(),
            },
        )],
    );
    assert!(redacted.validate().is_err());
    assert!(!redacted.is_all_empty());

    let empty = blocks(Role::User, vec![text_block("   ")]);
    assert!(empty.is_all_empty());
    assert!(user_text("   ").is_all_empty());
    assert!(!user_text("x").is_all_empty());
}
