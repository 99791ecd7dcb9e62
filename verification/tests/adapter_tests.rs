use cursor_api::api::adapter::anthropic::{assistant_content, message_conversation, balance_params, merged_thinking, system_instructions};
use cursor_api::api::adapter::openai::{balance_turns, chat_conversation, inline_image_bytes, split_image_data, split_instructions};
use cursor_api::api::adapter::{
    explicit_context_of, extract_external_links, extract_web_references_info, parse_web_references, sanitize_tool_name,
};
use cursor_api::api::aiserver::v1::conversation_message::Thinking;
use cursor_api::api::model::anthropic::{ContentBlockParam, MessageContent, MessageParam, SystemContent, TextBlockParam};
use cursor_api::api::model::openai::{self, MessageContentObject};
use cursor_api::api::model::Role;

#[test]
fn tool_names() {
    assert_eq!(sanitize_tool_name("my.tool name!"), "my_tool_name");
    assert_eq!(sanitize_tool_name("a-b_c9\tz"), "a-b_c9_z");
    assert_eq!(sanitize_tool_name("工具"), "");
}

#[test]
fn external_links() {
    let mut base = 300u16;
    let links = extract_external_links("see @https://a.com and @ftp://x @http://b.org/p?q=1 @ @nope", &mut base);
    assert_eq!(links.len(), 2);
    assert_eq!(links[0].url, "https://a.com");
    assert_eq!(links[0].uuid, "300");
    assert_eq!(links[1].url, "http://b.org/p?q=1");
    assert_eq!(links[1].uuid, "301");
    assert_eq!(base, 302);

    let mut wrap = u16::MAX;
    let links = extract_external_links("@https://x.io", &mut wrap);
    assert_eq!(links[0].uuid, "65535");
    assert_eq!(wrap, 0);
}

#[test]
fn web_references() {
    let text = "WebReferences:\n1. [Title A](https://a.com)<chunk a>\n 2.  [Title B](https://b.com)\n3. no link\n\nThe answer.";
    let (content, refs, has) = extract_web_references_info(text);
    assert_eq!(content, "The answer.");
    assert!(has);
    assert_eq!(refs.len(), 2);
    assert_eq!(refs[0].title, "Title A");
    assert_eq!(refs[0].url, "https://a.com");
    assert_eq!(refs[0].chunk, "chunk a");
    assert_eq!(refs[1].title, "Title B");
    assert_eq!(refs[1].url, "https://b.com");
    assert_eq!(refs[1].chunk, "");

    let (content, refs, has) = extract_web_references_info("plain text");
    assert_eq!(content, "plain text");
    assert!(refs.is_empty() && !has);

    let (content, refs, has) = extract_web_references_info("WebReferences: but no blank line");
    assert_eq!(content, "WebReferences: but no blank line");
    assert!(refs.is_empty() && !has);

    let refs = parse_web_references("WebReferences:\n1. [T](u)\n\n2. [X](y)");
    assert_eq!(refs.len(), 1);
}

fn msg(role: Role, text: &str) -> openai::Message {
    openai::Message { role, content: openai::MessageContent::String(text.to_string()) }
}

#[test]
fn openai_instructions_and_turns() {
    let inputs = vec![
        msg(Role::System, "be brief"),
        msg(Role::Assistant, "hello"),
        openai::Message {
            role: Role::System,
            content: openai::MessageContent::Array(vec![
                MessageContentObject::Text { text: "line1".to_string() },
                MessageContentObject::ImageUrl { image_url: openai::ImageUrl { url: "u".to_string() } },
                MessageContentObject::Text { text: "line2".to_string() },
            ]),
        },
        msg(Role::User, "question"),
        msg(Role::Assistant, "answer"),
    ];
    let (instructions, chat) = split_instructions(inputs);
    assert_eq!(instructions, "be brief\n\nline1\nline2");
    assert_eq!(chat.len(), 3);
    let chat = balance_turns(chat);
    assert_eq!(chat.len(), 5);
    assert_eq!(chat[0].role, Role::User);
    assert_eq!(chat[1].role, Role::Assistant);
    assert_eq!(chat[4].role, Role::User);
}

#[test]
fn inline_images() {
    assert_eq!(split_image_data("png;base64,AAAA"), Ok(("png", "AAAA")));
    assert_eq!(split_image_data("gif;base64,"), Ok(("gif", "")));
    assert_eq!(split_image_data("bmp;base64,AAAA"), Err("不支持的图片格式，仅支持 PNG、JPEG、WEBP 和非动态 GIF"));
    assert_eq!(split_image_data("png,AAAA"), Err("无效的 base64 图片格式"));
}

#[test]
fn anthropic_system_and_turns() {
    assert_eq!(system_instructions(None), None);
    assert_eq!(system_instructions(Some(SystemContent::String("s".to_string()))), Some("s".to_string()));
    let arr = SystemContent::Array(vec![
        TextBlockParam { text: "a".to_string() },
        TextBlockParam { text: "b".to_string() },
    ]);
    assert_eq!(system_instructions(Some(arr)), Some("a\nb".to_string()));

    let params = vec![MessageParam { role: Role::User, content: MessageContent::String("q".to_string()) }];
    assert_eq!(balance_params(params).len(), 1);
    let params = vec![MessageParam { role: Role::Assistant, content: MessageContent::String("a".to_string()) }];
    let balanced = balance_params(params);
    assert_eq!(balanced.len(), 3);
    assert_eq!(balanced[0].role, Role::User);
    assert_eq!(balanced[2].role, Role::User);
}

#[test]
fn anthropic_thinking_blocks() {
    let (text, blocks) = assistant_content(vec![
        ContentBlockParam::Thinking { thinking: "t1".to_string(), signature: "s1".to_string() },
        ContentBlockParam::Text { text: "x".to_string() },
        ContentBlockParam::RedactedThinking { data: "r".to_string() },
        ContentBlockParam::Text { text: "y".to_string() },
        ContentBlockParam::Thinking { thinking: "t2".to_string(), signature: "s2".to_string() },
    ]);
    assert_eq!(text, "x\ny");
    assert_eq!(blocks.len(), 3);
    assert!(!blocks[0].is_last_thinking_chunk);
    assert_eq!(blocks[1].redacted_thinking, "r");
    assert!(blocks[2].is_last_thinking_chunk);
    let merged = merged_thinking(&blocks).unwrap();
    assert_eq!(merged.text, "t1t2");
    assert!(merged.is_last_thinking_chunk);
    assert!(merged.signature.is_empty());

    let one = vec![Thinking {
        text: "only".to_string(),
        signature: "sig".to_string(),
        redacted_thinking: String::new(),
        is_last_thinking_chunk: false,
    }];
    let m = merged_thinking(&one).unwrap();
    assert_eq!(m.signature, "sig");
    assert!(!m.is_last_thinking_chunk);
    assert!(merged_thinking(&vec![]).is_none());
}

#[test]
fn explicit_context_only_for_real_instructions() {
    assert!(explicit_context_of(String::new()).is_none());
    assert!(explicit_context_of(" \n\t ".to_string()).is_none());
    let c = explicit_context_of(" be brief ".to_string()).unwrap();
    assert_eq!(c.context, " be brief ");
    assert!(c.repo_context.is_none() && c.rules.is_empty() && c.mode_specific_context.is_none());
}

#[test]
fn inline_images_decode() {
    assert_eq!(inline_image_bytes("png;base64,iVBORw==").unwrap(), vec![0x89, 0x50, 0x4e, 0x47]);
    assert_eq!(inline_image_bytes("png;base64,iVBORw").is_err(), true);
    assert_eq!(inline_image_bytes("bmp;base64,AAAA").unwrap_err(), "不支持的图片格式，仅支持 PNG、JPEG、WEBP 和非动态 GIF");
    assert_eq!(inline_image_bytes("png,AAAA").unwrap_err(), "无效的 base64 图片格式");
}

fn bubble_ids(n: usize) -> Vec<(String, String)> {
    (0..n).map(|i| (format!("b{i}"), format!("s{i}"))).collect()
}

#[test]
fn conversation_assembly() {
    let inputs = vec![
        msg(Role::System, "be brief"),
        msg(Role::Assistant, "WebReferences:\n1. [A](https://a.com)\n\nHello"),
        msg(Role::User, "see @https://x.io"),
    ];
    let n = inputs.len() + 2;
    let (instructions, turns) = chat_conversation(inputs, "default".to_string(), bubble_ids(n), 7);
    assert_eq!(instructions, "be brief");
    assert_eq!(turns.len(), 3);
    assert_eq!((turns[0].message_type, turns[0].text.as_str()), (1, ""));
    assert_eq!(turns[0].bubble_id, "b0");
    assert!(turns[0].server_bubble_id.is_none());
    assert_eq!((turns[1].message_type, turns[1].text.as_str()), (2, "Hello"));
    assert_eq!(turns[1].server_bubble_id.as_deref(), Some("s1"));
    assert_eq!(turns[1].use_web, Some(true));
    assert_eq!(turns[1].web_references[0].url, "https://a.com");
    assert_eq!(turns[2].message_type, 1);
    assert_eq!(turns[2].external_links[0].url, "https://x.io");
    assert_eq!(turns[2].external_links[0].uuid, "7");
}

#[test]
fn empty_conversation_and_default_instructions() {
    let inputs = vec![msg(Role::System, "")];
    let (instructions, turns) = chat_conversation(inputs, "default".to_string(), bubble_ids(3), 0);
    assert_eq!(instructions, "default");
    assert_eq!(turns.len(), 1);
    assert_eq!((turns[0].message_type, turns[0].text.as_str(), turns[0].bubble_id.as_str()), (1, "", "b0"));
}

#[test]
fn anthropic_conversation_assembly() {
    let messages = vec![
        MessageParam {
            role: Role::Assistant,
            content: MessageContent::Array(vec![
                ContentBlockParam::Thinking { thinking: "plan".to_string(), signature: "sig".to_string() },
                ContentBlockParam::Text { text: "Hi".to_string() },
            ]),
        },
        MessageParam {
            role: Role::User,
            content: MessageContent::Array(vec![
                ContentBlockParam::Text { text: "a".to_string() },
                ContentBlockParam::Text { text: "@https://y.org".to_string() },
            ]),
        },
    ];
    let (instructions, turns, thinking) =
        message_conversation(messages, Some(SystemContent::String("sys".to_string())), "default".to_string(), bubble_ids(4), 300);
    assert_eq!(instructions, "sys");
    assert_eq!(turns.len(), 3);
    assert_eq!((turns[0].message_type, turns[0].text.as_str()), (1, ""));
    assert_eq!((turns[1].message_type, turns[1].text.as_str()), (2, "Hi"));
    assert_eq!(turns[1].server_bubble_id.as_deref(), Some("s1"));
    assert_eq!((turns[2].message_type, turns[2].text.as_str()), (1, "a\n@https://y.org"));
    assert_eq!(turns[2].external_links[0].uuid, "300");
    assert_eq!(thinking.len(), 3);
    assert!(thinking[0].is_empty() && thinking[2].is_empty());
    assert_eq!(thinking[1].len(), 1);
    assert_eq!(thinking[1][0].text, "plan");
    let (instructions, turns, thinking) = message_conversation(vec![], None, "default".to_string(), bubble_ids(2), 0);
    assert_eq!(instructions, "default");
    assert_eq!((turns.len(), thinking.len()), (1, 1));
}
