use aura::ai::{
    api_error_message, completion_text, completions_url, finish_response, parse_watch_content,
    parse_watch_summary, request_messages, watch_json_candidate, ChatMessage, ChatRequest, SseDecoder,
    WatchReply,
    WATCH_SYSTEM_PROMPT,
};

fn req(watch: bool) -> ChatRequest {
    ChatRequest {
        session_id: "s".to_string(),
        messages: vec![ChatMessage { role: "user".to_string(), content: "hi".to_string() }],
        model: "m".to_string(),
        watch_target: watch,
    }
}

#[test]
fn endpoint_drops_trailing_slashes() {
    assert_eq!(completions_url("https://api.deepseek.com/v1"), "https://api.deepseek.com/v1/chat/completions");
    assert_eq!(completions_url("http://localhost:11434/v1//"), "http://localhost:11434/v1/chat/completions");
    assert_eq!(completions_url(""), "/chat/completions");
}

#[test]
fn watch_requests_start_with_the_watch_prompt() {
    let ms = request_messages(&req(true));
    assert_eq!(ms.len(), 2);
    assert_eq!(ms[0].role, "system");
    assert_eq!(ms[0].content, WATCH_SYSTEM_PROMPT);
    assert!(WATCH_SYSTEM_PROMPT.contains("{\"summary\": \"核心结论\", \"content\": \"详细回复\"}"));
    assert_eq!(ms[1].content, "hi");
    let plain = request_messages(&req(false));
    assert_eq!(plain.len(), 1);
    assert_eq!(plain[0].role, "user");
}

#[test]
fn api_error_text_keeps_500_characters() {
    let body: String = std::iter::repeat('界').take(600).collect();
    let m = api_error_message("429 Too Many Requests", &body);
    let expected = format!("AI API 返回 429 Too Many Requests 状态码: {}", "界".repeat(500));
    assert_eq!(m, expected);
    assert_eq!(api_error_message("500 Internal Server Error", "oops"), "AI API 返回 500 Internal Server Error 状态码: oops");
}

#[test]
fn watch_candidate_strips_fences() {
    assert_eq!(watch_json_candidate("  ```json\n{\"a\":1}\n```  "), "{\"a\":1}");
    assert_eq!(watch_json_candidate("```\n{}\n```"), "{}");
    assert_eq!(watch_json_candidate(" {} "), "{}");
    assert_eq!(watch_json_candidate("```json```"), "");
    assert_eq!(watch_json_candidate("```json"), "```json");
}

fn reply(s: &str, c: &str) -> Option<WatchReply> {
    Some(WatchReply { summary: s.to_string(), content: c.to_string() })
}

#[test]
fn watch_reply_fields() {
    let r = reply("短", "长的回复");
    assert_eq!(parse_watch_summary(&r), Some("短".to_string()));
    assert_eq!(parse_watch_content(&r), Some("长的回复".to_string()));
    assert_eq!(parse_watch_summary(&None), None);
    assert_eq!(parse_watch_content(&None), None);
}

#[test]
fn finishing_a_watch_reply_splits_summary_and_content() {
    let text = "{\"summary\": \"S\", \"content\": \"C\"}";
    let r = finish_response(text.to_string(), true, reply("S", "C"));
    assert_eq!(r.content, "C");
    assert_eq!(r.summary, Some("S".to_string()));
    let r2 = finish_response(text.to_string(), false, reply("S", "C"));
    assert_eq!(r2.content, text);
    assert_eq!(r2.summary, None);
    let r3 = finish_response("not json".to_string(), true, None);
    assert_eq!(r3.content, "not json");
    assert_eq!(r3.summary, None);
}

#[test]
fn completion_body_outcomes() {
    assert_eq!(completion_text("{\"choices\":[{\"message\":{\"content\":\"hello\"}}]}"), Ok("hello".to_string()));
    let missing = completion_text("{\"choices\":[]}").unwrap_err();
    assert_eq!(missing, "AI 响应缺少 content: {\"choices\":[]}");
    let bad = completion_text("not json").unwrap_err();
    assert_eq!(bad, serde_json::from_str::<serde_json::Value>("not json").unwrap_err().to_string());
    assert_eq!(
        completion_text("{\"choices\":[{\"message\":{\"content\":\"{\\\"summary\\\":\\\"s\\\"}\"}}]}"),
        Ok("{\"summary\":\"s\"}".to_string())
    );
}

const STREAM: &str = "data: {\"choices\":[{\"delta\":{\"content\":\"He\"}}]}\n\n: comment\ndata: {\"choices\":[{\"delta\":{\"content\":\"\"}}]}\ndata: {\"choices\":[{\"delta\":{\"content\":\"llo\"}}]}\r\ndata: not json\ndata:  [DONE] \n";

#[test]
fn event_stream_pieces_in_order() {
    let mut d = SseDecoder::new();
    let pieces = d.feed(STREAM);
    assert_eq!(pieces, vec!["He".to_string(), "llo".to_string()]);
    let r = d.finish(false, None);
    assert_eq!(r.content, "Hello");
    assert_eq!(r.summary, None);
}

#[test]
fn chunk_boundaries_do_not_matter() {
    for split in 0..=STREAM.len() {
        if !STREAM.is_char_boundary(split) {
            continue;
        }
        let mut d = SseDecoder::new();
        let mut pieces = d.feed(&STREAM[..split]);
        pieces.extend(d.feed(&STREAM[split..]));
        assert_eq!(pieces, vec!["He".to_string(), "llo".to_string()], "split at {}", split);
    }
}

#[test]
fn unfinished_line_waits_for_its_newline() {
    let mut d = SseDecoder::new();
    assert!(d.feed("data: {\"choices\":[{\"delta\":{\"content\":\"x\"}}]}").is_empty());
    assert_eq!(d.feed("\n"), vec!["x".to_string()]);
}

#[test]
fn bytes_are_decoded_as_utf8() {
    let mut d = SseDecoder::new();
    let line = "data: {\"choices\":[{\"delta\":{\"content\":\"你好\"}}]}\n".as_bytes();
    assert_eq!(d.feed_bytes(line), vec!["你好".to_string()]);
    assert!(d.feed_bytes(&[0xff, b'\n']).is_empty());
    assert_eq!(d.finish(false, None).content, "你好");
}

#[test]
fn streamed_watch_reply_is_split() {
    let mut d = SseDecoder::new();
    d.feed("data: {\"choices\":[{\"delta\":{\"content\":\"{\\\"summary\\\":\\\"S\\\",\"}}]}\n");
    d.feed("data: {\"choices\":[{\"delta\":{\"content\":\"\\\"content\\\":\\\"C\\\"}\"}}]}\n");
    assert_eq!(d.received_text(), "{\"summary\":\"S\",\"content\":\"C\"}");
    let r = d.finish(true, reply("S", "C"));
    assert_eq!(r.content, "C");
    assert_eq!(r.summary, Some("S".to_string()));
}
