//! OpenAI-compatible chat completions: request and reply values, and the
//! logic around the HTTP exchange (endpoint, watch prompt, reply parsing,
//! server-sent-event decoding).
use vstd::prelude::*;
use vstd::utf8::{decode_utf8, valid_utf8};
use crate::text::{
    views_of,
    chars_of, concat, has_prefix, has_suffix, owned, push_char, str_eq, strip_prefix, strip_suffix,
    take_chars, take_upto, trim, trim_end_char, trim_end_matching, trim_str, is_ws, trim_start, trim_end,
};

verus! {

broadcast use vstd::string::group_string_axioms;

/// One chat request.
#[derive(Debug, Clone)]
pub struct ChatRequest {
    pub session_id: String,
    pub messages: Vec<ChatMessage>,
    pub model: String,
    /// The reply goes to a watch: the model is asked for a summary and a
    /// content in JSON.
    pub watch_target: bool,
}

/// One chat message.
#[derive(Debug)]
pub struct ChatMessage {
    pub role: String,
    pub content: String,
}

/// A chat message as two character sequences.
pub struct ChatMessageView {
    pub role: Seq<char>,
    pub content: Seq<char>,
}

impl View for ChatMessage {
    type V = ChatMessageView;

    open spec fn view(&self) -> ChatMessageView {
        ChatMessageView { role: self.role@, content: self.content@ }
    }
}

impl Clone for ChatMessage {
    fn clone(&self) -> (r: Self)
        ensures
            r == *self,
    {
        ChatMessage { role: self.role.clone(), content: self.content.clone() }
    }
}

/// The views of a list of messages.
pub open spec fn messages_view(h: Seq<ChatMessage>) -> Seq<ChatMessageView> {
    h.map_values(|m: ChatMessage| m@)
}

/// A copy of a list of messages.
pub fn clone_messages(h: &Vec<ChatMessage>) -> (r: Vec<ChatMessage>)
    ensures
        r@ == h@,
{
    let mut r: Vec<ChatMessage> = Vec::new();
    let mut i: usize = 0;
    while i < h.len()
        invariant
            i <= h@.len(),
            r@ == h@.take(i as int),
        decreases h@.len() - i,
    {
        r.push(h[i].clone());
        assert(r@ =~= h@.take(i + 1));
        i = i + 1;
    }
    assert(h@.take(h@.len() as int) =~= h@);
    r
}

/// The result of a chat request.
#[derive(Debug, Clone)]
pub struct ChatResponse {
    pub content: String,
    pub summary: Option<String>,
}

// ---------------------------------------------------------------------------
// Request side
// ---------------------------------------------------------------------------

/// System prompt used when the reply goes to a watch: the model must answer
/// with {"summary": "...", "content": "..."}.
pub const WATCH_SYSTEM_PROMPT: &'static str = "\n你是用户的 AI 助手。当用户通过 Apple Watch 与你交互时：\n1. 先给出一句 30 字以内的核心结论作为 summary\n2. 然后给出详细回复作为 content\n3. 格式要求：必须输出合法 JSON：{\"summary\": \"核心结论\", \"content\": \"详细回复\"}\n4. 不要在 JSON 外添加任何额外文字、代码块标记或解释\n5. 如果回复包含代码、路径、关键数据，确保 summary 中包含最关键的信息\n";

/// The chat completions endpoint under `base` (trailing `/` removed).
pub open spec fn completions_url_of(base: Seq<char>) -> Seq<char> {
    trim_end_char(base, '/') + "/chat/completions"@
}

/// `{base_url}/chat/completions`, with the trailing slashes of `base_url`
/// removed first.
pub fn completions_url(base_url: &str) -> (url: String)
    ensures
        url@ == completions_url_of(base_url@),
{
    let b = trim_end_matching(base_url, '/');
    concat(b.as_str(), "/chat/completions")
}

/// The system message of watch requests.
pub open spec fn watch_system_message() -> ChatMessageView {
    ChatMessageView { role: "system"@, content: WATCH_SYSTEM_PROMPT@ }
}

/// The messages sent for a request: for a watch, the watch system prompt
/// comes first.
pub open spec fn request_messages_of(
    watch_target: bool,
    messages: Seq<ChatMessageView>,
) -> Seq<ChatMessageView> {
    if watch_target {
        seq![watch_system_message()] + messages
    } else {
        messages
    }
}

/// The messages that a request sends to the API.
pub fn request_messages(req: &ChatRequest) -> (ms: Vec<ChatMessage>)
    ensures
        messages_view(ms@) == request_messages_of(req.watch_target, messages_view(req.messages@)),
{
    let mut ms = clone_messages(&req.messages);
    if req.watch_target {
        let ghost before = ms@;
        ms.insert(0, ChatMessage { role: owned("system"), content: owned(WATCH_SYSTEM_PROMPT) });
        assert(messages_view(ms@) =~= seq![watch_system_message()] + messages_view(before));
    }
    ms
}

/// Error text for a non-success HTTP status: the status and the first 500
/// characters of the body.
pub open spec fn api_error_text(status: Seq<char>, body: Seq<char>) -> Seq<char> {
    "AI API 返回 "@ + status + " 状态码: "@ + take_upto(body, 500)
}

/// The error for a non-success HTTP status (`status` as the HTTP library
/// prints it).
pub fn api_error_message(status: &str, body: &str) -> (m: String)
    ensures
        m@ == api_error_text(status@, body@),
{
    let mut m = concat("AI API 返回 ", status);
    m.append(" 状态码: ");
    let b = take_chars(body, 500);
    m.append(b.as_str());
    m
}

// ---------------------------------------------------------------------------
// Reply side
// ---------------------------------------------------------------------------

/// The string at `text[list][index][object][field]` of the JSON document
/// `text`: `Ok(None)` when there is no string there, `Err` with the JSON
/// parser's error text when `text` is not JSON.
pub uninterp spec fn json_str_in_list(
    text: Seq<char>,
    list: Seq<char>,
    index: usize,
    object: Seq<char>,
    field: Seq<char>,
) -> Result<Option<Seq<char>>, Seq<char>>;

/// The view of an optional string inside a `Result`.
pub open spec fn str_result_view(r: Result<Option<String>, String>) -> Result<Option<Seq<char>>, Seq<char>> {
    match r {
        Ok(Some(s)) => Ok(Some(s@)),
        Ok(None) => Ok(None),
        Err(e) => Err(e@),
    }
}

/// Reads the string at `[list][index][object][field]` of a JSON document.
/// Trusted: `serde_json::from_str::<serde_json::Value>` (an error turned
/// into its text), then `Value`'s indexing along the path and `as_str`.
/// Claimed: the result is a function of its arguments alone.
#[verifier::external_body]
fn decode_str_in_list(
    text: &str,
    list: &str,
    index: usize,
    object: &str,
    field: &str,
) -> (r: Result<Option<String>, String>)
    ensures
        str_result_view(r) == json_str_in_list(text@, list@, index, object@, field@),
{
    match serde_json::from_str::<serde_json::Value>(text) {
        Ok(v) => Ok(v[list][index][object][field].as_str().map(|s| s.to_string())),
        Err(e) => Err(e.to_string()),
    }
}

/// `choices[0].message.content` of a completion reply.
pub open spec fn json_message_content(text: Seq<char>) -> Result<Option<Seq<char>>, Seq<char>> {
    json_str_in_list(text, "choices"@, 0, "message"@, "content"@)
}

/// `choices[0].delta.content` of one streamed event, if the event is JSON
/// and has one.
pub open spec fn json_delta_content(text: Seq<char>) -> Option<Seq<char>> {
    match json_str_in_list(text, "choices"@, 0, "delta"@, "content"@) {
        Ok(Some(d)) => Some(d),
        _ => None,
    }
}

/// Reads `choices[0].message.content` from a completion reply.
fn decode_message_content(text: &str) -> (r: Result<Option<String>, String>)
    ensures
        str_result_view(r) == json_message_content(text@),
{
    decode_str_in_list(text, "choices", 0, "message", "content")
}

/// Reads `choices[0].delta.content` from one streamed event.
fn decode_delta_content(text: &str) -> (r: Option<String>)
    ensures
        opt_seq(r) == json_delta_content(text@),
{
    match decode_str_in_list(text, "choices", 0, "delta", "content") {
        Ok(Some(d)) => Some(d),
        _ => None,
    }
}

/// The part of a model reply that is parsed as the watch JSON: the trimmed
/// reply, without a surrounding ```json ... ``` or ``` ... ``` fence.
pub open spec fn watch_candidate(raw: Seq<char>) -> Seq<char> {
    let t = trim(raw);
    if has_prefix(t, "```json"@) && has_suffix(t.skip(7), "```"@) {
        trim(t.skip(7).subrange(0, t.len() - 10))
    } else if has_prefix(t, "```"@) && has_suffix(t.skip(3), "```"@) {
        trim(t.skip(3).subrange(0, t.len() - 6))
    } else {
        t
    }
}

/// The text of a model reply that is given to the JSON decoder.
pub fn watch_json_candidate(raw: &str) -> (c: String)
    ensures
        c@ == watch_candidate(raw@),
{
    proof {
        reveal_strlit("```json");
        reveal_strlit("```");
    }
    let t = trim_str(raw);
    if let Some(rest) = strip_prefix(t.as_str(), "```json") {
        if let Some(inner) = strip_suffix(rest.as_str(), "```") {
            assert(inner@ =~= t@.skip(7).subrange(0, t@.len() - 10));
            return trim_str(inner.as_str());
        }
    }
    if let Some(rest) = strip_prefix(t.as_str(), "```") {
        if let Some(inner) = strip_suffix(rest.as_str(), "```") {
            assert(inner@ =~= t@.skip(3).subrange(0, t@.len() - 6));
            return trim_str(inner.as_str());
        }
    }
    t
}

/// A watch reply: the JSON `{"summary": ..., "content": ...}` that the
/// watch prompt asks the model for. Its JSON form is decoded by the
/// application layer, with serde's derived decoder for this record: an
/// object with string fields `summary` and `content` (each once; other
/// fields ignored), or an array of the two strings.
#[derive(Debug, Clone)]
pub struct WatchReply {
    pub summary: String,
    pub content: String,
}

/// The view of a decoded watch reply.
pub open spec fn watch_reply_view(r: Option<WatchReply>) -> Option<(Seq<char>, Seq<char>)> {
    match r {
        Some(w) => Some((w.summary@, w.content@)),
        None => None,
    }
}

/// The `summary` of a decoded watch reply.
pub fn parse_watch_summary(reply: &Option<WatchReply>) -> (r: Option<String>)
    ensures
        opt_seq(r) == (match watch_reply_view(*reply) {
            Some(p) => Some(p.0),
            None => None,
        }),
{
    match reply {
        Some(w) => Some(w.summary.clone()),
        None => None,
    }
}

/// The `content` of a decoded watch reply.
pub fn parse_watch_content(reply: &Option<WatchReply>) -> (r: Option<String>)
    ensures
        opt_seq(r) == (match watch_reply_view(*reply) {
            Some(p) => Some(p.1),
            None => None,
        }),
{
    match reply {
        Some(w) => Some(w.content.clone()),
        None => None,
    }
}

/// The view of an optional string.
pub open spec fn opt_seq(o: Option<String>) -> Option<Seq<char>> {
    match o {
        Some(s) => Some(s@),
        None => None,
    }
}

/// The response built from the full reply text `content` and the watch
/// reply decoded from its candidate text (`watch_candidate`): for a watch
/// whose reply decoded, its `content` and `summary`; otherwise the text
/// itself and no summary.
pub open spec fn finished(content: Seq<char>, watch_target: bool, reply: Option<(Seq<char>, Seq<char>)>) -> (
    Seq<char>,
    Option<Seq<char>>,
) {
    match reply {
        Some((s, c)) => if watch_target {
            (c, Some(s))
        } else {
            (content, None)
        },
        None => (content, None),
    }
}

/// Builds the response from the full reply text and, for a watch, the
/// watch reply decoded from `watch_json_candidate(content)`.
pub fn finish_response(content: String, watch_target: bool, reply: Option<WatchReply>) -> (r: ChatResponse)
    ensures
        (r.content@, opt_seq(r.summary)) == finished(content@, watch_target, watch_reply_view(reply)),
{
    let summary = if watch_target {
        parse_watch_summary(&reply)
    } else {
        None
    };
    let final_content = if watch_target && summary.is_some() {
        match parse_watch_content(&reply) {
            Some(c) => c,
            None => content,
        }
    } else {
        content
    };
    ChatResponse { content: final_content, summary }
}

/// The reply text of a non-streamed completion whose HTTP status was a
/// success, or the error the request ends with.
pub open spec fn completion_text_of(text: Seq<char>) -> Result<Seq<char>, Seq<char>> {
    match json_message_content(text) {
        Err(e) => Err(e),
        Ok(None) => Err("AI 响应缺少 content: "@ + take_upto(text, 200)),
        Ok(Some(c)) => Ok(c),
    }
}

/// Reads the reply text out of the body of a successful non-streamed
/// completion.
pub fn completion_text(text: &str) -> (r: Result<String, String>)
    ensures
        match r {
            Ok(c) => completion_text_of(text@) == Ok::<Seq<char>, Seq<char>>(c@),
            Err(e) => completion_text_of(text@) == Err::<Seq<char>, Seq<char>>(e@),
        },
{
    match decode_message_content(text) {
        Err(e) => Err(e),
        Ok(None) => {
            let head = take_chars(text, 200);
            Err(concat("AI 响应缺少 content: ", head.as_str()))
        },
        Ok(Some(c)) => Ok(c),
    }
}

// ---------------------------------------------------------------------------
// Server-sent events
// ---------------------------------------------------------------------------

/// The content piece that one complete event line carries: a trimmed line
/// `data: <json>` whose JSON (not `[DONE]`) has a non-empty
/// `choices[0].delta.content`.
pub open spec fn line_delta(line: Seq<char>) -> Option<Seq<char>> {
    let t = trim(line);
    if !has_prefix(t, "data: "@) {
        None
    } else {
        let j = t.skip(6);
        if trim(j) == "[DONE]"@ {
            None
        } else {
            match json_delta_content(j) {
                Some(d) => if d.len() > 0 {
                    Some(d)
                } else {
                    None
                },
                None => None,
            }
        }
    }
}

/// The pieces of an optional piece.
pub open spec fn piece(o: Option<Seq<char>>) -> Seq<Seq<char>> {
    match o {
        Some(d) => seq![d],
        None => Seq::empty(),
    }
}

/// Decoder state after reading `text` starting from the pending partial
/// line `buf`: the new partial line and the content pieces of the lines
/// completed, in order. A line ends at `\n`.
pub open spec fn sse_feed(buf: Seq<char>, text: Seq<char>) -> (Seq<char>, Seq<Seq<char>>)
    decreases text.len(),
{
    if text.len() == 0 {
        (buf, Seq::empty())
    } else {
        let (b, out) = sse_feed(buf, text.drop_last());
        if text.last() == '\n' {
            (Seq::empty(), out + piece(line_delta(b)))
        } else {
            (b.push(text.last()), out)
        }
    }
}

/// How chunk boundaries fall does not matter: reading `a` then `b` gives
/// the same pending line, and the same pieces in the same order, as reading
/// `a + b` at once.
pub proof fn law_sse_chunking(buf: Seq<char>, a: Seq<char>, b: Seq<char>)
    ensures
        ({
            let (b1, o1) = sse_feed(buf, a);
            let (b2, o2) = sse_feed(b1, b);
            sse_feed(buf, a + b) == (b2, o1 + o2)
        }),
    decreases b.len(),
{
    if b.len() == 0 {
        assert(a + b =~= a);
        let (b1, o1) = sse_feed(buf, a);
        assert(o1 + Seq::<Seq<char>>::empty() =~= o1);
    } else {
        law_sse_chunking(buf, a, b.drop_last());
        assert((a + b).drop_last() =~= a + b.drop_last());
        assert((a + b).last() == b.last());
        let (b1, o1) = sse_feed(buf, a);
        let (c2, p2) = sse_feed(b1, b.drop_last());
        let x = piece(line_delta(c2));
        assert(o1 + p2 + x =~= o1 + (p2 + x));
    }
}

/// Decodes a streamed completion: keeps the partial last line and the
/// content received so far.
pub struct SseDecoder {
    buf: String,
    content: String,
}

/// The concatenation of pieces.
pub open spec fn joined(pieces: Seq<Seq<char>>) -> Seq<char> {
    pieces.flatten()
}

impl SseDecoder {
    /// The partial line not yet ended by `\n`.
    pub closed spec fn pending(&self) -> Seq<char> {
        self.buf@
    }

    /// All content received so far.
    pub closed spec fn received(&self) -> Seq<char> {
        self.content@
    }

    /// A decoder that has read nothing.
    pub fn new() -> (d: Self)
        ensures
            d.pending() == Seq::<char>::empty(),
            d.received() == Seq::<char>::empty(),
    {
        SseDecoder { buf: String::new(), content: String::new() }
    }

    fn line_piece(line: &str) -> (r: Option<String>)
        ensures
            opt_seq(r) == line_delta(line@),
    {
        proof {
            reveal_strlit("data: ");
        }
        let t = trim_str(line);
        match strip_prefix(t.as_str(), "data: ") {
            None => None,
            Some(j) => {
                assert(j@ =~= t@.skip(6));
                let tj = trim_str(j.as_str());
                if str_eq(tj.as_str(), "[DONE]") {
                    None
                } else {
                    match decode_delta_content(j.as_str()) {
                        Some(d) => if d.as_str().is_empty() {
                            None
                        } else {
                            Some(d)
                        },
                        None => None,
                    }
                }
            },
        }
    }

    /// Reads one chunk of the event stream and gives the content pieces of
    /// the lines it completes, in order; they are also added to the
    /// received content.
    pub fn feed(&mut self, chunk: &str) -> (pieces: Vec<String>)
        ensures
            (final(self).pending(), views_of(pieces@)) == sse_feed(old(self).pending(), chunk@),
            final(self).received() == old(self).received() + joined(views_of(pieces@)),
    {
        let v = chars_of(chunk);
        let mut pieces: Vec<String> = Vec::new();
        let mut i: usize = 0;
        assert(v@.take(0) =~= Seq::<char>::empty());
        assert(views_of(pieces@) =~= Seq::<Seq<char>>::empty());
        assert(joined(Seq::<Seq<char>>::empty()) =~= Seq::<char>::empty());
        while i < v.len()
            invariant
                i <= v@.len(),
                v@ == chunk@,
                (self.buf@, views_of(pieces@)) == sse_feed(old(self).buf@, v@.take(i as int)),
                self.content@ == old(self).content@ + joined(views_of(pieces@)),
            decreases v@.len() - i,
        {
            let c = v[i];
            assert(v@.take(i + 1).drop_last() =~= v@.take(i as int));
            assert(v@.take(i + 1).last() == c);
            if c == '\n' {
                let mut line = String::new();
                std::mem::swap(&mut line, &mut self.buf);
                match Self::line_piece(line.as_str()) {
                    Some(d) => {
                        let ghost before = pieces@;
                        self.content.append(d.as_str());
                        pieces.push(d);
                        proof {
                            assert(views_of(pieces@) =~= views_of(before) + seq![d@]);
                            lemma_joined_push(views_of(before), d@);
                        }
                    },
                    None => {
                        assert(views_of(pieces@) =~= views_of(pieces@) + Seq::<Seq<char>>::empty());
                    },
                }
            } else {
                push_char(&mut self.buf, c);
            }
            i = i + 1;
        }
        assert(v@.take(v@.len() as int) =~= v@);
        pieces
    }

    /// Reads one chunk of raw bytes (decoded as UTF-8, invalid sequences
    /// replaced) and gives the content pieces it completes.
    pub fn feed_bytes(&mut self, bytes: &[u8]) -> (pieces: Vec<String>)
        ensures
            (final(self).pending(), views_of(pieces@)) == sse_feed(
                old(self).pending(),
                utf8_lossy_text(bytes@),
            ),
            valid_utf8(bytes@) ==> (final(self).pending(), views_of(pieces@)) == sse_feed(
                old(self).pending(),
                decode_utf8(bytes@),
            ),
            final(self).received() == old(self).received() + joined(views_of(pieces@)),
    {
        let text = utf8_lossy(bytes);
        self.feed(text.as_str())
    }

    /// All content received so far.
    pub fn received_text(&self) -> (r: &String)
        ensures
            r@ == self.received(),
    {
        &self.content
    }

    /// Ends the stream: the response built from all content received and,
    /// for a watch, the watch reply decoded from its candidate text.
    pub fn finish(self, watch_target: bool, reply: Option<WatchReply>) -> (r: ChatResponse)
        ensures
            (r.content@, opt_seq(r.summary)) == finished(self.received(), watch_target, watch_reply_view(reply)),
    {
        finish_response(self.content, watch_target, reply)
    }
}

proof fn lemma_joined_push(s: Seq<Seq<char>>, d: Seq<char>)
    ensures
        joined(s + seq![d]) == joined(s) + d,
{
    assert((s + seq![d]).drop_last() =~= s);
    s.lemma_flatten_push(d);
    assert(s.push(d) =~= s + seq![d]);
}

/// The text that lossy UTF-8 decoding makes of `bytes`: valid sequences
/// decoded, each invalid one replaced by U+FFFD.
pub uninterp spec fn utf8_lossy_text(bytes: Seq<u8>) -> Seq<char>;

/// Decodes bytes as UTF-8, replacing invalid sequences.
/// Trusted: std's `String::from_utf8_lossy`. Claimed: the result is a
/// function of the bytes alone, and (as its documentation says) valid UTF-8
/// comes back unchanged.
#[verifier::external_body]
fn utf8_lossy(bytes: &[u8]) -> (s: String)
    ensures
        s@ == utf8_lossy_text(bytes@),
        valid_utf8(bytes@) ==> s@ == decode_utf8(bytes@),
{
    String::from_utf8_lossy(bytes).into_owned()
}

// ---------------------------------------------------------------------------
// Laws
// ---------------------------------------------------------------------------

/// A request sends the whole history, in order: unchanged for a phone or
/// the desktop; for a watch, the watch system prompt first and then every
/// message of the history.
pub proof fn law_request_sends_whole_history(messages: Seq<ChatMessageView>)
    ensures
        request_messages_of(false, messages) == messages,
        request_messages_of(true, messages).len() == messages.len() + 1,
        request_messages_of(true, messages)[0].role == "system"@,
        request_messages_of(true, messages)[0].content == WATCH_SYSTEM_PROMPT@,
        forall|i: int|
            0 <= i < messages.len() ==> #[trigger] request_messages_of(true, messages)[i + 1]
                == messages[i],
{
}

/// The response to a watch whose reply decoded to `{summary: s, content:
/// c}` is exactly `c` with summary exactly `s`; without a watch, or when
/// nothing decoded, it is the reply text itself with no summary.
pub proof fn law_watch_reply_passes_through(content: Seq<char>, s: Seq<char>, c: Seq<char>)
    ensures
        finished(content, true, Some((s, c))) == (c, Some(s)),
        finished(content, false, Some((s, c))) == (content, None::<Seq<char>>),
        finished(content, true, None) == (content, None::<Seq<char>>),
{
}

proof fn lemma_trim_keeps(s: Seq<char>)
    requires
        s.len() > 0,
        !is_ws(s[0]),
        !is_ws(s.last()),
    ensures
        trim(s) == s,
{
    assert(trim_start(s) == s);
    assert(trim_end(s) == s);
}

proof fn lemma_feed_without_newline(buf: Seq<char>, text: Seq<char>)
    requires
        forall|i: int| 0 <= i < text.len() ==> text[i] != '\n',
    ensures
        sse_feed(buf, text) == (buf + text, Seq::<Seq<char>>::empty()),
    decreases text.len(),
{
    if text.len() == 0 {
        assert(buf + text =~= buf);
    } else {
        lemma_feed_without_newline(buf, text.drop_last());
        assert(text.last() == text[text.len() - 1]);
        assert((buf + text.drop_last()).push(text.last()) =~= buf + text);
    }
}

/// An event line `data: <json>` (one line of JSON, not `[DONE]`) whose
/// `choices[0].delta.content` is a non-empty string `d` yields exactly the
/// piece `d`, character for character, white space included; fed as one
/// complete line, it leaves nothing pending and adds exactly `d` to the
/// received content.
pub proof fn law_event_line_yields_its_delta(j: Seq<char>, d: Seq<char>)
    requires
        j.len() > 0,
        !is_ws(j[0]),
        !is_ws(j.last()),
        forall|i: int| 0 <= i < j.len() ==> j[i] != '\n',
        j != "[DONE]"@,
        json_delta_content(j) == Some(d),
        d.len() > 0,
    ensures
        line_delta("data: "@ + j) == Some(d),
        sse_feed(Seq::empty(), "data: "@ + j + "\n"@) == (Seq::<char>::empty(), seq![d]),
        joined(seq![d]) == d,
{
    reveal_strlit("data: ");
    reveal_strlit("\n");
    let line = "data: "@ + j;
    assert(line[0] == 'd');
    assert(line.last() == j.last());
    lemma_trim_keeps(line);
    lemma_trim_keeps(j);
    assert(line.subrange(0, 6) =~= "data: "@);
    assert(line.skip(6) =~= j);
    assert(line_delta(line) == Some(d));
    let text = line + "\n"@;
    assert forall|i: int| 0 <= i < line.len() implies line[i] != '\n' by {
        if i >= 6 {
            assert(line[i] == j[i - 6]);
        }
    }
    lemma_feed_without_newline(Seq::empty(), line);
    assert(text.drop_last() =~= line);
    assert(text.last() == '\n');
    assert(Seq::<char>::empty() + line =~= line);
    assert(Seq::<Seq<char>>::empty() + seq![d] =~= seq![d]);
    assert(seq![d].drop_last() =~= Seq::<Seq<char>>::empty());
    let none = Seq::<Seq<char>>::empty();
    lemma_joined_push(none, d);
    assert(none + seq![d] =~= seq![d]);
    assert(joined(none) =~= Seq::<char>::empty());
    assert(Seq::<char>::empty() + d =~= d);
}

} // verus!
