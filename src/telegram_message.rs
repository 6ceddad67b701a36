use vstd::prelude::*;
use vstd::string::StringExecFns;

verus! {

/// A chat message to send through the Bot API.
#[derive(Debug, Clone)]
pub struct Message {
    pub bot_token: String,
    pub chat_id: String,
    pub thread_id: Option<String>,
    pub text: String,
    pub disable_notification: Option<bool>,
    pub protect_content: Option<bool>,
    pub disable_link_preview: Option<bool>,
    pub parse_mode: Option<String>,
}

/// The text of an optional string, as an optional sequence of characters.
pub open spec fn opt_chars(s: Option<String>) -> Option<Seq<char>> {
    match s {
        Some(t) => Some(t@),
        None => None,
    }
}

/// The fields set so far on a [`MessageBuilder`].
pub ghost struct MessageBuilderView {
    pub bot_token: Option<Seq<char>>,
    pub chat_id: Option<Seq<char>>,
    pub thread_id: Option<Seq<char>>,
    pub text: Option<Seq<char>>,
    pub disable_notification: Option<bool>,
    pub protect_content: Option<bool>,
    pub disable_link_preview: Option<bool>,
    pub parse_mode: Option<Seq<char>>,
}

impl MessageBuilderView {
    /// No field set.
    pub open spec fn unset() -> MessageBuilderView {
        MessageBuilderView {
            bot_token: None,
            chat_id: None,
            thread_id: None,
            text: None,
            disable_notification: None,
            protect_content: None,
            disable_link_preview: None,
            parse_mode: None,
        }
    }
}

/// Builds a [`Message`] field by field; unset text fields become empty.
#[derive(Clone)]
pub struct MessageBuilder {
    bot_token: Option<String>,
    chat_id: Option<String>,
    thread_id: Option<String>,
    text: Option<String>,
    disable_notification: Option<bool>,
    protect_content: Option<bool>,
    disable_link_preview: Option<bool>,
    parse_mode: Option<String>,
}

impl View for MessageBuilder {
    type V = MessageBuilderView;

    closed spec fn view(&self) -> MessageBuilderView {
        MessageBuilderView {
            bot_token: opt_chars(self.bot_token),
            chat_id: opt_chars(self.chat_id),
            thread_id: opt_chars(self.thread_id),
            text: opt_chars(self.text),
            disable_notification: self.disable_notification,
            protect_content: self.protect_content,
            disable_link_preview: self.disable_link_preview,
            parse_mode: opt_chars(self.parse_mode),
        }
    }
}

/// The characters of an optional text, empty when it is unset.
pub open spec fn chars_or_empty(s: Option<Seq<char>>) -> Seq<char> {
    match s {
        Some(t) => t,
        None => Seq::empty(),
    }
}

fn string_or_empty(s: Option<String>) -> (r: String)
    ensures
        r@ == chars_or_empty(opt_chars(s)),
{
    match s {
        Some(t) => t,
        None => String::new(),
    }
}

impl MessageBuilder {
    /// A builder with no field set.
    pub fn new() -> (r: Self)
        ensures
            r@ == MessageBuilderView::unset(),
    {
        MessageBuilder {
            bot_token: None,
            chat_id: None,
            thread_id: None,
            text: None,
            disable_notification: None,
            protect_content: None,
            disable_link_preview: None,
            parse_mode: None,
        }
    }

    pub fn bot_token(self, bot_token: &str) -> (r: Self)
        ensures
            r@ == (MessageBuilderView { bot_token: Some(bot_token@), ..self@ }),
    {
        let mut b = self;
        b.bot_token = Some(bot_token.to_owned());
        b
    }

    pub fn chat_id(self, chat_id: &str) -> (r: Self)
        ensures
            r@ == (MessageBuilderView { chat_id: Some(chat_id@), ..self@ }),
    {
        let mut b = self;
        b.chat_id = Some(chat_id.to_owned());
        b
    }

    pub fn thread_id(self, thread_id: &str) -> (r: Self)
        ensures
            r@ == (MessageBuilderView { thread_id: Some(thread_id@), ..self@ }),
    {
        let mut b = self;
        b.thread_id = Some(thread_id.to_owned());
        b
    }

    pub fn text(self, text: &str) -> (r: Self)
        ensures
            r@ == (MessageBuilderView { text: Some(text@), ..self@ }),
    {
        let mut b = self;
        b.text = Some(text.to_owned());
        b
    }

    pub fn disable_notification(self, disable_notification: bool) -> (r: Self)
        ensures
            r@ == (MessageBuilderView { disable_notification: Some(disable_notification), ..self@ }),
    {
        let mut b = self;
        b.disable_notification = Some(disable_notification);
        b
    }

    pub fn protect_content(self, protect_content: bool) -> (r: Self)
        ensures
            r@ == (MessageBuilderView { protect_content: Some(protect_content), ..self@ }),
    {
        let mut b = self;
        b.protect_content = Some(protect_content);
        b
    }

    pub fn disable_link_preview(self, disable_link_preview: bool) -> (r: Self)
        ensures
            r@ == (MessageBuilderView { disable_link_preview: Some(disable_link_preview), ..self@ }),
    {
        let mut b = self;
        b.disable_link_preview = Some(disable_link_preview);
        b
    }

    pub fn parse_mode(self, parse_mode: &str) -> (r: Self)
        ensures
            r@ == (MessageBuilderView { parse_mode: Some(parse_mode@), ..self@ }),
    {
        let mut b = self;
        b.parse_mode = Some(parse_mode.to_owned());
        b
    }

    /// The message: unset token, chat and text are empty; the optional
    /// fields stay as they were set.
    pub fn build(self) -> (r: Message)
        ensures
            r.bot_token@ == chars_or_empty(self@.bot_token),
            r.chat_id@ == chars_or_empty(self@.chat_id),
            opt_chars(r.thread_id) == self@.thread_id,
            r.text@ == chars_or_empty(self@.text),
            r.disable_notification == self@.disable_notification,
            r.protect_content == self@.protect_content,
            r.disable_link_preview == self@.disable_link_preview,
            opt_chars(r.parse_mode) == self@.parse_mode,
    {
        Message {
            bot_token: string_or_empty(self.bot_token),
            chat_id: string_or_empty(self.chat_id),
            thread_id: self.thread_id,
            text: string_or_empty(self.text),
            disable_notification: self.disable_notification,
            protect_content: self.protect_content,
            disable_link_preview: self.disable_link_preview,
            parse_mode: self.parse_mode,
        }
    }
}

impl Default for MessageBuilder {
    fn default() -> (r: Self)
        ensures
            r@ == MessageBuilderView::unset(),
    {
        MessageBuilder::new()
    }
}

/// The characters that MarkdownV2 reserves.
pub open spec fn is_reserved(c: char) -> bool {
    c == '\\' || c == '*' || c == '_' || c == '[' || c == ']' || c == '~' || c == '`' || c
        == '>' || c == '#' || c == '-' || c == '|' || c == '{' || c == '}' || c == '.' || c
        == '!' || c == '+' || c == '(' || c == ')' || c == '='
}

/// One character as it appears in escaped text.
pub open spec fn escape_char(c: char) -> Seq<char> {
    if is_reserved(c) {
        seq!['\\', c]
    } else {
        seq![c]
    }
}

/// Text with a backslash put before every reserved character.
pub open spec fn escaped(s: Seq<char>) -> Seq<char>
    decreases s.len(),
{
    if s.len() == 0 {
        Seq::empty()
    } else {
        escaped(s.drop_last()) + escape_char(s.last())
    }
}

fn reserved(c: char) -> (r: bool)
    ensures
        r == is_reserved(c),
{
    c == '\\' || c == '*' || c == '_' || c == '[' || c == ']' || c == '~' || c == '`' || c
        == '>' || c == '#' || c == '-' || c == '|' || c == '{' || c == '}' || c == '.' || c
        == '!' || c == '+' || c == '(' || c == ')' || c == '='
}

/// Relies on std's `String::push`: the character is appended.
#[verifier::external_body]
fn push_char(s: &mut String, c: char)
    ensures
        final(s)@ == old(s)@.push(c),
{
    s.push(c)
}

/// Escapes text for MarkdownV2: a backslash goes before every reserved character.
pub fn escape(raw: &str) -> (r: String)
    ensures
        r@ == escaped(raw@),
{
    let mut out = String::new();
    for c in it: raw.chars()
        invariant
            it.seq() == raw@,
            out@ == escaped(raw@.take(it.index() as int)),
    {
        if reserved(c) {
            push_char(&mut out, '\\');
        }
        push_char(&mut out, c);
        proof {
            let s = raw@.take(it.index() + 1);
            assert(s.drop_last() =~= raw@.take(it.index() as int));
        }
    }
    proof {
        assert(raw@.take(raw@.len() as int) =~= raw@);
    }
    out
}

/// One field of a `sendMessage` request body.
#[derive(Debug, Clone)]
pub enum Param {
    /// `chat_id`, a string.
    ChatId(String),
    /// `chat_id`, null.
    NullChatId,
    /// `text`.
    Text(String),
    /// `parse_mode`.
    ParseMode(String),
    /// `message_thread_id`.
    MessageThreadId(String),
    /// `disable_notification`.
    DisableNotification(bool),
    /// `protect_content`.
    ProtectContent(bool),
    /// `link_preview_options`, an object whose `is_disabled` is this flag.
    LinkPreviewDisabled(bool),
}

/// A request field with its text seen as characters.
pub ghost enum ParamView {
    ChatId(Seq<char>),
    NullChatId,
    Text(Seq<char>),
    ParseMode(Seq<char>),
    MessageThreadId(Seq<char>),
    DisableNotification(bool),
    ProtectContent(bool),
    LinkPreviewDisabled(bool),
}

impl View for Param {
    type V = ParamView;

    open spec fn view(&self) -> ParamView {
        match self {
            Param::ChatId(s) => ParamView::ChatId(s@),
            Param::NullChatId => ParamView::NullChatId,
            Param::Text(s) => ParamView::Text(s@),
            Param::ParseMode(s) => ParamView::ParseMode(s@),
            Param::MessageThreadId(s) => ParamView::MessageThreadId(s@),
            Param::DisableNotification(b) => ParamView::DisableNotification(*b),
            Param::ProtectContent(b) => ParamView::ProtectContent(*b),
            Param::LinkPreviewDisabled(b) => ParamView::LinkPreviewDisabled(*b),
        }
    }
}

/// The views of a list of request fields.
pub open spec fn param_views(ps: Seq<Param>) -> Seq<ParamView> {
    ps.map_values(|p: Param| p@)
}

/// The Bot API endpoint that sends a message with this bot token.
pub open spec fn send_message_url_of(bot_token: Seq<char>) -> Seq<char> {
    "https://api.telegram.org/bot"@ + bot_token + "/sendMessage"@
}

/// The parse mode used when a message names none.
pub open spec fn default_parse_mode() -> Seq<char> {
    "MarkdownV2"@
}

/// A field that is present only when the option holds a value.
pub open spec fn optional_param<T>(o: Option<T>, f: spec_fn(T) -> ParamView) -> Seq<ParamView> {
    match o {
        Some(v) => seq![f(v)],
        None => Seq::empty(),
    }
}

/// The body of the request that sends `m`: chat, text and parse mode (the
/// default one when unset), then thread, notification, protection and link
/// preview settings where the message sets them.
pub open spec fn message_params(m: Message) -> Seq<ParamView> {
    seq![
        ParamView::ChatId(m.chat_id@),
        ParamView::Text(m.text@),
        ParamView::ParseMode(
            match m.parse_mode {
                Some(p) => p@,
                None => default_parse_mode(),
            },
        ),
    ] + optional_param(m.thread_id, |t: String| ParamView::MessageThreadId(t@)) + optional_param(
        m.disable_notification,
        |b: bool| ParamView::DisableNotification(b),
    ) + optional_param(m.protect_content, |b: bool| ParamView::ProtectContent(b)) + optional_param(
        m.disable_link_preview,
        |b: bool| ParamView::LinkPreviewDisabled(b),
    )
}

/// The endpoint to post a message to.
pub fn send_message_url(bot_token: &str) -> (r: String)
    ensures
        r@ == send_message_url_of(bot_token@),
{
    let mut url = String::from_str("https://api.telegram.org/bot");
    url.append(bot_token);
    url.append("/sendMessage");
    url
}

/// The endpoint and body of the request that sends `message`.
pub fn send_message_request(message: &Message) -> (r: (String, Vec<Param>))
    ensures
        r.0@ == send_message_url_of(message.bot_token@),
        param_views(r.1@) == message_params(*message),
{
    let url = send_message_url(message.bot_token.as_str());
    let mut params: Vec<Param> = Vec::new();
    params.push(Param::ChatId(message.chat_id.clone()));
    params.push(Param::Text(message.text.clone()));
    let parse_mode = match &message.parse_mode {
        Some(p) => p.clone(),
        None => "MarkdownV2".to_owned(),
    };
    params.push(Param::ParseMode(parse_mode));
    let ghost base = param_views(params@);
    assert(base =~= seq![
        ParamView::ChatId(message.chat_id@),
        ParamView::Text(message.text@),
        ParamView::ParseMode(
            match message.parse_mode {
                Some(p) => p@,
                None => default_parse_mode(),
            },
        ),
    ]);
    let ghost a = base + optional_param(
        message.thread_id,
        |t: String| ParamView::MessageThreadId(t@),
    );
    if let Some(t) = &message.thread_id {
        params.push(Param::MessageThreadId(t.clone()));
    }
    assert(param_views(params@) =~= a);
    let ghost b = a + optional_param(
        message.disable_notification,
        |b: bool| ParamView::DisableNotification(b),
    );
    if let Some(d) = message.disable_notification {
        params.push(Param::DisableNotification(d));
    }
    assert(param_views(params@) =~= b);
    let ghost c = b + optional_param(message.protect_content, |b: bool| ParamView::ProtectContent(b));
    if let Some(p) = message.protect_content {
        params.push(Param::ProtectContent(p));
    }
    assert(param_views(params@) =~= c);
    let ghost d = c + optional_param(
        message.disable_link_preview,
        |b: bool| ParamView::LinkPreviewDisabled(b),
    );
    if let Some(l) = message.disable_link_preview {
        params.push(Param::LinkPreviewDisabled(l));
    }
    assert(param_views(params@) =~= d);
    (url, params)
}

/// The text as a JSON string literal, as serde_json writes it: quoted, with
/// quotes, backslashes and control characters escaped.
pub uninterp spec fn json_string_of(s: Seq<char>) -> Seq<char>;

/// Relies on serde_json's `Display` for `Value::String`: the compact JSON
/// string literal of the text.
#[verifier::external_body]
fn json_string(s: &str) -> (r: String)
    ensures
        r@ == json_string_of(s@),
{
    serde_json::Value::String(s.to_owned()).to_string()
}

/// The text of the report sent when a message could not be delivered: the
/// original text as a JSON string, then the error.
pub open spec fn error_report_text_of(original: Seq<char>, error: Seq<char>) -> Seq<char> {
    "\u{274c} Fail to send message\n\nOriginal message: "@ + json_string_of(original)
        + "\nError: "@ + error
}

/// Where failures to deliver a message are reported, if anywhere: without a
/// bot token nothing is reported.
#[derive(Debug, Clone)]
pub struct ErrorReport {
    pub bot_token: Option<String>,
    pub chat_id: Option<String>,
    pub thread_id: Option<String>,
}

/// The body of an error report: the chat (null when unset), link previews
/// off, the thread where one is set, and the report text.
pub open spec fn error_report_params(
    chat_id: Option<String>,
    thread_id: Option<String>,
    text: Seq<char>,
) -> Seq<ParamView> {
    seq![
        match chat_id {
            Some(c) => ParamView::ChatId(c@),
            None => ParamView::NullChatId,
        },
        ParamView::LinkPreviewDisabled(true),
    ] + optional_param(thread_id, |t: String| ParamView::MessageThreadId(t@)) + seq![
        ParamView::Text(text),
    ]
}

impl ErrorReport {
    /// The endpoint and body of the report on `original` failing with
    /// `error`, or `None` when reporting is off.
    pub fn request(&self, original: &Message, error: &str) -> (r: Option<(String, Vec<Param>)>)
        ensures
            match self.bot_token {
                None => r is None,
                Some(token) => r matches Some(req) && req.0@ == send_message_url_of(token@)
                    && param_views(req.1@) == error_report_params(
                    self.chat_id,
                    self.thread_id,
                    error_report_text_of(original.text@, error@),
                ),
            },
    {
        let token = match &self.bot_token {
            Some(t) => t,
            None => return None,
        };
        let url = send_message_url(token.as_str());
        let mut params: Vec<Param> = Vec::new();
        match &self.chat_id {
            Some(c) => params.push(Param::ChatId(c.clone())),
            None => params.push(Param::NullChatId),
        }
        params.push(Param::LinkPreviewDisabled(true));
        if let Some(t) = &self.thread_id {
            params.push(Param::MessageThreadId(t.clone()));
        }
        let mut text = String::from_str("\u{274c} Fail to send message\n\nOriginal message: ");
        let quoted = json_string(original.text.as_str());
        text.append(quoted.as_str());
        text.append("\nError: ");
        text.append(error);
        params.push(Param::Text(text));
        assert(param_views(params@) =~= error_report_params(
            self.chat_id,
            self.thread_id,
            error_report_text_of(original.text@, error@),
        ));
        Some((url, params))
    }
}

/// A fixed destination that overrides the bot, chat and thread of every
/// message sent through a submitter.
#[derive(Debug, Clone)]
pub struct Redirect {
    pub bot_token: String,
    pub chat_id: String,
    pub thread_id: Option<String>,
}

impl Redirect {
    /// The message with its destination replaced; its content is kept.
    pub fn apply(&self, message: Message) -> (r: Message)
        ensures
            r.bot_token@ == self.bot_token@,
            r.chat_id@ == self.chat_id@,
            opt_chars(r.thread_id) == opt_chars(self.thread_id),
            r.text == message.text,
            r.disable_notification == message.disable_notification,
            r.protect_content == message.protect_content,
            r.disable_link_preview == message.disable_link_preview,
            r.parse_mode == message.parse_mode,
    {
        Message {
            bot_token: self.bot_token.clone(),
            chat_id: self.chat_id.clone(),
            thread_id: self.thread_id.clone(),
            ..message
        }
    }
}

} // verus!
