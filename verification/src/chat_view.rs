//! The decisions of the chat window: what to show, what to select, what to
//! send. Drawing the window is left to the caller.

use crate::message::{
    message_views, Attachment, AttachmentView, ChatMessage, MessageSender, MessageView,
};
use crate::model_config::{ModelConfig, ModelConfigView};
use crate::text::{
    chars_of, decimal, number_contains, occurs_in, parse_index, parsed_number, same_text, trim,
    trimmed,
};
use vstd::prelude::*;
use vstd::string::{StrSliceExecFns, StringExecFns};

verus! {

/// The largest attachment the window takes, in bytes.
pub const MAX_ATTACHMENT_SIZE: u64 = 1024 * 1024;

/// Where the last dot-separated part of a file name begins: behind its last
/// dot, or at its start where it has no dot.
pub open spec fn extension_start(name: Seq<char>) -> int
    decreases name.len(),
{
    if name.len() == 0 {
        0
    } else if name.last() == '.' {
        name.len() as int
    } else {
        extension_start(name.drop_last())
    }
}

/// The last dot-separated part of a file name: what stands behind its last
/// dot, or the whole name where it has no dot.
pub open spec fn extension(name: Seq<char>) -> Seq<char> {
    name.skip(extension_start(name))
}

/// The content type that goes with a file name, by its extension as it is
/// written; `application/octet-stream` for an extension that is not known.
pub open spec fn content_type_of(name: Seq<char>) -> Seq<char> {
    let ending = extension(name);
    if ending == "pdf"@ {
        "application/pdf"@
    } else if ending == "png"@ {
        "image/png"@
    } else if ending == "jpg"@ || ending == "jpeg"@ {
        "image/jpeg"@
    } else if ending == "gif"@ {
        "image/gif"@
    } else if ending == "webp"@ {
        "image/webp"@
    } else {
        "application/octet-stream"@
    }
}

/// The content type to send a chosen file with.
pub fn content_type_for(file_name: &str) -> (content_type: &'static str)
    ensures
        content_type@ == content_type_of(file_name@),
{
    let chars = chars_of(file_name);
    let mut start: usize = chars.len();
    assert(file_name@.take(start as int) =~= file_name@);
    while start > 0 && chars[start - 1] != '.'
        invariant
            start <= chars.len(),
            chars@ == file_name@,
            extension_start(file_name@) == extension_start(file_name@.take(start as int)),
        decreases start,
    {
        assert(file_name@.take(start as int).drop_last() =~= file_name@.take(start - 1));
        start -= 1;
    }
    assert(extension_start(file_name@) == start);
    let ending = file_name.substring_char(start, chars.len());
    assert(ending@ =~= extension(file_name@));
    if same_text(ending, "pdf") {
        "application/pdf"
    } else if same_text(ending, "png") {
        "image/png"
    } else if same_text(ending, "jpg") || same_text(ending, "jpeg") {
        "image/jpeg"
    } else if same_text(ending, "gif") {
        "image/gif"
    } else if same_text(ending, "webp") {
        "image/webp"
    } else {
        "application/octet-stream"
    }
}

/// The HTML that `pulldown_cmark` renders a Markdown text to, with each of
/// four extensions of the syntax switched on or off.
pub uninterp spec fn markdown_html(
    text: Seq<char>,
    tables: bool,
    footnotes: bool,
    strikethrough: bool,
    tasklists: bool,
) -> Seq<char>;

/// `pulldown_cmark::html::push_html` on a `pulldown_cmark::Parser` over the
/// text, made with `Parser::new_ext` and the options `ENABLE_TABLES`,
/// `ENABLE_FOOTNOTES`, `ENABLE_STRIKETHROUGH` and `ENABLE_TASKLISTS` set as
/// the four flags say. The result depends on the text and the flags alone.
#[verifier::external_body]
fn markdown_to_html_with(
    text: &str,
    tables: bool,
    footnotes: bool,
    strikethrough: bool,
    tasklists: bool,
) -> (html: String)
    ensures
        html@ == markdown_html(text@, tables, footnotes, strikethrough, tasklists),
{
    let mut options = pulldown_cmark::Options::empty();
    options.set(pulldown_cmark::Options::ENABLE_TABLES, tables);
    options.set(pulldown_cmark::Options::ENABLE_FOOTNOTES, footnotes);
    options.set(pulldown_cmark::Options::ENABLE_STRIKETHROUGH, strikethrough);
    options.set(pulldown_cmark::Options::ENABLE_TASKLISTS, tasklists);
    let mut html = String::new();
    pulldown_cmark::html::push_html(&mut html, pulldown_cmark::Parser::new_ext(text, options));
    html
}

/// The HTML of a message written in Markdown: tables, footnotes,
/// strikethrough and task lists are all understood.
pub open spec fn message_html(text: Seq<char>) -> Seq<char> {
    markdown_html(text, true, true, true, true)
}

/// Renders the Markdown of a message to HTML.
pub fn markdown_to_html(text: &str) -> (html: String)
    ensures
        html@ == message_html(text@),
{
    markdown_to_html_with(text, true, true, true, true)
}

/// How the text of a message is to be shown.
#[derive(Debug, PartialEq, Eq)]
pub enum MessageBody {
    /// A formula, to be typeset.
    Math { expression: String },
    /// Running text, rendered from Markdown to HTML.
    Markdown { html: String },
}

/// The mathematical value of a [`MessageBody`].
pub enum MessageBodyView {
    Math { expression: Seq<char> },
    Markdown { html: Seq<char> },
}

impl View for MessageBody {
    type V = MessageBodyView;

    open spec fn view(&self) -> MessageBodyView {
        match self {
            MessageBody::Math { expression } => MessageBodyView::Math { expression: expression@ },
            MessageBody::Markdown { html } => MessageBodyView::Markdown { html: html@ },
        }
    }
}

/// Whether a text is a formula: it begins and ends with a dollar sign.
pub open spec fn is_math(text: Seq<char>) -> bool {
    text.len() > 0 && text.first() == '$' && text.last() == '$'
}

/// How many characters a formula's delimiter takes at either end: two where
/// the text begins with two dollar signs, else one.
pub open spec fn delimiter_len(text: Seq<char>) -> int {
    if text.len() >= 2 && text[0] == '$' && text[1] == '$' {
        2
    } else {
        1
    }
}

/// The formula inside its delimiters, without the white space around it.
/// Empty where the text is too short to hold both delimiters.
pub open spec fn math_expression(text: Seq<char>) -> Seq<char> {
    let width = delimiter_len(text);
    if 2 * width <= text.len() {
        trimmed(text.subrange(width, text.len() - width))
    } else {
        Seq::empty()
    }
}

/// How a text is to be shown: as the formula inside it, or as HTML.
pub open spec fn body_of(text: Seq<char>) -> MessageBodyView {
    if is_math(text) {
        MessageBodyView::Math { expression: math_expression(text) }
    } else {
        MessageBodyView::Markdown { html: message_html(text) }
    }
}

/// Decides how the text of a message is to be shown. A text between dollar
/// signs, single or double, is a formula, and one too short to hold both of
/// its delimiters is a formula without content; anything else is Markdown
/// and comes back rendered.
pub fn message_body(text: &str) -> (body: MessageBody)
    ensures
        body@ == body_of(text@),
{
    let chars = chars_of(text);
    let length = chars.len();
    if length > 0 && chars[0] == '$' && chars[length - 1] == '$' {
        let width: usize = if length >= 2 && chars[1] == '$' {
            2
        } else {
            1
        };
        if length - width >= width {
            let inner = text.substring_char(width, length - width);
            MessageBody::Math { expression: String::from_str(trim(inner)) }
        } else {
            MessageBody::Math { expression: String::new() }
        }
    } else {
        MessageBody::Markdown { html: markdown_to_html(text) }
    }
}

/// The messages on screen after a chunk of streamed text has arrived: the
/// chunk is added to the end of the last message where the AI wrote that
/// one, and else opens a new message by the AI.
pub open spec fn with_chunk(messages: Seq<MessageView>, chunk: Seq<char>) -> Seq<MessageView> {
    if messages.len() > 0 && messages.last().sender == MessageSender::AI {
        let last = messages.last();
        let text = match last.text {
            Some(text) => text + chunk,
            None => chunk,
        };
        messages.update(
            messages.len() - 1,
            MessageView { text: Some(text), attachment: last.attachment, sender: last.sender },
        )
    } else {
        messages.push(
            MessageView { text: Some(chunk), attachment: None, sender: MessageSender::AI },
        )
    }
}

/// Takes a chunk of streamed text into the messages on screen.
pub fn merge_chunk(messages: &mut Vec<ChatMessage>, chunk: String)
    ensures
        message_views(final(messages)@) == with_chunk(message_views(old(messages)@), chunk@),
{
    let count = messages.len();
    if count > 0 && messages[count - 1].sender == MessageSender::AI {
        let last = &mut messages[count - 1];
        match &mut last.text {
            Some(text) => {
                text.append(chunk.as_str());
            },
            None => {
                last.text = Some(chunk);
            },
        }
        assert(message_views(messages@) =~= with_chunk(message_views(old(messages)@), chunk@));
    } else {
        messages.push(ChatMessage { text: Some(chunk), attachment: None, sender: MessageSender::AI });
        assert(message_views(messages@) =~= with_chunk(message_views(old(messages)@), chunk@));
    }
}

/// What the window does about its conversation once the list of
/// conversations has arrived.
#[derive(Debug, Clone, Copy, PartialEq, Eq, Structural)]
pub enum Selection {
    /// There is none yet: create one and show it.
    Create,
    /// Show this one.
    Select(usize),
    /// Stay with the one that is shown.
    Keep,
}

/// What to do about the conversation on show, given the ids of all
/// conversations and the id on show, if any: with no conversation at all
/// one is created; with none on show the first of the list is taken.
pub open spec fn selection_for(ids: Seq<usize>, current: Option<usize>) -> Selection {
    if ids.len() == 0 {
        Selection::Create
    } else if current is None {
        Selection::Select(ids.first())
    } else {
        Selection::Keep
    }
}

/// Decides which conversation to show once the list of conversations has
/// arrived.
pub fn initial_selection(ids: &Vec<usize>, current: Option<usize>) -> (selection: Selection)
    ensures
        selection == selection_for(ids@, current),
{
    if ids.len() == 0 {
        Selection::Create
    } else if current.is_none() {
        Selection::Select(ids[0])
    } else {
        Selection::Keep
    }
}

/// The position of the first model called `name`; the length of the list
/// where none is.
pub open spec fn first_named(models: Seq<ModelConfigView>, name: Seq<char>) -> int
    decreases models.len(),
{
    if models.len() == 0 {
        0
    } else if models.first().name == name {
        0
    } else {
        1 + first_named(models.drop_first(), name)
    }
}

/// The entry of the model list that shows as chosen: the first model with
/// the name of the current one, and the first entry where there is no
/// current model or none of its name.
pub open spec fn selected_entry(models: Seq<ModelConfigView>, current: Option<ModelConfigView>) -> int {
    match current {
        Some(model) if first_named(models, model.name) < models.len() => first_named(
            models,
            model.name,
        ),
        _ => 0,
    }
}

/// The values of a list of models.
pub open spec fn model_views(models: Seq<ModelConfig>) -> Seq<ModelConfigView> {
    Seq::new(models.len(), |i: int| models[i]@)
}

/// Finds the entry of the model list that shows as chosen.
pub fn selected_index(models: &Vec<ModelConfig>, current: &Option<ModelConfig>) -> (index: usize)
    ensures
        index == selected_entry(
            model_views(models@),
            match current {
                Some(model) => Some(model@),
                None => None,
            },
        ),
{
    let wanted = match current {
        Some(model) => &model.name,
        None => return 0,
    };
    let ghost all = model_views(models@);
    let mut i: usize = 0;
    assert(all.skip(0) =~= all);
    while i < models.len()
        invariant
            i <= models.len(),
            all == model_views(models@),
            *current matches Some(model) && model@.name == wanted@,
            first_named(all, wanted@) == i + first_named(all.skip(i as int), wanted@),
        decreases models.len() - i,
    {
        assert(all.skip(i as int).first() == models@[i as int]@);
        assert(all.skip(i as int).drop_first() =~= all.skip(i + 1));
        if models[i].name == *wanted {
            assert(first_named(all.skip(i as int), wanted@) == 0);
            assert(first_named(all, wanted@) < all.len());
            return i;
        }
        i += 1;
    }
    assert(all.skip(models.len() as int) =~= Seq::empty());
    0
}

/// Picks the model that the model list reports as chosen. The list reports
/// the position of the entry as text; a text that is no position in the
/// list picks nothing.
pub fn chosen_model<'a>(models: &'a Vec<ModelConfig>, value: &str) -> (chosen: Option<
    &'a ModelConfig,
>)
    ensures
        chosen == match parsed_number(value@) {
            Some(position) if position < models@.len() => Some(&models@[position as int]),
            _ => None,
        },
{
    let count = models.len();
    match parse_index(value) {
        Some(position) => if position < count {
            Some(&models[position])
        } else {
            None
        },
        None => None,
    }
}

/// Whether a checkbox that reports `value` is ticked: it is for `true` and
/// for nothing else.
pub fn is_checked(value: &str) -> (checked: bool)
    ensures
        checked == (value@ == "true"@),
{
    same_text(value, "true")
}

/// What a generated picture is called as an attachment.
pub const GENERATED_IMAGE_NAME: &'static str = "generated_image.png";

/// The content type a generated picture is attached with.
pub const GENERATED_IMAGE_TYPE: &'static str = "image/png";

/// What the message with a generated picture says before the prompt.
pub const GENERATED_IMAGE_NOTE: &'static str = "Generated image for: ";

/// The message a user sends: a text, with or without a file.
pub open spec fn user_message(text: Seq<char>, attachment: Option<Attachment>) -> MessageView {
    MessageView {
        text: Some(text),
        attachment: match attachment {
            Some(file) => Some(file@),
            None => None,
        },
        sender: MessageSender::User,
    }
}

/// The message that carries the model's reply.
pub open spec fn reply_message(text: Seq<char>) -> MessageView {
    MessageView { text: Some(text), attachment: None, sender: MessageSender::AI }
}

/// The message that carries the picture made for a prompt.
pub open spec fn image_message(prompt: Seq<char>, image: Seq<char>) -> MessageView {
    MessageView {
        text: Some(GENERATED_IMAGE_NOTE@ + prompt),
        attachment: Some(
            AttachmentView {
                filename: GENERATED_IMAGE_NAME@,
                content_type: GENERATED_IMAGE_TYPE@,
                data: image,
            },
        ),
        sender: MessageSender::AI,
    }
}

impl ChatMessage {
    /// The message a user sends: a text, with or without a file.
    pub fn from_user(text: String, attachment: Option<Attachment>) -> (message: ChatMessage)
        ensures
            message@ == user_message(text@, attachment),
    {
        ChatMessage { text: Some(text), attachment, sender: MessageSender::User }
    }

    /// The message that carries the model's reply.
    pub fn from_ai(text: String) -> (message: ChatMessage)
        ensures
            message@ == reply_message(text@),
    {
        ChatMessage { text: Some(text), attachment: None, sender: MessageSender::AI }
    }

    /// The message that carries the picture made for a prompt, attached as
    /// a data URI.
    pub fn generated_image(prompt: &str, image: String) -> (message: ChatMessage)
        ensures
            message@ == image_message(prompt@, image@),
    {
        ChatMessage {
            text: Some(String::from_str(GENERATED_IMAGE_NOTE).concat(prompt)),
            attachment: Some(
                Attachment {
                    filename: String::from_str(GENERATED_IMAGE_NAME),
                    content_type: String::from_str(GENERATED_IMAGE_TYPE),
                    data: image,
                },
            ),
            sender: MessageSender::AI,
        }
    }

    /// The message as a chunk of streamed text: its text, or nothing where
    /// it has none.
    pub fn chunk(&self) -> (text: String)
        ensures
            text@ == match self@.text {
                Some(text) => text,
                None => Seq::empty(),
            },
    {
        match &self.text {
            Some(text) => text.clone(),
            None => String::new(),
        }
    }
}

/// The prompt in what was typed: the input without the white space around
/// it, or none where nothing else was typed.
pub open spec fn prompt_in(input: Seq<char>) -> Option<Seq<char>> {
    if trimmed(input).len() == 0 {
        None
    } else {
        Some(trimmed(input))
    }
}

/// Takes the prompt out of what was typed. Input that is empty or all
/// white space is no prompt, and nothing is sent for it.
pub fn prompt_of(input: &str) -> (prompt: Option<String>)
    ensures
        match prompt {
            Some(text) => prompt_in(input@) == Some(text@),
            None => prompt_in(input@) is None,
        },
{
    let inner = trim(input);
    if inner.unicode_len() == 0 {
        None
    } else {
        Some(String::from_str(inner))
    }
}

/// Whether a prompt is answered with a picture instead of a chat
/// completion: the model draws and the user asked for a picture.
pub fn wants_image(model: &ModelConfig, image_requested: bool) -> (image: bool)
    ensures
        image == (model@.capabilities.image_generation && image_requested),
{
    model.capabilities.image_generation && image_requested
}

/// The message to read out, given how many messages were on screen when
/// the window last looked: the newest one where messages have come since,
/// none otherwise.
pub fn newest_to_speak(messages: &Vec<ChatMessage>, seen: usize) -> (newest: Option<&ChatMessage>)
    ensures
        match newest {
            Some(message) => messages@.len() > seen && *message == messages@.last(),
            None => messages@.len() <= seen,
        },
{
    if messages.len() > seen {
        Some(&messages[messages.len() - 1])
    } else {
        None
    }
}

/// Whether a conversation shows under a search text: the text stands
/// somewhere in the digits of the conversation's id. The empty search shows
/// every conversation. Letters find nothing, in either case: an id is
/// written in digits alone.
pub open spec fn matches_search(conv_id: usize, search: Seq<char>) -> bool {
    occurs_in(search, decimal(conv_id as nat))
}

/// Picks the conversations that show under a search text, in their order.
pub fn visible_conversations(ids: &Vec<usize>, search: &str) -> (visible: Vec<usize>)
    ensures
        visible@ == ids@.filter(|id: usize| matches_search(id, search@)),
{
    let ghost shows = |id: usize| matches_search(id, search@);
    let mut visible: Vec<usize> = Vec::new();
    let mut i: usize = 0;
    assert(ids@.take(0).filter(shows) =~= Seq::empty()) by {
        reveal(Seq::filter);
    }
    while i < ids.len()
        invariant
            i <= ids.len(),
            shows == |id: usize| matches_search(id, search@),
            visible@ == ids@.take(i as int).filter(shows),
        decreases ids.len() - i,
    {
        let shown = number_contains(ids[i], search);
        proof {
            let next = ids@.take(i + 1);
            assert(next.drop_last() =~= ids@.take(i as int));
            assert(next.last() == ids@[i as int]);
            assert(shown == shows(ids@[i as int]));
            reveal(Seq::filter);
        }
        if shown {
            visible.push(ids[i]);
        }
        i += 1;
    }
    assert(ids@.take(ids.len() as int) =~= ids@);
    visible
}

} // verus!
