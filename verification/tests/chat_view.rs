use chat_api::chat_view::{
    chosen_model, content_type_for, initial_selection, is_checked, markdown_to_html, merge_chunk,
    message_body, newest_to_speak, prompt_of, selected_index, visible_conversations, wants_image,
    MessageBody, Selection, MAX_ATTACHMENT_SIZE,
};
use chat_api::message::{Attachment, ChatMessage, MessageSender};
use chat_api::model_config::{Capabilities, ModelConfig};

fn s(text: &str) -> String {
    text.to_string()
}

fn said(sender: MessageSender, text: Option<&str>) -> ChatMessage {
    ChatMessage { text: text.map(|t| t.to_string()), attachment: None, sender }
}

fn named(name: &str) -> ModelConfig {
    ModelConfig { name: name.to_string(), ..ModelConfig::default() }
}

#[test]
fn attachments_are_limited_to_one_mebibyte() {
    assert_eq!(MAX_ATTACHMENT_SIZE, 1_048_576);
}

#[test]
fn content_types_by_extension() {
    assert_eq!(content_type_for("paper.pdf"), "application/pdf");
    assert_eq!(content_type_for("shot.png"), "image/png");
    assert_eq!(content_type_for("photo.jpg"), "image/jpeg");
    assert_eq!(content_type_for("photo.jpeg"), "image/jpeg");
    assert_eq!(content_type_for("loop.gif"), "image/gif");
    assert_eq!(content_type_for("pic.webp"), "image/webp");
    assert_eq!(content_type_for("notes.txt"), "application/octet-stream");
}

#[test]
fn content_type_goes_by_the_last_extension_as_written() {
    assert_eq!(content_type_for("archive.tar.pdf"), "application/pdf");
    assert_eq!(content_type_for("paper.pdf.txt"), "application/octet-stream");
    assert_eq!(content_type_for("PAPER.PDF"), "application/octet-stream");
    assert_eq!(content_type_for("paper.pdf "), "application/octet-stream");
    assert_eq!(content_type_for("paper."), "application/octet-stream");
    assert_eq!(content_type_for(""), "application/octet-stream");
    assert_eq!(content_type_for(".png"), "image/png");
    assert_eq!(content_type_for("png"), "image/png");
    assert_eq!(content_type_for("gif"), "image/gif");
    assert_eq!(content_type_for("édition.jpeg"), "image/jpeg");
}

#[test]
fn markdown_is_rendered_to_html() {
    assert_eq!(message_body("hello"), MessageBody::Markdown { html: s("<p>hello</p>\n") });
    assert_eq!(
        message_body("**bold** move"),
        MessageBody::Markdown { html: s("<p><strong>bold</strong> move</p>\n") }
    );
    assert_eq!(message_body(""), MessageBody::Markdown { html: s("") });
}

#[test]
fn markdown_extensions_are_on() {
    assert_eq!(
        message_body("~~gone~~"),
        MessageBody::Markdown { html: s("<p><del>gone</del></p>\n") }
    );
    match message_body("| a | b |\n|---|---|\n| 1 | 2 |") {
        MessageBody::Markdown { html } => assert!(html.starts_with("<table>")),
        MessageBody::Math { .. } => panic!("a table is no formula"),
    }
    match message_body("- [x] done") {
        MessageBody::Markdown { html } => assert!(html.contains("type=\"checkbox\"")),
        MessageBody::Math { .. } => panic!("a task list is no formula"),
    }
    match message_body("note[^1]\n\n[^1]: the note") {
        MessageBody::Markdown { html } => assert!(html.contains("footnote")),
        MessageBody::Math { .. } => panic!("a footnote is no formula"),
    }
}

#[test]
fn text_between_dollar_signs_is_a_formula() {
    assert_eq!(message_body("$x^2$"), MessageBody::Math { expression: s("x^2") });
    assert_eq!(message_body("$$x^2$$"), MessageBody::Math { expression: s("x^2") });
    assert_eq!(message_body("$ a + b $"), MessageBody::Math { expression: s("a + b") });
    assert_eq!(message_body("$$\n\\frac{1}{2}\n$$"), MessageBody::Math { expression: s("\\frac{1}{2}") });
    assert_eq!(message_body("$$$$"), MessageBody::Math { expression: s("") });
    assert_eq!(message_body("$a$ and $b$"), MessageBody::Math { expression: s("a$ and $b") });
}

#[test]
fn double_dollar_opening_takes_two_characters_at_each_end() {
    assert_eq!(message_body("$$ab$"), MessageBody::Math { expression: s("a") });
    assert_eq!(message_body("$$x$"), MessageBody::Math { expression: s("") });
    assert_eq!(message_body("$x$$"), MessageBody::Math { expression: s("x$") });
}

#[test]
fn formula_too_short_for_its_delimiters_is_empty() {
    assert_eq!(message_body("$"), MessageBody::Math { expression: s("") });
    assert_eq!(message_body("$$"), MessageBody::Math { expression: s("") });
    assert_eq!(message_body("$$$"), MessageBody::Math { expression: s("") });
}

#[test]
fn one_dollar_sign_at_one_end_is_no_formula() {
    assert_eq!(message_body("$5 each"), MessageBody::Markdown { html: s("<p>$5 each</p>\n") });
    assert_eq!(message_body("costs 5$"), MessageBody::Markdown { html: s("<p>costs 5$</p>\n") });
    assert_eq!(message_body(" $x$"), MessageBody::Markdown { html: s("<p>$x$</p>\n") });
}

#[test]
fn chunk_opens_a_message_by_the_ai() {
    let mut messages = Vec::new();
    merge_chunk(&mut messages, s("Hel"));
    assert_eq!(messages, vec![said(MessageSender::AI, Some("Hel"))]);
    let mut messages = vec![said(MessageSender::User, Some("question"))];
    merge_chunk(&mut messages, s("Hel"));
    assert_eq!(
        messages,
        vec![said(MessageSender::User, Some("question")), said(MessageSender::AI, Some("Hel"))]
    );
}

#[test]
fn chunk_extends_the_last_message_by_the_ai() {
    let mut messages =
        vec![said(MessageSender::User, Some("question")), said(MessageSender::AI, Some("Hel"))];
    merge_chunk(&mut messages, s("lo"));
    merge_chunk(&mut messages, s(""));
    merge_chunk(&mut messages, s(" there"));
    assert_eq!(
        messages,
        vec![
            said(MessageSender::User, Some("question")),
            said(MessageSender::AI, Some("Hello there"))
        ]
    );
}

#[test]
fn chunk_gives_a_text_to_a_message_without_one() {
    let picture = Attachment {
        filename: s("generated_image.png"),
        content_type: s("image/png"),
        data: s("data:image/svg+xml;base64,AAAA"),
    };
    let mut messages = vec![
        said(MessageSender::AI, Some("earlier")),
        ChatMessage { text: None, attachment: Some(picture.clone()), sender: MessageSender::AI },
    ];
    merge_chunk(&mut messages, s("caption"));
    assert_eq!(
        messages,
        vec![
            said(MessageSender::AI, Some("earlier")),
            ChatMessage {
                text: Some(s("caption")),
                attachment: Some(picture),
                sender: MessageSender::AI
            },
        ]
    );
}

#[test]
fn selection_once_the_list_has_arrived() {
    assert_eq!(initial_selection(&vec![], None), Selection::Create);
    assert_eq!(initial_selection(&vec![], Some(3)), Selection::Create);
    assert_eq!(initial_selection(&vec![0, 1, 2], None), Selection::Select(0));
    assert_eq!(initial_selection(&vec![5, 6], None), Selection::Select(5));
    assert_eq!(initial_selection(&vec![0, 1, 2], Some(1)), Selection::Keep);
    assert_eq!(initial_selection(&vec![0, 1, 2], Some(9)), Selection::Keep);
}

#[test]
fn selected_index_is_the_first_model_of_that_name() {
    let models = vec![named("a"), named("b"), named("c"), named("b")];
    assert_eq!(selected_index(&models, &Some(named("a"))), 0);
    assert_eq!(selected_index(&models, &Some(named("b"))), 1);
    assert_eq!(selected_index(&models, &Some(named("c"))), 2);
}

#[test]
fn selected_index_falls_back_to_the_first_entry() {
    let models = vec![named("a"), named("b")];
    assert_eq!(selected_index(&models, &None), 0);
    assert_eq!(selected_index(&models, &Some(named("z"))), 0);
    assert_eq!(selected_index(&models, &Some(named("B"))), 0);
    assert_eq!(selected_index(&vec![], &Some(named("a"))), 0);
    assert_eq!(selected_index(&vec![], &None), 0);
}

#[test]
fn messages_by_sender() {
    assert_eq!(ChatMessage::from_user(s("hi"), None), said(MessageSender::User, Some("hi")));
    let file = Attachment { filename: s("a.pdf"), content_type: s("application/pdf"), data: s("QQ==") };
    assert_eq!(
        ChatMessage::from_user(s("see"), Some(file.clone())),
        ChatMessage { text: Some(s("see")), attachment: Some(file), sender: MessageSender::User }
    );
    assert_eq!(ChatMessage::from_ai(s("hello")), said(MessageSender::AI, Some("hello")));
}

#[test]
fn message_with_a_generated_image() {
    assert_eq!(
        ChatMessage::generated_image("a cat", s("data:image/svg+xml;base64,AAAA")),
        ChatMessage {
            text: Some(s("Generated image for: a cat")),
            attachment: Some(Attachment {
                filename: s("generated_image.png"),
                content_type: s("image/png"),
                data: s("data:image/svg+xml;base64,AAAA"),
            }),
            sender: MessageSender::AI,
        }
    );
}

#[test]
fn chunk_of_a_message_is_its_text() {
    assert_eq!(said(MessageSender::AI, Some("hello")).chunk(), "hello");
    assert_eq!(said(MessageSender::User, Some("")).chunk(), "");
    assert_eq!(said(MessageSender::AI, None).chunk(), "");
}

#[test]
fn prompt_is_the_trimmed_input() {
    assert_eq!(prompt_of("hello"), Some(s("hello")));
    assert_eq!(prompt_of("  hello world \n"), Some(s("hello world")));
    assert_eq!(prompt_of(""), None);
    assert_eq!(prompt_of("   "), None);
    assert_eq!(prompt_of("\n\t\u{3000}"), None);
}

#[test]
fn image_only_when_the_model_draws_and_the_user_asks() {
    let mut painter = ModelConfig::default();
    painter.capabilities = Capabilities { image_generation: true, ..Capabilities::default() };
    let writer = ModelConfig::default();
    assert!(wants_image(&painter, true));
    assert!(!wants_image(&painter, false));
    assert!(!wants_image(&writer, true));
    assert!(!wants_image(&writer, false));
}

#[test]
fn newest_message_is_read_out_once() {
    let messages = vec![said(MessageSender::User, Some("q")), said(MessageSender::AI, Some("a"))];
    assert_eq!(newest_to_speak(&messages, 0), Some(&messages[1]));
    assert_eq!(newest_to_speak(&messages, 1), Some(&messages[1]));
    assert_eq!(newest_to_speak(&messages, 2), None);
    assert_eq!(newest_to_speak(&messages, 5), None);
    assert_eq!(newest_to_speak(&vec![], 0), None);
}

#[test]
fn search_filters_conversations_by_their_digits() {
    let ids: Vec<usize> = (0..=21).collect();
    assert_eq!(visible_conversations(&ids, ""), ids);
    assert_eq!(visible_conversations(&ids, "1"), vec![1, 10, 11, 12, 13, 14, 15, 16, 17, 18, 19, 21]);
    assert_eq!(visible_conversations(&ids, "12"), vec![12]);
    assert_eq!(visible_conversations(&ids, "0"), vec![0, 10, 20]);
    assert_eq!(visible_conversations(&ids, "x"), Vec::<usize>::new());
    assert_eq!(visible_conversations(&ids, "1 "), Vec::<usize>::new());
    assert_eq!(visible_conversations(&vec![], "1"), Vec::<usize>::new());
    assert_eq!(visible_conversations(&vec![7, 3, 17, 7], "7"), vec![7, 17, 7]);
}

#[test]
fn chosen_model_is_the_entry_at_the_reported_position() {
    let models = vec![named("a"), named("b"), named("c")];
    assert_eq!(chosen_model(&models, "0"), Some(&models[0]));
    assert_eq!(chosen_model(&models, "2"), Some(&models[2]));
    assert_eq!(chosen_model(&models, "+1"), Some(&models[1]));
    assert_eq!(chosen_model(&models, "3"), None);
    assert_eq!(chosen_model(&models, "-1"), None);
    assert_eq!(chosen_model(&models, ""), None);
    assert_eq!(chosen_model(&models, "b"), None);
    assert_eq!(chosen_model(&vec![], "0"), None);
}

#[test]
fn chosen_model_undoes_selected_index() {
    let models = vec![named("a"), named("b"), named("c")];
    for model in &models {
        let shown = selected_index(&models, &Some(model.clone())).to_string();
        assert_eq!(chosen_model(&models, &shown), Some(model));
    }
}

#[test]
fn checkbox_is_ticked_only_for_true() {
    assert!(is_checked("true"));
    assert!(!is_checked("false"));
    assert!(!is_checked(""));
    assert!(!is_checked("True"));
    assert!(!is_checked("on"));
    assert!(!is_checked("1"));
}

#[test]
fn markdown_to_html_alone() {
    assert_eq!(markdown_to_html("# Title"), "<h1>Title</h1>\n");
    assert_eq!(markdown_to_html("a\n\nb"), "<p>a</p>\n<p>b</p>\n");
    assert_eq!(markdown_to_html("<b>raw</b>"), "<p><b>raw</b></p>\n");
}

fn content_type_by_split(file_name: &str) -> &'static str {
    match file_name.split('.').last() {
        Some("pdf") => "application/pdf",
        Some("png") => "image/png",
        Some("jpg") => "image/jpeg",
        Some("jpeg") => "image/jpeg",
        Some("gif") => "image/gif",
        Some("webp") => "image/webp",
        _ => "application/octet-stream",
    }
}

#[test]
fn content_type_agrees_with_splitting_at_dots() {
    for name in [
        "", ".", "..", "a", "a.", ".a", "a.b", "pdf", ".pdf", "x.pdf", "x.pdf.", "x..pdf",
        "x.png", "x.jpg", "x.jpeg", "x.gif", "x.webp", "x.webp.gif", "x.tar.gz", "日本.png",
        "x.pdf\n", "x.PNG", "jpeg", "a.b.c.d.jpeg",
    ] {
        assert_eq!(content_type_for(name), content_type_by_split(name));
    }
}

fn expression_by_slicing(text: &str) -> Option<String> {
    let is_math = (text.starts_with("$$") && text.ends_with("$$"))
        || (text.starts_with('$') && text.ends_with('$'));
    if !is_math {
        return None;
    }
    let width = if text.starts_with("$$") { 2 } else { 1 };
    Some(text[width..text.len() - width].trim().to_string())
}

#[test]
fn formula_agrees_with_slicing_off_the_delimiters() {
    for text in [
        "$x$", "$$x$$", "$$$$", "$ x $", "$$ x + y $$", "$a$b$", "$$a$$b$$", "$$ab$", "$x$$",
        "$$\u{3000}é\u{a0}$$", "$é$", "$\n\\sum_i i\n$", "$$$$$", "$$x$",
    ] {
        let expected = expression_by_slicing(text).expect("a formula");
        assert_eq!(message_body(text), MessageBody::Math { expression: expected });
    }
    for text in ["", "x", "$x", "x$", " $x$", "$x$ ", "x$y$z", "\\$x\\$"] {
        assert_eq!(expression_by_slicing(text), None);
        assert!(matches!(message_body(text), MessageBody::Markdown { .. }));
    }
}
