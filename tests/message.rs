use feedback_bot::message::{
    check_comment, check_hashtag, check_hashtag_comment, check_key, command, get_chat_id, get_user, Chat, ChatMessage,
    Grammar, Sender,
};

fn text_message(text: &str) -> ChatMessage {
    ChatMessage { text: Some(text.to_string()), from: None, chat: None }
}

#[test]
fn bare_command_gives_empty_content() {
    assert_eq!(check_key("idea", &text_message("/idea")), Some(String::new()));
}

#[test]
fn bare_command_ignores_other_fields() {
    let m = ChatMessage {
        text: Some("/idea".to_string()),
        from: Some(Sender { first_name: Some("Ana".to_string()), username: None }),
        chat: Some(Chat { id: Some(7) }),
    };
    assert_eq!(check_key("idea", &m), Some(String::new()));
}

#[test]
fn command_content_is_trimmed() {
    assert_eq!(check_key("idea", &text_message("/idea   go faster")), Some("go faster".to_string()));
}

#[test]
fn trailing_white_space_is_trimmed() {
    assert_eq!(check_key("idea", &text_message("/idea go faster \t\n")), Some("go faster".to_string()));
}

#[test]
fn unicode_white_space_is_trimmed() {
    assert_eq!(check_key("idea", &text_message("/idea \u{3000}sí\u{a0}")), Some("sí".to_string()));
}

#[test]
fn command_with_only_spaces_gives_empty_content() {
    assert_eq!(check_key("idea", &text_message("/idea    ")), Some(String::new()));
}

#[test]
fn prefix_overlap_does_not_match() {
    assert_eq!(check_key("idea", &text_message("/ideal foo")), None);
    assert_eq!(check_key("idea", &text_message("/ideas")), None);
}

#[test]
fn command_must_open_the_text() {
    assert_eq!(check_key("idea", &text_message("an /idea here")), None);
    assert_eq!(check_key("idea", &text_message("/Idea here")), None);
}

#[test]
fn message_without_text_matches_nothing() {
    let m = ChatMessage { text: None, from: None, chat: None };
    assert_eq!(check_key("idea", &m), None);
    assert_eq!(check_comment("comentario", &m), None);
    assert!(!command("ayuda", &m));
}

#[test]
fn comment_with_reference() {
    assert_eq!(
        check_comment("comentario", &text_message("/comentario 42 nice episode")),
        Some((Some("42".to_string()), Some("nice episode".to_string())))
    );
}

#[test]
fn comment_without_reference() {
    assert_eq!(
        check_comment("comentario", &text_message("/comentario no number here")),
        Some((None, Some("no number here".to_string())))
    );
}

#[test]
fn bare_comment_command() {
    assert_eq!(check_comment("comentario", &text_message("/comentario")), Some((None, Some(String::new()))));
}

#[test]
fn comment_digits_without_space_are_content() {
    assert_eq!(
        check_comment("comentario", &text_message("/comentario 42nd episode")),
        Some((None, Some("42nd episode".to_string())))
    );
    assert_eq!(
        check_comment("comentario", &text_message("/comentario 123")),
        Some((None, Some("123".to_string())))
    );
}

#[test]
fn comment_reference_with_spaces_around_content() {
    assert_eq!(
        check_comment("comentario", &text_message("/comentario   7    great  ")),
        Some((Some("7".to_string()), Some("great".to_string())))
    );
}

#[test]
fn comment_prefix_overlap_does_not_match() {
    assert_eq!(check_comment("comentario", &text_message("/comentarios 1 x")), None);
}

#[test]
fn command_detects_token_with_or_without_content() {
    assert!(command("ayuda", &text_message("/ayuda")));
    assert!(command("ayuda", &text_message("/ayuda please")));
    assert!(!command("ayuda", &text_message("/ayudame")));
}

#[test]
fn user_parts_default_to_empty() {
    let m = ChatMessage {
        text: None,
        from: Some(Sender { first_name: Some("Ana".to_string()), username: Some("ana99".to_string()) }),
        chat: None,
    };
    assert_eq!(get_user(&m), ("Ana".to_string(), "ana99".to_string()));
    let only_name = ChatMessage {
        text: None,
        from: Some(Sender { first_name: Some("Ana".to_string()), username: None }),
        chat: None,
    };
    assert_eq!(get_user(&only_name), ("Ana".to_string(), String::new()));
    let nobody = ChatMessage { text: None, from: None, chat: None };
    assert_eq!(get_user(&nobody), (String::new(), String::new()));
}

#[test]
fn chat_id_is_read_when_present() {
    let m = ChatMessage { text: None, from: None, chat: Some(Chat { id: Some(555) }) };
    assert_eq!(get_chat_id(&m), Some(555));
    let no_id = ChatMessage { text: None, from: None, chat: Some(Chat { id: None }) };
    assert_eq!(get_chat_id(&no_id), None);
    let no_chat = ChatMessage { text: None, from: None, chat: None };
    assert_eq!(get_chat_id(&no_chat), None);
}

#[test]
fn hashtag_matches_anywhere() {
    assert_eq!(
        check_hashtag("idea", &text_message("#idea esta  es una buena idea")),
        Some("esta  es una buena idea".to_string())
    );
    assert_eq!(check_hashtag("pregunta", &text_message("¿Cuanto duermes? #pregunta")), Some("¿Cuanto duermes?".to_string()));
    assert_eq!(check_hashtag("idea", &text_message("una #idea aquí")), Some("una  aquí".to_string()));
    assert_eq!(check_hashtag("idea", &text_message("#idea")), Some(String::new()));
    assert_eq!(check_hashtag("idea", &text_message("no tag here")), None);
    assert_eq!(check_hashtag("idea", &text_message("/idea slash")), None);
}

#[test]
fn hashtag_takes_the_first_occurrence() {
    assert_eq!(check_hashtag("idea", &text_message("a #idea b #idea c")), Some("a  b #idea c".to_string()));
}

#[test]
fn hashtag_comment_splits_reference() {
    assert_eq!(
        check_hashtag_comment("comentario", &text_message("#comentario 123 me gusta")),
        Some((Some("123".to_string()), Some("me gusta".to_string())))
    );
    assert_eq!(
        check_hashtag_comment("comentario", &text_message("me gusta #comentario")),
        Some((None, Some("me gusta".to_string())))
    );
    assert_eq!(check_hashtag_comment("comentario", &text_message("nada")), None);
}

#[test]
fn grammars_are_independent() {
    let slash = text_message("/idea x");
    let tag = text_message("y #idea");
    assert_eq!(Grammar::Slash.matches("idea", &slash), Some("x".to_string()));
    assert_eq!(Grammar::Slash.matches("idea", &tag), None);
    assert_eq!(Grammar::Hashtag.matches("idea", &tag), Some("y".to_string()));
    assert_eq!(Grammar::Hashtag.matches("idea", &slash), None);
    assert_eq!(
        Grammar::Slash.matches_comment("comentario", &text_message("/comentario 5 ok")),
        Some((Some("5".to_string()), Some("ok".to_string())))
    );
    assert_eq!(
        Grammar::Hashtag.matches_comment("comentario", &text_message("5 ok #comentario")),
        Some((Some("5".to_string()), Some("ok".to_string())))
    );
}

#[test]
fn any_white_space_ends_the_command_token() {
    assert_eq!(check_key("idea", &text_message("/idea\tfoo")), Some("foo".to_string()));
    assert_eq!(check_key("idea", &text_message("/idea\nfoo bar")), Some("foo bar".to_string()));
    assert_eq!(check_key("idea", &text_message("/idea\u{3000}foo")), Some("foo".to_string()));
    assert!(command("ayuda", &text_message("/ayuda\n")));
    assert_eq!(
        check_comment("comentario", &text_message("/comentario\t42\tnice")),
        Some((Some("42".to_string()), Some("nice".to_string())))
    );
}
