use feedback_bot::feedback::{Feedback, FeedbackStore, Timestamp};
use feedback_bot::hook::{hook, EmptyCommand, Topic, HELP_TEXT};
use feedback_bot::message::{Chat, ChatMessage, Grammar, Sender};

fn message(text: &str, first_name: Option<&str>, username: Option<&str>, chat: Option<i64>) -> ChatMessage {
    ChatMessage {
        text: Some(text.to_string()),
        from: Some(Sender { first_name: first_name.map(|s| s.to_string()), username: username.map(|s| s.to_string()) }),
        chat: Some(Chat { id: chat }),
    }
}

#[test]
fn idea_is_recorded_and_acknowledged() {
    let mut store = FeedbackStore::new();
    let m = message("/idea launch a contest", Some("Ana"), Some("ana99"), Some(555));
    let out = hook(&mut store, &m, Grammar::Slash, EmptyCommand::Remind, Timestamp { micros: 7 });
    let all = Feedback::read_all(&store);
    assert_eq!(all.len(), 1);
    let r = &all[0];
    assert_eq!(r.category, "idea");
    assert_eq!(r.content, "launch a contest");
    assert_eq!(r.username, "Ana");
    assert_eq!(r.nickname, "ana99");
    assert_eq!(r.source, "Telegram");
    assert_eq!(r.reference, "");
    assert_eq!(r.applied, 0);
    assert_eq!(out.created, all);
    assert_eq!(out.replies.len(), 1);
    assert_eq!(out.replies[0].chat_id, 555);
    assert_eq!(out.replies[0].text, "Muchas gracias por compartir tu idea @ana99");
}

#[test]
fn question_is_recorded_with_name_when_no_handle() {
    let mut store = FeedbackStore::new();
    let m = message("/pregunta ¿cuánto duermes?", Some("Ana"), None, Some(1));
    let out = hook(&mut store, &m, Grammar::Slash, EmptyCommand::Remind, Timestamp { micros: 7 });
    assert_eq!(out.created.len(), 1);
    assert_eq!(out.created[0].category, "pregunta");
    assert_eq!(out.created[0].nickname, "");
    assert_eq!(out.replies[0].text, "Muchas gracias por tu pregunta Ana");
}

#[test]
fn comment_is_recorded_with_its_reference() {
    let mut store = FeedbackStore::new();
    let m = message("/comentario 123 me gusta", None, Some("bob"), Some(2));
    let out = hook(&mut store, &m, Grammar::Slash, EmptyCommand::Remind, Timestamp { micros: 7 });
    assert_eq!(out.created.len(), 1);
    assert_eq!(out.created[0].category, "comentario");
    assert_eq!(out.created[0].reference, "123");
    assert_eq!(out.created[0].content, "me gusta");
    assert_eq!(out.created[0].username, "");
    assert_eq!(out.replies[0].text, "Muchas gracias por tu comentario @bob");
}

#[test]
fn empty_command_reminds_or_stays_silent() {
    let mut store = FeedbackStore::new();
    let m = message("/idea", Some("Ana"), Some("ana99"), Some(555));
    let out = hook(&mut store, &m, Grammar::Slash, EmptyCommand::Remind, Timestamp { micros: 7 });
    assert!(out.created.is_empty());
    assert_eq!(out.replies.len(), 1);
    assert_eq!(out.replies[0].text, "Tienes que escribir `/idea` seguido del contenido, @ana99");
    let quiet = hook(&mut store, &m, Grammar::Slash, EmptyCommand::Ignore, Timestamp { micros: 7 });
    assert!(quiet.created.is_empty() && quiet.replies.is_empty());
    assert!(Feedback::read_all(&store).is_empty());
}

#[test]
fn empty_comment_follows_the_policy() {
    let mut store = FeedbackStore::new();
    let m = message("/comentario", Some("Ana"), None, Some(3));
    let out = hook(&mut store, &m, Grammar::Slash, EmptyCommand::Remind, Timestamp { micros: 7 });
    assert!(out.created.is_empty());
    assert_eq!(out.replies[0].text, "Tienes que escribir `/comentario` seguido del contenido, Ana");
}

#[test]
fn help_is_answered() {
    let mut store = FeedbackStore::new();
    let m = message("/ayuda", Some("Ana"), None, Some(9));
    let out = hook(&mut store, &m, Grammar::Slash, EmptyCommand::Remind, Timestamp { micros: 7 });
    assert!(out.created.is_empty());
    assert_eq!(out.replies.len(), 1);
    assert_eq!(out.replies[0].text, HELP_TEXT);
    assert_eq!(out.replies[0].chat_id, 9);
}

#[test]
fn unknown_chat_is_recorded_without_answers() {
    let mut store = FeedbackStore::new();
    let m = message("/idea quiet one", Some("Ana"), None, None);
    let out = hook(&mut store, &m, Grammar::Slash, EmptyCommand::Remind, Timestamp { micros: 7 });
    assert_eq!(out.created.len(), 1);
    assert!(out.replies.is_empty());
}

#[test]
fn plain_chatter_does_nothing() {
    let mut store = FeedbackStore::new();
    let m = message("hola a todos", Some("Ana"), None, Some(4));
    let out = hook(&mut store, &m, Grammar::Slash, EmptyCommand::Remind, Timestamp { micros: 7 });
    assert!(out.created.is_empty() && out.replies.is_empty());
}

#[test]
fn failed_record_is_apologised_for() {
    let stored = Feedback {
        id: i64::MAX - 1,
        category: "idea".to_string(),
        reference: String::new(),
        content: "x".to_string(),
        username: String::new(),
        nickname: String::new(),
        applied: 0,
        source: String::new(),
        created_at: Timestamp { micros: 1 },
        updated_at: Timestamp { micros: 1 },
    };
    let mut store = FeedbackStore::restore(vec![stored], 1).unwrap();
    let m = message("/idea one more", Some("Ana"), None, Some(4));
    let out = hook(&mut store, &m, Grammar::Slash, EmptyCommand::Remind, Timestamp { micros: 7 });
    assert!(out.created.is_empty());
    assert_eq!(
        out.replies[0].text,
        "Lo siento Ana, no he podido registrar tu idea. Mira que está pasando @atareao!"
    );
}

#[test]
fn topic_keys() {
    assert_eq!(Topic::Idea.key(), "idea");
    assert_eq!(Topic::Question.key(), "pregunta");
    assert_eq!(Topic::Comment.key(), "comentario");
}

#[test]
fn hashtag_deployment_reads_tags_anywhere() {
    let mut store = FeedbackStore::new();
    let m = message("¿Cuanto duermes? #pregunta", Some("Ana"), Some("ana99"), Some(8));
    let out = hook(&mut store, &m, Grammar::Hashtag, EmptyCommand::Remind, Timestamp { micros: 7 });
    assert_eq!(out.created.len(), 1);
    assert_eq!(out.created[0].category, "pregunta");
    assert_eq!(out.created[0].content, "¿Cuanto duermes?");
    assert_eq!(out.replies[0].text, "Muchas gracias por tu pregunta @ana99");
    let slash = hook(&mut store, &m, Grammar::Slash, EmptyCommand::Remind, Timestamp { micros: 8 });
    assert!(slash.created.is_empty() && slash.replies.is_empty());
}

#[test]
fn hashtag_comment_keeps_its_reference() {
    let mut store = FeedbackStore::new();
    let m = message("#comentario 123 me gusta", Some("Ana"), None, Some(8));
    let out = hook(&mut store, &m, Grammar::Hashtag, EmptyCommand::Remind, Timestamp { micros: 7 });
    assert_eq!(out.created[0].reference, "123");
    assert_eq!(out.created[0].content, "me gusta");
}

#[test]
fn hashtag_help() {
    let mut store = FeedbackStore::new();
    let m = message("necesito #ayuda", None, None, Some(8));
    let out = hook(&mut store, &m, Grammar::Hashtag, EmptyCommand::Remind, Timestamp { micros: 7 });
    assert_eq!(out.replies.len(), 1);
    assert_eq!(out.replies[0].text, HELP_TEXT);
}
