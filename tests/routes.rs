use feedback_bot::feedback::{Feedback, FeedbackStore, StoreError, Timestamp};
use feedback_bot::routes::{authorized, create_feedback, delete_one_feedback, update_feedback, FeedbackForm, RequestError, Respuesta};
use feedback_bot::telegram::{send_message_url, Message};
use feedback_bot::zinc::Zinc;
use feedback_bot::channels::Channels;

fn form(category: Option<&str>, content: Option<&str>) -> FeedbackForm {
    FeedbackForm {
        category: category.map(|s| s.to_string()),
        reference: None,
        content: content.map(|s| s.to_string()),
        username: None,
        nickname: None,
        applied: None,
        source: None,
    }
}

#[test]
fn envelope_status_follows_code() {
    let ok = Respuesta::new(200, 5u8);
    assert_eq!((ok.code, ok.status.as_str(), ok.content), (200, "OK", 5u8));
    assert!(ok.is_success());
    let ko = Respuesta::simple(401, "Unauthorized");
    assert_eq!(ko.status, "KO");
    assert_eq!(ko.content.description, "Unauthorized");
    assert!(!ko.is_success());
    let edge = Respuesta::new(299, ());
    assert!(edge.is_success() && edge.status == "OK");
    let at_300 = Respuesta::new(300, ());
    assert!(!at_300.is_success() && at_300.status == "KO");
}

#[test]
fn negative_code_is_a_success_like_its_status() {
    let r = Respuesta::new(-1, ());
    assert_eq!(r.status, "OK");
    assert!(r.is_success());
}

#[test]
fn bearer_token_is_checked() {
    assert!(authorized(Some("Bearer SECRET-REDACTED"), "SECRET-REDACTED"));
    assert!(!authorized(Some("Bearer other"), "SECRET-REDACTED"));
    assert!(!authorized(Some("SECRET-REDACTED"), "SECRET-REDACTED"));
    assert!(!authorized(None, "SECRET-REDACTED"));
}

#[test]
fn create_request_needs_category_then_content() {
    let mut store = FeedbackStore::new();
    let now = Timestamp { micros: 1 };
    assert_eq!(create_feedback(&mut store, &form(None, None), now), Err(RequestError::MissingCategory));
    assert_eq!(create_feedback(&mut store, &form(Some("idea"), None), now), Err(RequestError::MissingContent));
    assert_eq!(
        create_feedback(&mut store, &form(Some(""), Some("x")), now),
        Err(RequestError::Store(StoreError::Validation))
    );
    assert_eq!(RequestError::MissingCategory.description(), "Bad request!, category is mandatory");
    assert_eq!(RequestError::MissingContent.description(), "Bad request!, content is mandatory");
    assert_eq!(RequestError::Store(StoreError::NotFound).description(), "Bad request");
}

#[test]
fn create_request_fills_defaults() {
    let mut store = FeedbackStore::new();
    let mut f = form(Some("idea"), Some("from the api"));
    f.applied = Some(1);
    let r = create_feedback(&mut store, &f, Timestamp { micros: 3 }).unwrap();
    assert_eq!(r.id, 1);
    assert_eq!(r.applied, 1);
    assert_eq!(r.reference, "");
    assert_eq!(r.username, "");
    assert_eq!(r.source, "");
    assert_eq!(Feedback::read(&store, 1), Ok(r));
}

#[test]
fn update_request_rewrites_or_reports_missing() {
    let mut store = FeedbackStore::new();
    let now = Timestamp { micros: 3 };
    assert_eq!(
        update_feedback(&mut store, 1, &form(Some("idea"), Some("x")), now),
        Err(RequestError::Store(StoreError::NotFound))
    );
    create_feedback(&mut store, &form(Some("idea"), Some("x")), now).unwrap();
    let mut f = form(Some("pregunta"), Some("y"));
    f.source = Some("api".to_string());
    let r = update_feedback(&mut store, 1, &f, Timestamp { micros: 4 }).unwrap();
    assert_eq!((r.category.as_str(), r.content.as_str(), r.source.as_str()), ("pregunta", "y", "api"));
    assert_eq!(r.created_at, now);
    assert_eq!(r.updated_at, Timestamp { micros: 4 });
    assert_eq!(update_feedback(&mut store, 1, &form(None, Some("y")), now), Err(RequestError::MissingCategory));
}

#[test]
fn delete_request_hands_back_the_record() {
    let mut store = FeedbackStore::new();
    let r = create_feedback(&mut store, &form(Some("idea"), Some("x")), Timestamp { micros: 1 }).unwrap();
    assert_eq!(delete_one_feedback(&mut store, r.id), Ok(r));
    assert_eq!(delete_one_feedback(&mut store, 1), Err(StoreError::NotFound));
    assert!(Feedback::read_all(&store).is_empty());
}

#[test]
fn zinc_endpoint_and_credentials() {
    let z = Zinc::new("search.example.org", "feedback", "dG9rZW4=");
    assert_eq!(z.url(), "https://search.example.org/api/default/feedback/_json");
    assert_eq!(z.authorization(), "Basic dG9rZW4=");
    assert!(Zinc::accepts(200));
    assert!(!Zinc::accepts(201));
    assert!(!Zinc::accepts(500));
}

#[test]
fn telegram_message_and_endpoint() {
    let m = Message::new(555, "hola");
    assert_eq!((m.chat_id, m.text.as_str()), (555, "hola"));
    assert_eq!(send_message_url("123:abc"), "https://api.telegram.org/bot123:abc/sendMessage");
}

#[test]
fn channels_hold_their_ids() {
    let c = Channels::new("i".to_string(), "c".to_string(), "p".to_string(), "m".to_string());
    assert_eq!((c.idea.as_str(), c.comentario.as_str(), c.pregunta.as_str(), c.mencion.as_str()), ("i", "c", "p", "m"));
}
