//! The management API's rules: the reply envelope, the bearer check and the
//! handling of record requests.
use vstd::prelude::*;
use vstd::string::*;
use crate::feedback::{
    delete_spec, insert_spec, read_spec, result_view, rewrite_spec, Feedback, FeedbackStore,
    FeedbackView, StoreError, TableView, Timestamp,
};
use crate::hook::or_empty;
use crate::message::opt_string_view;
use crate::text::same_text;

verus! {

/// The envelope of every API answer.
pub struct Respuesta<T> {
    pub code: i32,
    pub status: String,
    pub content: T,
}

/// The content of a reply that only describes what happened.
pub struct Description {
    pub description: String,
}

impl<T> Respuesta<T> {
    /// The envelope for `code`: status `OK` below 300, `KO` from 300 on.
    pub fn new(code: i32, content: T) -> (r: Respuesta<T>)
        ensures
            r.code == code,
            r.status@ == (if code < 300 {
                "OK"@
            } else {
                "KO"@
            }),
            r.content == content,
    {
        let status = if code < 300 {
            String::from_str("OK")
        } else {
            String::from_str("KO")
        };
        Respuesta { code, status, content }
    }

    /// Whether the reply goes out as a success rather than as a bad request:
    /// as its status says, every code below 300 is a success.
    pub fn is_success(&self) -> (r: bool)
        ensures
            r == (self.code < 300),
    {
        self.code < 300
    }
}

impl Respuesta<Description> {
    /// An envelope whose content is a description.
    pub fn simple(code: i32, message: &str) -> (r: Respuesta<Description>)
        ensures
            r.code == code,
            r.status@ == (if code < 300 {
                "OK"@
            } else {
                "KO"@
            }),
            r.content.description@ == message@,
    {
        Respuesta::new(code, Description { description: message.to_owned() })
    }
}

/// The header value that grants access: `Bearer ` and the token.
pub open spec fn bearer(token: Seq<char>) -> Seq<char> {
    "Bearer "@ + token
}

/// Whether the request's authorization header grants access for `token`.
pub fn authorized(header: Option<&str>, token: &str) -> (r: bool)
    ensures
        r == match header {
            Some(h) => h@ == bearer(token@),
            None => false,
        },
{
    match header {
        None => false,
        Some(h) => {
            let expected = String::from_str("Bearer ").concat(token);
            same_text(h, expected.as_str())
        },
    }
}

/// The fields of a create or update request; category and content are
/// mandatory, the rest default to empty (and `applied` to 0).
pub struct FeedbackForm {
    pub category: Option<String>,
    pub reference: Option<String>,
    pub content: Option<String>,
    pub username: Option<String>,
    pub nickname: Option<String>,
    pub applied: Option<i64>,
    pub source: Option<String>,
}

/// Why a record request was refused.
#[derive(Clone, Copy, PartialEq, Eq, Structural, Debug)]
pub enum RequestError {
    MissingCategory,
    MissingContent,
    Store(StoreError),
}

impl RequestError {
    /// The description sent back with the refusal.
    pub fn description(&self) -> (r: &'static str)
        ensures
            r@ == match *self {
                RequestError::MissingCategory => "Bad request!, category is mandatory"@,
                RequestError::MissingContent => "Bad request!, content is mandatory"@,
                RequestError::Store(_) => "Bad request"@,
            },
    {
        match self {
            RequestError::MissingCategory => "Bad request!, category is mandatory",
            RequestError::MissingContent => "Bad request!, content is mandatory",
            RequestError::Store(_) => "Bad request",
        }
    }
}

pub open spec fn applied_or_zero(a: Option<i64>) -> int {
    match a {
        Some(x) => x as int,
        None => 0,
    }
}

pub open spec fn lift(r: Result<FeedbackView, StoreError>) -> Result<FeedbackView, RequestError> {
    match r {
        Ok(v) => Ok(v),
        Err(e) => Err(RequestError::Store(e)),
    }
}

pub open spec fn request_view(r: Result<Feedback, RequestError>) -> Result<FeedbackView, RequestError> {
    match r {
        Ok(f) => Ok(f@),
        Err(e) => Err(e),
    }
}

/// A request refused for a missing mandatory field, or `None` when both are there.
pub open spec fn missing_field(form: FeedbackForm) -> Option<RequestError> {
    if form.category is None {
        Some(RequestError::MissingCategory)
    } else if form.content is None {
        Some(RequestError::MissingContent)
    } else {
        None
    }
}

/// Creating a record from a request.
pub open spec fn create_request_spec(t: TableView, form: FeedbackForm, now: int) -> (
    TableView,
    Result<FeedbackView, RequestError>,
) {
    match missing_field(form) {
        Some(e) => (t, Err(e)),
        None => {
            let (t2, r) = insert_spec(
                t,
                form.category->0@,
                or_empty(opt_string_view(form.reference)),
                form.content->0@,
                or_empty(opt_string_view(form.username)),
                or_empty(opt_string_view(form.nickname)),
                applied_or_zero(form.applied),
                or_empty(opt_string_view(form.source)),
                now,
            );
            (t2, lift(r))
        },
    }
}

/// Rewriting the record `id` from a request.
pub open spec fn update_request_spec(t: TableView, id: int, form: FeedbackForm, now: int) -> (
    TableView,
    Result<FeedbackView, RequestError>,
) {
    match missing_field(form) {
        Some(e) => (t, Err(e)),
        None => {
            let (t2, r) = rewrite_spec(
                t,
                id,
                form.category->0@,
                or_empty(opt_string_view(form.reference)),
                form.content->0@,
                or_empty(opt_string_view(form.username)),
                or_empty(opt_string_view(form.nickname)),
                applied_or_zero(form.applied),
                or_empty(opt_string_view(form.source)),
                now,
            );
            (t2, lift(r))
        },
    }
}

fn text_or_empty(o: &Option<String>) -> (r: &str)
    ensures
        r@ == or_empty(opt_string_view(*o)),
{
    proof {
        reveal_strlit("");
    }
    match o {
        Some(s) => s.as_str(),
        None => "",
    }
}

fn lift_result(r: Result<Feedback, StoreError>) -> (l: Result<Feedback, RequestError>)
    ensures
        request_view(l) == lift(result_view(r)),
{
    match r {
        Ok(f) => Ok(f),
        Err(e) => Err(RequestError::Store(e)),
    }
}

/// Creates a record from a request, with the `applied` value it asks for.
pub fn create_feedback(store: &mut FeedbackStore, form: &FeedbackForm, now: Timestamp) -> (r: Result<
    Feedback,
    RequestError,
>)
    requires
        old(store)@.wf(),
    ensures
        (final(store)@, request_view(r)) == create_request_spec(old(store)@, *form, now.micros as int),
        final(store)@.wf(),
{
    let category = match &form.category {
        Some(value) => value.as_str(),
        None => return Err(RequestError::MissingCategory),
    };
    let content = match &form.content {
        Some(value) => value.as_str(),
        None => return Err(RequestError::MissingContent),
    };
    let applied = match form.applied {
        Some(value) => value,
        None => 0,
    };
    let r = Feedback::new_from(
        store,
        category,
        text_or_empty(&form.reference),
        content,
        text_or_empty(&form.username),
        text_or_empty(&form.nickname),
        applied,
        text_or_empty(&form.source),
        now,
    );
    lift_result(r)
}

/// Rewrites the record `id` from a request.
pub fn update_feedback(store: &mut FeedbackStore, id: i64, form: &FeedbackForm, now: Timestamp) -> (r:
    Result<Feedback, RequestError>)
    requires
        old(store)@.wf(),
    ensures
        (final(store)@, request_view(r)) == update_request_spec(
            old(store)@,
            id as int,
            *form,
            now.micros as int,
        ),
        final(store)@.wf(),
{
    let category = match &form.category {
        Some(value) => value.as_str(),
        None => return Err(RequestError::MissingCategory),
    };
    let content = match &form.content {
        Some(value) => value.as_str(),
        None => return Err(RequestError::MissingContent),
    };
    let applied = match form.applied {
        Some(value) => value,
        None => 0,
    };
    let r = Feedback::update_from(
        store,
        id,
        category,
        text_or_empty(&form.reference),
        content,
        text_or_empty(&form.username),
        text_or_empty(&form.nickname),
        applied,
        text_or_empty(&form.source),
        now,
    );
    lift_result(r)
}

/// Deletes the record `id` and hands it back; `NotFound` when there is none.
pub fn delete_one_feedback(store: &mut FeedbackStore, id: i64) -> (r: Result<Feedback, StoreError>)
    requires
        old(store)@.wf(),
    ensures
        result_view(r) == read_spec(old(store)@, id as int),
        final(store)@ == (match r {
            Ok(f) => delete_spec(old(store)@, id as int).0,
            Err(_) => old(store)@,
        }),
        final(store)@.wf(),
{
    match Feedback::read(store, id) {
        Ok(feedback) => {
            feedback.delete(store);
            Ok(feedback)
        },
        Err(e) => Err(e),
    }
}

} // verus!
