//! What the bot does with an inbound chat message: the feedback it records and
//! the answers it posts back.
use vstd::prelude::*;
use vstd::string::*;
use crate::feedback::{insert_spec, Feedback, FeedbackStore, TableView, Timestamp};
use crate::message::{
    chat_id_of, get_chat_id, get_user, grammar_command, grammar_comment, text_of, user_of,
    ChatMessage, Grammar,
};
use crate::telegram::Message;

verus! {

/// What the bot answers to a feedback command that comes with no content.
#[derive(Clone, Copy, PartialEq, Eq, Structural, Debug)]
pub enum EmptyCommand {
    /// Say nothing.
    Ignore,
    /// Remind the sender that the command needs content.
    Remind,
}

/// The feedback commands; each is named after the category its records get.
#[derive(Clone, Copy, PartialEq, Eq, Structural, Debug)]
pub enum Topic {
    Idea,
    Question,
    Comment,
}

pub open spec fn topic_key(t: Topic) -> Seq<char> {
    match t {
        Topic::Idea => "idea"@,
        Topic::Question => "pregunta"@,
        Topic::Comment => "comentario"@,
    }
}

impl Topic {
    /// The command word, which is also the category of the records.
    pub fn key(&self) -> (r: &'static str)
        ensures
            r@ == topic_key(*self),
    {
        match self {
            Topic::Idea => "idea",
            Topic::Question => "pregunta",
            Topic::Comment => "comentario",
        }
    }
}

/// The source tag of records that come from the chat.
pub const SOURCE: &'static str = "Telegram";

/// The command that asks for help.
pub const HELP_COMMAND: &'static str = "ayuda";

/// The answer to the help command.
pub const HELP_TEXT: &'static str = "Ayuda:
¿Como colaborar con tus ideas, preguntas y comentarios?

Utilizando `hastags` (#),

* Para sugerir una idea, utiliza `#idea`. Por ejemplo, `#idea esta  es una buena idea`

* En el caso de que quieras hacer una pregunta para los capítulos de preguntas y respuestas, utiliza `#pregunta`. Por ejemplo `¿Cuanto duermes? #pregunta`

* Si lo que quieres es hacer un comentario a un podcast utiliza `#comentario`. Por ejemplo `#comentario 123 me gusta`. Este comentario en concreto irá al podcast número 123

Indicarte que `#idea`, `#pregunta`, `#comentario` no tienen que ir necesariamenta al principio o al final del mensaje, pueden ir donde tu quieras.
";

/// How the sender is addressed: `@handle` when there is a handle, else the name.
pub open spec fn display_user(name: Seq<char>, nick: Seq<char>) -> Seq<char> {
    if nick.len() > 0 {
        "@"@ + nick
    } else {
        name
    }
}

pub open spec fn missing_text(topic: Topic, user: Seq<char>) -> Seq<char> {
    "Tienes que escribir `/"@ + topic_key(topic) + "` seguido del contenido, "@ + user
}

pub open spec fn thanks_text(topic: Topic, user: Seq<char>) -> Seq<char> {
    match topic {
        Topic::Idea => "Muchas gracias por compartir tu idea "@ + user,
        Topic::Question => "Muchas gracias por tu pregunta "@ + user,
        Topic::Comment => "Muchas gracias por tu comentario "@ + user,
    }
}

pub open spec fn failure_text(topic: Topic, user: Seq<char>) -> Seq<char> {
    "Lo siento "@ + user + ", no he podido registrar tu "@ + topic_key(topic)
        + ". Mira que está pasando @atareao!"@
}

pub open spec fn or_empty(o: Option<Seq<char>>) -> Seq<char> {
    match o {
        Some(s) => s,
        None => Seq::empty(),
    }
}

/// The reference and the content that the topic's command carries in `text`.
pub open spec fn found_spec(g: Grammar, topic: Topic, text: Option<Seq<char>>) -> Option<
    (Seq<char>, Seq<char>),
> {
    match text {
        None => None,
        Some(t) => match topic {
            Topic::Comment => match grammar_comment(g, topic_key(topic), t) {
                None => None,
                Some(p) => Some((or_empty(p.0), or_empty(p.1))),
            },
            _ => match grammar_command(g, topic_key(topic), t) {
                None => None,
                Some(c) => Some((Seq::empty(), c)),
            },
        },
    }
}

/// One topic's turn: a command with content is recorded and thanked for (or
/// apologised for, when recording fails); one without content gets the
/// reminder when the policy asks for it.
pub open spec fn intake_spec(
    t: TableView,
    topic: Topic,
    found: Option<(Seq<char>, Seq<char>)>,
    name: Seq<char>,
    nick: Seq<char>,
    policy: EmptyCommand,
    now: int,
) -> (TableView, Option<Seq<char>>) {
    let user = display_user(name, nick);
    match found {
        None => (t, None),
        Some(f) => if f.1.len() == 0 {
            (
                t,
                if policy == EmptyCommand::Remind {
                    Some(missing_text(topic, user))
                } else {
                    None
                },
            )
        } else {
            let (t2, r) = insert_spec(t, topic_key(topic), f.0, f.1, name, nick, 0, SOURCE@, now);
            (
                t2,
                Some(
                    if r is Ok {
                        thanks_text(topic, user)
                    } else {
                        failure_text(topic, user)
                    },
                ),
            )
        },
    }
}

pub open spec fn opt_seq<A>(o: Option<A>) -> Seq<A> {
    match o {
        Some(x) => seq![x],
        None => Seq::empty(),
    }
}

pub open spec fn asks_for_help(g: Grammar, text: Option<Seq<char>>) -> bool {
    match text {
        Some(x) => grammar_command(g, HELP_COMMAND@, x) is Some,
        None => false,
    }
}

/// The message's effect: the table after the idea, question and comment turns,
/// and the answers in order (the help text first, when asked for).
pub open spec fn hook_spec(
    t: TableView,
    m: ChatMessage,
    g: Grammar,
    policy: EmptyCommand,
    now: int,
) -> (
    TableView,
    Seq<Seq<char>>,
) {
    let (name, nick) = user_of(m);
    let text = text_of(m);
    let (t1, a1) = intake_spec(t, Topic::Idea, found_spec(g, Topic::Idea, text), name, nick, policy, now);
    let (t2, a2) = intake_spec(
        t1,
        Topic::Question,
        found_spec(g, Topic::Question, text),
        name,
        nick,
        policy,
        now,
    );
    let (t3, a3) = intake_spec(
        t2,
        Topic::Comment,
        found_spec(g, Topic::Comment, text),
        name,
        nick,
        policy,
        now,
    );
    let help = if asks_for_help(g, text) {
        seq![HELP_TEXT@]
    } else {
        Seq::empty()
    };
    (t3, help + opt_seq(a1) + opt_seq(a2) + opt_seq(a3))
}

/// The answers as messages to the chat, or none when the chat is unknown.
pub open spec fn addressed(chat: Option<i64>, texts: Seq<Seq<char>>) -> Seq<(i64, Seq<char>)> {
    match chat {
        Some(c) => texts.map_values(|x: Seq<char>| (c, x)),
        None => Seq::empty(),
    }
}

pub open spec fn found_view(o: Option<(String, String)>) -> Option<(Seq<char>, Seq<char>)> {
    match o {
        Some(p) => Some((p.0@, p.1@)),
        None => None,
    }
}

pub open spec fn texts_view(v: Seq<String>) -> Seq<Seq<char>> {
    v.map_values(|s: String| s@)
}

pub open spec fn replies_view(v: Seq<Message>) -> Seq<(i64, Seq<char>)> {
    v.map_values(|m: Message| (m.chat_id, m.text@))
}

pub open spec fn rows_view(v: Seq<Feedback>) -> Seq<crate::feedback::FeedbackView> {
    v.map_values(|f: Feedback| f@)
}

/// What handling a message produced: the records it stored and the messages to post.
pub struct HookOutcome {
    pub created: Vec<Feedback>,
    pub replies: Vec<Message>,
}

fn display_user_name(name: &str, nick: &str) -> (r: String)
    ensures
        r@ == display_user(name@, nick@),
{
    if nick.unicode_len() > 0 {
        String::from_str("@").concat(nick)
    } else {
        name.to_owned()
    }
}

fn or_empty_string(o: Option<String>) -> (r: String)
    ensures
        r@ == or_empty(crate::message::opt_string_view(o)),
{
    match o {
        Some(s) => s,
        None => String::new(),
    }
}

/// The reference and content of the topic's command in the message.
fn found(grammar: Grammar, topic: Topic, message: &ChatMessage) -> (r: Option<(String, String)>)
    ensures
        found_view(r) == found_spec(grammar, topic, text_of(*message)),
{
    match topic {
        Topic::Comment => match grammar.matches_comment(topic.key(), message) {
            None => None,
            Some(p) => Some((or_empty_string(p.0), or_empty_string(p.1))),
        },
        _ => match grammar.matches(topic.key(), message) {
            None => None,
            Some(c) => Some((String::new(), c)),
        },
    }
}

fn thanks(topic: Topic, user: &str) -> (r: String)
    ensures
        r@ == thanks_text(topic, user@),
{
    match topic {
        Topic::Idea => String::from_str("Muchas gracias por compartir tu idea ").concat(user),
        Topic::Question => String::from_str("Muchas gracias por tu pregunta ").concat(user),
        Topic::Comment => String::from_str("Muchas gracias por tu comentario ").concat(user),
    }
}

fn failure(topic: Topic, user: &str) -> (r: String)
    ensures
        r@ == failure_text(topic, user@),
{
    String::from_str("Lo siento ").concat(user).concat(", no he podido registrar tu ").concat(
        topic.key(),
    ).concat(". Mira que está pasando @atareao!")
}

fn missing(topic: Topic, user: &str) -> (r: String)
    ensures
        r@ == missing_text(topic, user@),
{
    String::from_str("Tienes que escribir `/").concat(topic.key()).concat(
        "` seguido del contenido, ",
    ).concat(user)
}

/// One topic's turn against the table: its answer, and the record it stored.
fn intake(
    store: &mut FeedbackStore,
    topic: Topic,
    found: Option<(String, String)>,
    name: &str,
    nick: &str,
    user: &str,
    policy: EmptyCommand,
    now: Timestamp,
) -> (r: (Option<String>, Option<Feedback>))
    requires
        old(store)@.wf(),
        user@ == display_user(name@, nick@),
    ensures
        ({
            let (t2, a) = intake_spec(
                old(store)@,
                topic,
                found_view(found),
                name@,
                nick@,
                policy,
                now.micros as int,
            );
            &&& final(store)@ == t2
            &&& crate::message::opt_string_view(r.0) == a
        }),
        final(store)@.rows == old(store)@.rows + rows_view(opt_seq(r.1)),
        final(store)@.wf(),
{
    match found {
        None => {
            assert(old(store)@.rows =~= old(store)@.rows + rows_view(opt_seq(None::<Feedback>)));
            (None, None)
        },
        Some((reference, content)) => {
            if content.as_str().unicode_len() == 0 {
                assert(old(store)@.rows =~= old(store)@.rows + rows_view(
                    opt_seq(None::<Feedback>),
                ));
                match policy {
                    EmptyCommand::Remind => (Some(missing(topic, user)), None),
                    EmptyCommand::Ignore => (None, None),
                }
            } else {
                let res = Feedback::new_from(
                    store,
                    topic.key(),
                    reference.as_str(),
                    content.as_str(),
                    name,
                    nick,
                    0,
                    SOURCE,
                    now,
                );
                match res {
                    Ok(row) => {
                        assert(final(store)@.rows =~= old(store)@.rows + rows_view(opt_seq(Some(row))));
                        (Some(thanks(topic, user)), Some(row))
                    },
                    Err(_) => {
                        assert(old(store)@.rows =~= old(store)@.rows + rows_view(
                            opt_seq(None::<Feedback>),
                        ));
                        (Some(failure(topic, user)), None)
                    },
                }
            }
        },
    }
}

/// One topic's turn, with its answer added to `texts` and its record to `created`.
fn turn(
    store: &mut FeedbackStore,
    texts: &mut Vec<String>,
    created: &mut Vec<Feedback>,
    Ghost(base): Ghost<Seq<crate::feedback::FeedbackView>>,
    grammar: Grammar,
    topic: Topic,
    message: &ChatMessage,
    name: &str,
    nick: &str,
    user: &str,
    policy: EmptyCommand,
    now: Timestamp,
)
    requires
        old(store)@.wf(),
        user@ == display_user(name@, nick@),
        old(store)@.rows == base + rows_view(old(created)@),
    ensures
        ({
            let (t2, a) = intake_spec(
                old(store)@,
                topic,
                found_spec(grammar, topic, text_of(*message)),
                name@,
                nick@,
                policy,
                now.micros as int,
            );
            &&& final(store)@ == t2
            &&& texts_view(final(texts)@) == texts_view(old(texts)@) + opt_seq(a)
        }),
        final(store)@.rows == base + rows_view(final(created)@),
        final(store)@.wf(),
{
    let (answer, row) = intake(store, topic, found(grammar, topic, message), name, nick, user, policy, now);
    match answer {
        Some(x) => {
            texts.push(x);
        },
        None => {},
    }
    assert(texts_view(final(texts)@) =~= texts_view(old(texts)@) + opt_seq(
        crate::message::opt_string_view(answer),
    ));
    match row {
        Some(f) => {
            created.push(f);
        },
        None => {},
    }
    assert(rows_view(final(created)@) =~= rows_view(old(created)@) + rows_view(opt_seq(row)));
}

/// The texts as messages to `chat`; none when the chat is unknown.
fn address(chat: Option<i64>, texts: &Vec<String>) -> (r: Vec<Message>)
    ensures
        replies_view(r@) == addressed(chat, texts_view(texts@)),
{
    let mut out: Vec<Message> = Vec::new();
    match chat {
        None => {},
        Some(c) => {
            let mut i: usize = 0;
            while i < texts.len()
                invariant
                    i <= texts@.len(),
                    out@.len() == i,
                    forall|k: int|
                        0 <= k < i ==> (#[trigger] out@[k]).chat_id == c && out@[k].text@
                            == texts@[k]@,
                decreases texts.len() - i,
            {
                out.push(Message::new(c, texts[i].as_str()));
                i = i + 1;
            }
        },
    }
    assert(replies_view(out@) =~= addressed(chat, texts_view(texts@)));
    out
}

/// Handles one inbound message, read with the deployment's grammar: the help
/// text when it asks for help, then the idea, question and comment commands in turn, each recorded in `store` with
/// the sender's name and handle and the chat source tag. The answers go to the
/// message's chat; a message from an unknown chat is still recorded.
pub fn hook(
    store: &mut FeedbackStore,
    message: &ChatMessage,
    grammar: Grammar,
    policy: EmptyCommand,
    now: Timestamp,
) -> (r: HookOutcome)
    requires
        old(store)@.wf(),
    ensures
        final(store)@ == hook_spec(old(store)@, *message, grammar, policy, now.micros as int).0,
        final(store)@.wf(),
        final(store)@.rows == old(store)@.rows + rows_view(r.created@),
        replies_view(r.replies@) == addressed(
            chat_id_of(*message),
            hook_spec(old(store)@, *message, grammar, policy, now.micros as int).1,
        ),
{
    let (name, nick) = get_user(message);
    let user = display_user_name(name.as_str(), nick.as_str());
    let chat = get_chat_id(message);
    let ghost t0 = store@;
    let mut texts: Vec<String> = Vec::new();
    let help = grammar.matches(HELP_COMMAND, message);
    if help.is_some() {
        texts.push(HELP_TEXT.to_owned());
    }
    assert(texts_view(texts@) =~= if asks_for_help(grammar, text_of(*message)) {
        seq![HELP_TEXT@]
    } else {
        Seq::empty()
    });
    let mut created: Vec<Feedback> = Vec::new();
    assert(t0.rows =~= t0.rows + rows_view(created@));
    turn(
        store,
        &mut texts,
        &mut created,
        Ghost(t0.rows),
        grammar,
        Topic::Idea,
        message,
        name.as_str(),
        nick.as_str(),
        user.as_str(),
        policy,
        now,
    );
    turn(
        store,
        &mut texts,
        &mut created,
        Ghost(t0.rows),
        grammar,
        Topic::Question,
        message,
        name.as_str(),
        nick.as_str(),
        user.as_str(),
        policy,
        now,
    );
    turn(
        store,
        &mut texts,
        &mut created,
        Ghost(t0.rows),
        grammar,
        Topic::Comment,
        message,
        name.as_str(),
        nick.as_str(),
        user.as_str(),
        policy,
        now,
    );
    let replies = address(chat, &texts);
    HookOutcome { created, replies }
}

} // verus!
