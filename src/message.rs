//! The inbound chat message and the two command grammars read from its text:
//! `/key` opening the text, or `#key` anywhere in it.
use vstd::prelude::*;
use vstd::string::*;
use crate::text::{digit_run, digits_from, is_space, is_space_char, starts_with_chars, trim, trimmed_from};

verus! {

/// Who sent a chat message; each part may be missing.
pub struct Sender {
    pub first_name: Option<String>,
    pub username: Option<String>,
}

/// The chat a message was posted in.
pub struct Chat {
    pub id: Option<i64>,
}

/// An inbound chat message, with every part optional.
pub struct ChatMessage {
    pub text: Option<String>,
    pub from: Option<Sender>,
    pub chat: Option<Chat>,
}

/// The text of a message, or nothing when it has none.
pub open spec fn text_of(m: ChatMessage) -> Option<Seq<char>> {
    match m.text {
        Some(t) => Some(t@),
        None => None,
    }
}

/// The slash form of a command: `/key`.
pub open spec fn command_token(key: Seq<char>) -> Seq<char> {
    seq!['/'] + key
}

/// `text` is the command token followed by white space and more.
pub open spec fn opens_with_command(key: Seq<char>, text: Seq<char>) -> bool {
    let t = command_token(key);
    &&& t.len() < text.len()
    &&& text.subrange(0, t.len() as int) == t
    &&& is_space(text[t.len() as int])
}

/// What follows the command token, trimmed.
pub open spec fn command_body(key: Seq<char>, text: Seq<char>) -> Seq<char> {
    trim(text.subrange(command_token(key).len() as int, text.len() as int))
}

/// The slash grammar: the bare command gives empty content, the command and
/// white space give what follows (trimmed), anything else gives nothing.
pub open spec fn match_command(key: Seq<char>, text: Seq<char>) -> Option<Seq<char>> {
    if text == command_token(key) {
        Some(Seq::empty())
    } else if opens_with_command(key, text) {
        Some(command_body(key, text))
    } else {
        None
    }
}

/// A comment body split into a leading numeric reference and the rest: the
/// digits it starts with are the reference when white space follows them.
/// Only the ASCII digits `0` to `9` count as digits, not other Unicode
/// decimal digits.
pub open spec fn split_reference(body: Seq<char>) -> (Option<Seq<char>>, Option<Seq<char>>) {
    let d = digit_run(body) as int;
    if d < body.len() && is_space(body[d]) {
        (Some(body.subrange(0, d)), Some(trim(body.subrange(d, body.len() as int))))
    } else {
        (None, Some(body))
    }
}

/// The comment grammar: as the slash grammar, with the reference split off.
pub open spec fn match_comment(key: Seq<char>, text: Seq<char>) -> Option<
    (Option<Seq<char>>, Option<Seq<char>>),
> {
    if text == command_token(key) {
        Some((None, Some(Seq::empty())))
    } else if opens_with_command(key, text) {
        Some(split_reference(command_body(key, text)))
    } else {
        None
    }
}

/// `tag` stands in `text` at position `p`.
pub open spec fn occurs_at(text: Seq<char>, tag: Seq<char>, p: int) -> bool {
    0 <= p && p + tag.len() <= text.len() && text.subrange(p, p + tag.len()) == tag
}

/// Where `tag` first stands in `text`, if anywhere.
pub open spec fn first_occurrence(text: Seq<char>, tag: Seq<char>) -> Option<int> {
    if exists|p: int| occurs_at(text, tag, p) {
        Some(
            choose|p: int|
                occurs_at(text, tag, p) && forall|q: int| 0 <= q < p ==> !occurs_at(text, tag, q),
        )
    } else {
        None
    }
}

/// The hashtag form of a command: `#key`.
pub open spec fn hashtag_token(key: Seq<char>) -> Seq<char> {
    seq!['#'] + key
}

/// The hashtag grammar: `#key` anywhere in the text; the content is the text
/// without that first occurrence, trimmed.
pub open spec fn match_hashtag(key: Seq<char>, text: Seq<char>) -> Option<Seq<char>> {
    let tag = hashtag_token(key);
    match first_occurrence(text, tag) {
        Some(p) => Some(trim(text.subrange(0, p) + text.subrange(p + tag.len(), text.len() as int))),
        None => None,
    }
}

/// The comment grammar in hashtag form: the reference is split off the content.
pub open spec fn match_hashtag_comment(key: Seq<char>, text: Seq<char>) -> Option<
    (Option<Seq<char>>, Option<Seq<char>>),
> {
    match match_hashtag(key, text) {
        Some(body) => Some(split_reference(body)),
        None => None,
    }
}

/// The two ways a deployment may spell commands.
#[derive(Clone, Copy, PartialEq, Eq, Structural, Debug)]
pub enum Grammar {
    /// `/key` opening the text.
    Slash,
    /// `#key` anywhere in the text.
    Hashtag,
}

pub open spec fn grammar_command(g: Grammar, key: Seq<char>, text: Seq<char>) -> Option<Seq<char>> {
    match g {
        Grammar::Slash => match_command(key, text),
        Grammar::Hashtag => match_hashtag(key, text),
    }
}

pub open spec fn grammar_comment(g: Grammar, key: Seq<char>, text: Seq<char>) -> Option<
    (Option<Seq<char>>, Option<Seq<char>>),
> {
    match g {
        Grammar::Slash => match_comment(key, text),
        Grammar::Hashtag => match_hashtag_comment(key, text),
    }
}

pub open spec fn opt_string_view(o: Option<String>) -> Option<Seq<char>> {
    match o {
        Some(s) => Some(s@),
        None => None,
    }
}

pub open spec fn pair_view(p: (Option<String>, Option<String>)) -> (Option<Seq<char>>, Option<Seq<char>>) {
    (opt_string_view(p.0), opt_string_view(p.1))
}

/// The display name and handle of the sender; a missing part is empty.
pub open spec fn user_of(m: ChatMessage) -> (Seq<char>, Seq<char>) {
    match m.from {
        Some(f) => (
            match f.first_name {
                Some(n) => n@,
                None => Seq::empty(),
            },
            match f.username {
                Some(u) => u@,
                None => Seq::empty(),
            },
        ),
        None => (Seq::empty(), Seq::empty()),
    }
}

pub open spec fn chat_id_of(m: ChatMessage) -> Option<i64> {
    match m.chat {
        Some(c) => c.id,
        None => None,
    }
}

/// `/key` built from `key`.
fn slash_command(key: &str) -> (r: String)
    ensures
        r@ == command_token(key@),
{
    let s = String::from_str("/");
    proof {
        reveal_strlit("/");
    }
    let r = s.concat(key);
    assert(r@ =~= command_token(key@));
    r
}

/// Where the slash grammar matches `text`: `Some(true)` for the bare command,
/// `Some(false)` for the command followed by white space, `None` otherwise.
fn command_shape(key: &str, text: &str) -> (r: Option<bool>)
    ensures
        r == Some(true) <==> text@ == command_token(key@),
        r == Some(false) <==> text@ != command_token(key@) && opens_with_command(key@, text@),
{
    let token = slash_command(key);
    let t = token.as_str();
    let n = text.unicode_len();
    let m = t.unicode_len();
    if !starts_with_chars(text, t) {
        proof {
            if text@ == command_token(key@) {
                assert(text@.subrange(0, m as int) =~= text@);
            }
        }
        return None;
    }
    if n == m {
        assert(text@ =~= text@.subrange(0, m as int));
        return Some(true);
    }
    if is_space_char(text.get_char(m)) {
        Some(false)
    } else {
        None
    }
}

/// The content that follows the slash command `key` in the message text:
/// empty for the bare command, `None` where the text does not open with it.
pub fn check_key(key: &str, message: &ChatMessage) -> (r: Option<String>)
    ensures
        opt_string_view(r) == match text_of(*message) {
            Some(t) => match_command(key@, t),
            None => None,
        },
{
    match &message.text {
        None => None,
        Some(text) => {
            let text = text.as_str();
            match command_shape(key, text) {
                None => None,
                Some(true) => {
                    let e = String::new();
                    Some(e)
                },
                Some(false) => {
                    let k = key.unicode_len();
                    let n = text.unicode_len();
                    assert(k + 1 < n);
                    Some(trimmed_from(text, k + 1))
                },
            }
        },
    }
}

/// Splits a trimmed comment body into its reference and its content.
fn split_body(body: &str) -> (r: (Option<String>, Option<String>))
    ensures
        pair_view(r) == split_reference(body@),
{
    let n = body.unicode_len();
    let d = digits_from(body, 0);
    assert(body@.subrange(0, n as int) =~= body@);
    if d < n && is_space_char(body.get_char(d)) {
        let reference = body.substring_char(0, d).to_owned();
        let content = trimmed_from(body, d);
        (Some(reference), Some(content))
    } else {
        (None, Some(body.to_owned()))
    }
}

/// The comment command `key`: the reference number that may follow the command
/// and the content after it.
pub fn check_comment(key: &str, message: &ChatMessage) -> (r: Option<
    (Option<String>, Option<String>),
>)
    ensures
        match r {
            Some(p) => match text_of(*message) {
                Some(t) => match_comment(key@, t) == Some(pair_view(p)),
                None => false,
            },
            None => match text_of(*message) {
                Some(t) => match_comment(key@, t) is None,
                None => true,
            },
        },
{
    match &message.text {
        None => None,
        Some(text) => {
            let text = text.as_str();
            match command_shape(key, text) {
                None => None,
                Some(true) => Some((None, Some(String::new()))),
                Some(false) => {
                    let k = key.unicode_len();
                    let n = text.unicode_len();
                    assert(k + 1 < n);
                    let body = trimmed_from(text, k + 1);
                    Some(split_body(body.as_str()))
                },
            }
        },
    }
}

/// Whether the message text is the slash command `key`, with or without content.
pub fn command(key: &str, message: &ChatMessage) -> (r: bool)
    ensures
        r == match text_of(*message) {
            Some(t) => match_command(key@, t) is Some,
            None => false,
        },
{
    match &message.text {
        None => false,
        Some(text) => {
            let shape = command_shape(key, text.as_str());
            match shape {
                Some(b) => {
                    if b {
                        assert(text@ == command_token(key@));
                    } else {
                        assert(opens_with_command(key@, text@));
                    }
                    true
                },
                None => false,
            }
        },
    }
}

fn owned_or_empty(o: &Option<String>) -> (r: String)
    ensures
        r@ == match o {
            Some(s) => s@,
            None => Seq::empty(),
        },
{
    match o {
        Some(s) => s.clone(),
        None => String::new(),
    }
}

/// The sender's first name and username, each empty where the message lacks it.
pub fn get_user(message: &ChatMessage) -> (r: (String, String))
    ensures
        (r.0@, r.1@) == user_of(*message),
{
    match &message.from {
        Some(from) => (owned_or_empty(&from.first_name), owned_or_empty(&from.username)),
        None => (String::new(), String::new()),
    }
}

/// The id of the chat the message was posted in, where the message has one.
pub fn get_chat_id(message: &ChatMessage) -> (r: Option<i64>)
    ensures
        r == chat_id_of(*message),
{
    match &message.chat {
        Some(chat) => chat.id,
        None => None,
    }
}

fn hashtag_of(key: &str) -> (r: String)
    ensures
        r@ == hashtag_token(key@),
{
    let r = String::from_str("#").concat(key);
    proof {
        reveal_strlit("#");
    }
    assert(r@ =~= hashtag_token(key@));
    r
}

/// Whether `tag` stands in `text` at `p`.
fn tag_at(text: &str, tag: &str, p: usize) -> (r: bool)
    requires
        p + tag@.len() <= text@.len(),
    ensures
        r == occurs_at(text@, tag@, p as int),
{
    let n = text.unicode_len();
    let m = tag.unicode_len();
    let mut k: usize = 0;
    while k < m
        invariant
            k <= m == tag@.len(),
            p + m <= n,
            n == text@.len(),
            forall|i: int| 0 <= i < k ==> text@[p + i] == tag@[i],
        decreases m - k,
    {
        if text.get_char(p + k) != tag.get_char(k) {
            assert(text@.subrange(p as int, p + m)[k as int] != tag@[k as int]);
            return false;
        }
        k = k + 1;
    }
    assert(text@.subrange(p as int, p + m) =~= tag@);
    true
}

/// An occurrence with none before it is the first.
proof fn lemma_first_occurrence(text: Seq<char>, tag: Seq<char>, p: int)
    requires
        occurs_at(text, tag, p),
        forall|q: int| 0 <= q < p ==> !occurs_at(text, tag, q),
    ensures
        first_occurrence(text, tag) == Some(p),
{
    let c = choose|c: int|
        occurs_at(text, tag, c) && forall|q: int| 0 <= q < c ==> !occurs_at(text, tag, q);
    assert(occurs_at(text, tag, c) && forall|q: int| 0 <= q < c ==> !occurs_at(text, tag, q));
    if c < p {
        assert(!occurs_at(text, tag, c));
    } else if p < c {
        assert(!occurs_at(text, tag, p));
    }
}

/// Where `tag` first stands in `text`.
fn find_tag(text: &str, tag: &str) -> (r: Option<usize>)
    ensures
        match r {
            Some(p) => first_occurrence(text@, tag@) == Some(p as int) && occurs_at(
                text@,
                tag@,
                p as int,
            ),
            None => first_occurrence(text@, tag@) is None,
        },
{
    let n = text.unicode_len();
    let m = tag.unicode_len();
    if m > n {
        assert(!exists|p: int| occurs_at(text@, tag@, p));
        return None;
    }
    let last = n - m;
    let mut p: usize = 0;
    while p < last
        invariant
            n == text@.len(),
            m == tag@.len(),
            last == n - m,
            p <= last,
            forall|q: int| 0 <= q < p ==> !occurs_at(text@, tag@, q),
        decreases last - p,
    {
        if tag_at(text, tag, p) {
            proof {
                lemma_first_occurrence(text@, tag@, p as int);
            }
            return Some(p);
        }
        p = p + 1;
    }
    if tag_at(text, tag, last) {
        proof {
            lemma_first_occurrence(text@, tag@, last as int);
        }
        return Some(last);
    }
    assert(!exists|q: int| occurs_at(text@, tag@, q)) by {
        if exists|q: int| occurs_at(text@, tag@, q) {
            let q = choose|q: int| occurs_at(text@, tag@, q);
            assert(!occurs_at(text@, tag@, q));
        }
    }
    None
}

/// `text` without the `m` characters from `p` on, trimmed.
fn cut_trimmed(text: &str, p: usize, m: usize) -> (r: String)
    requires
        p + m <= text@.len(),
    ensures
        r@ == trim(text@.subrange(0, p as int) + text@.subrange(p + m, text@.len() as int)),
{
    let n = text.unicode_len();
    let head = text.substring_char(0, p).to_owned();
    let joined = head.concat(text.substring_char(p + m, n));
    assert(joined@.subrange(0, joined@.len() as int) =~= joined@);
    trimmed_from(joined.as_str(), 0)
}

/// The content of the hashtag command `key` in `text`.
fn hashtag_content(key: &str, text: &str) -> (r: Option<String>)
    ensures
        opt_string_view(r) == match_hashtag(key@, text@),
{
    let tag = hashtag_of(key);
    match find_tag(text, tag.as_str()) {
        None => None,
        Some(p) => {
            let m = tag.as_str().unicode_len();
            Some(cut_trimmed(text, p, m))
        },
    }
}

/// The content that follows `#key` wherever it stands in the message text:
/// the text without the tag, trimmed.
pub fn check_hashtag(key: &str, message: &ChatMessage) -> (r: Option<String>)
    ensures
        opt_string_view(r) == match text_of(*message) {
            Some(t) => match_hashtag(key@, t),
            None => None,
        },
{
    match &message.text {
        None => None,
        Some(text) => hashtag_content(key, text.as_str()),
    }
}

/// The comment command `#key`: the reference number that may open the content,
/// and the content after it.
pub fn check_hashtag_comment(key: &str, message: &ChatMessage) -> (r: Option<
    (Option<String>, Option<String>),
>)
    ensures
        match r {
            Some(p) => match text_of(*message) {
                Some(t) => match_hashtag_comment(key@, t) == Some(pair_view(p)),
                None => false,
            },
            None => match text_of(*message) {
                Some(t) => match_hashtag_comment(key@, t) is None,
                None => true,
            },
        },
{
    match &message.text {
        None => None,
        Some(text) => match hashtag_content(key, text.as_str()) {
            None => None,
            Some(body) => Some(split_body(body.as_str())),
        },
    }
}

impl Grammar {
    /// The content of the command `key` in the message, as this grammar reads it.
    pub fn matches(&self, key: &str, message: &ChatMessage) -> (r: Option<String>)
        ensures
            opt_string_view(r) == match text_of(*message) {
                Some(t) => grammar_command(*self, key@, t),
                None => None,
            },
    {
        match self {
            Grammar::Slash => check_key(key, message),
            Grammar::Hashtag => check_hashtag(key, message),
        }
    }

    /// The reference and content of the comment command `key`, as this grammar reads it.
    pub fn matches_comment(&self, key: &str, message: &ChatMessage) -> (r: Option<
        (Option<String>, Option<String>),
    >)
        ensures
            match r {
                Some(p) => match text_of(*message) {
                    Some(t) => grammar_comment(*self, key@, t) == Some(pair_view(p)),
                    None => false,
                },
                None => match text_of(*message) {
                    Some(t) => grammar_comment(*self, key@, t) is None,
                    None => true,
                },
            },
    {
        match self {
            Grammar::Slash => check_comment(key, message),
            Grammar::Hashtag => check_hashtag_comment(key, message),
        }
    }
}

} // verus!
