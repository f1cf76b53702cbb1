//! Outbound chat messages.
use vstd::prelude::*;
use vstd::string::*;

verus! {

/// A text to post in a chat.
#[derive(Debug)]
pub struct Message {
    pub chat_id: i64,
    pub text: String,
}

impl Message {
    pub fn new(chat_id: i64, text: &str) -> (r: Message)
        ensures
            r.chat_id == chat_id,
            r.text@ == text@,
    {
        Message { chat_id, text: text.to_owned() }
    }
}

/// The endpoint that posts a message as the bot holding `token`.
pub open spec fn send_url(token: Seq<char>) -> Seq<char> {
    "https://api.telegram.org/bot"@ + token + "/sendMessage"@
}

/// The address to which `send_message` posts, for the bot `token`.
pub fn send_message_url(token: &str) -> (r: String)
    ensures
        r@ == send_url(token@),
{
    let r = String::from_str("https://api.telegram.org/bot").concat(token).concat("/sendMessage");
    r
}

} // verus!
