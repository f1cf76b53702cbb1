//! The team chat channels that each kind of feedback is forwarded to.
use vstd::prelude::*;

verus! {

/// One channel id per feedback topic, and one for mentions of the bot.
#[derive(Debug)]
pub struct Channels {
    pub idea: String,
    pub comentario: String,
    pub pregunta: String,
    pub mencion: String,
}

impl Channels {
    pub fn new(idea: String, comentario: String, pregunta: String, mencion: String) -> (r: Channels)
        ensures
            r.idea@ == idea@,
            r.comentario@ == comentario@,
            r.pregunta@ == pregunta@,
            r.mencion@ == mencion@,
    {
        Channels { idea, comentario, pregunta, mencion }
    }
}

} // verus!
