//! The messages that travel over the channels.
//!
//! A payload text becomes a message outside this library, by whoever takes
//! the payload in; the library is handed what the reading came to.

use crate::json::{pairs_view, pretty_object, records_view, write_object};
use vstd::prelude::*;

verus! {

/// A message exchanged between the scripting host and the background side.
///
/// These are the fields that travel. A payload may carry members of other
/// names; whoever reads the payload passes them over.
#[derive(Debug, Clone, PartialEq, Eq)]
pub struct Message {
    /// The text of the message.
    pub message: String,
    /// When the message was made, where the sender said so.
    pub timestamp: Option<String>,
}

/// [`Message`] as a mathematical value.
pub struct MessageView {
    /// The text of the message.
    pub message: Seq<char>,
    /// When the message was made, where the sender said so.
    pub timestamp: Option<Seq<char>>,
}

impl View for Message {
    type V = MessageView;

    open spec fn view(&self) -> MessageView {
        MessageView {
            message: self.message@,
            timestamp: match self.timestamp {
                Some(text) => Some(text@),
                None => None,
            },
        }
    }
}

/// The members of the JSON object that a message is written as: `message`,
/// and `timestamp` where the message has one.
pub open spec fn message_texts(message: MessageView) -> Seq<(Seq<char>, Seq<char>)> {
    match message.timestamp {
        Some(timestamp) => seq![("message"@, message.message), ("timestamp"@, timestamp)],
        None => seq![("message"@, message.message)],
    }
}

impl Message {
    /// The message as pretty-printed JSON: an object with the member
    /// `message` and, where the message has one, the member `timestamp`.
    pub fn to_json(&self) -> (text: String)
        ensures
            text@ == pretty_object(message_texts(self@), Seq::empty()),
    {
        let mut texts: Vec<(String, String)> = Vec::new();
        texts.push(("message".to_owned(), self.message.clone()));
        match &self.timestamp {
            Some(timestamp) => {
                texts.push(("timestamp".to_owned(), timestamp.clone()));
            },
            None => {},
        }
        let records: Vec<(String, Vec<(String, String)>)> = Vec::new();
        assert(pairs_view(texts@) =~= message_texts(self@));
        assert(records_view(records@) =~= Seq::empty());
        write_object(&texts, &records)
    }
}

} // verus!
