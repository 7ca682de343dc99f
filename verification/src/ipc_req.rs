//! Requests from the renderer: how one is normalized, and how it is
//! dispatched to the scripting callback.
//!
//! A dispatch normalizes the request, serializes it, hands the text to the
//! callback and turns what the callback says into at most one instruction for
//! the native loop. Whoever owns the proxy of the loop sends that
//! instruction; nothing here touches the render surface.

use crate::error::BridgeError;
use crate::entries::{has_name, lookup};
use crate::headers::{
    distinct_names, entries_map, lemma_upsert, lemma_upsert_keeps_names_distinct, upsert, Headers,
};
use crate::json::{pairs_view, pretty_object, records_view, write_object};
use crate::text::{header_text, lower_text, to_header_text, to_lower_text};
use crate::RuntimeMessage;
use vstd::prelude::*;

verus! {

/// One header of a request as the renderer delivers it.
#[derive(Debug, Clone, PartialEq, Eq)]
pub struct HeaderField {
    /// The header's name, in any case.
    pub name: String,
    /// The header's value as bytes; they need not be text.
    pub value: Vec<u8>,
}

/// A request as the renderer delivers it.
#[derive(Debug, Clone, PartialEq, Eq)]
pub struct InboundRequest<T> {
    /// The method, such as `"POST"`.
    pub method: String,
    /// The target, such as `"/api/call"`.
    pub uri: String,
    /// The protocol version, such as `"HTTP/1.1"`.
    pub version: String,
    /// The headers in the order of delivery; a name may occur repeatedly.
    pub headers: Vec<HeaderField>,
    /// The body.
    pub body: T,
}

/// A request in canonical form, ready to be serialized.
#[derive(Debug, Clone, PartialEq, Eq)]
pub struct SerdeRequest<T> {
    /// The method of the request (e.g. `"POST"`).
    pub method: String,
    /// The target (e.g. `"/api/call"` or `"https://example.com"`).
    pub uri: String,
    /// The protocol version, typically `"HTTP/1.1"`.
    pub version: String,
    /// The headers: lower-case names, each with one value.
    pub headers: Headers,
    /// The body.
    pub body: T,
}

/// The name under which a header is kept: its name in lower case.
pub open spec fn header_key(field: HeaderField) -> Seq<char> {
    lower_text(field.name@)
}

/// The value under which a header is kept: its bytes as text, or the empty
/// string where they are not text.
pub open spec fn header_value(field: HeaderField) -> Seq<char> {
    header_text(field.value@)
}

/// The entries that a request's headers are flattened to: each header in
/// turn is stored under its key, a later one replacing the value of an
/// earlier one with the same key.
pub open spec fn normalized_entries(raw: Seq<HeaderField>) -> Seq<(Seq<char>, Seq<char>)>
    decreases raw.len(),
{
    if raw.len() == 0 {
        Seq::empty()
    } else {
        upsert(
            normalized_entries(raw.drop_last()),
            header_key(raw.last()),
            header_value(raw.last()),
        )
    }
}

/// The mapping that a request's headers are flattened to: each header in
/// turn is inserted under its key, so that of several headers with one key
/// the last one stays.
pub open spec fn normalized_map(raw: Seq<HeaderField>) -> Map<Seq<char>, Seq<char>>
    decreases raw.len(),
{
    if raw.len() == 0 {
        Map::empty()
    } else {
        normalized_map(raw.drop_last()).insert(header_key(raw.last()), header_value(raw.last()))
    }
}

/// Whether some header of `raw` has the key `name`.
pub open spec fn occurs(raw: Seq<HeaderField>, name: Seq<char>) -> bool {
    exists|i: int| 0 <= i < raw.len() && header_key(#[trigger] raw[i]) == name
}

/// Whether no header after the one at `i` has its key.
pub open spec fn is_last_occurrence(raw: Seq<HeaderField>, i: int) -> bool {
    forall|j: int| i < j < raw.len() ==> header_key(#[trigger] raw[j]) != header_key(raw[i])
}

/// The keys of the headers, in order of delivery.
pub open spec fn header_keys(raw: Seq<HeaderField>) -> Seq<Seq<char>> {
    raw.map_values(|field: HeaderField| header_key(field))
}

/// The members of a serialized request that are strings: method, target,
/// version and body.
pub open spec fn request_texts(
    method: Seq<char>,
    uri: Seq<char>,
    version: Seq<char>,
    body: Seq<char>,
) -> Seq<(Seq<char>, Seq<char>)> {
    seq![("method"@, method), ("uri"@, uri), ("version"@, version), ("body"@, body)]
}

/// The member of a serialized request that is a record: the headers.
pub open spec fn request_records(headers: Seq<(Seq<char>, Seq<char>)>) -> Seq<
    (Seq<char>, Seq<(Seq<char>, Seq<char>)>),
> {
    seq![("headers"@, headers)]
}

/// The text that the callback is handed for `request`: the request,
/// normalized and serialized as pretty-printed JSON.
pub open spec fn callback_text(request: InboundRequest<String>) -> Seq<char> {
    pretty_object(
        request_texts(request.method@, request.uri@, request.version@, request.body@),
        request_records(normalized_entries(request.headers@)),
    )
}

impl<T> SerdeRequest<T> {
    /// Converts a request into its canonical form. Method, target, version
    /// and body are kept. The headers are flattened into a mapping: names
    /// are lower-cased, of several values of one name the last one stays, and
    /// a value that is not text becomes the empty string.
    pub fn from(request: InboundRequest<T>) -> (normalized: SerdeRequest<T>)
        ensures
            normalized.method == request.method,
            normalized.uri == request.uri,
            normalized.version == request.version,
            normalized.body == request.body,
            normalized.headers@ == normalized_entries(request.headers@),
            normalized.headers.as_map() == normalized_map(request.headers@),
            normalized.headers.wf(),
    {
        proof {
            lemma_entries_spell_the_mapping(request.headers@);
        }
        let InboundRequest { method, uri, version, headers: raw, body } = request;
        let mut headers = Headers::new();
        let mut i: usize = 0;
        while i < raw.len()
            invariant
                i <= raw.len(),
                headers@ == normalized_entries(raw@.take(i as int)),
                headers.wf(),
            decreases raw.len() - i,
        {
            let name = to_lower_text(raw[i].name.as_str());
            let value = to_header_text(&raw[i].value);
            headers.insert(name, value);
            i += 1;
            assert(raw@.take(i as int).drop_last() =~= raw@.take(i - 1));
        }
        assert(raw@.take(i as int) =~= raw@);
        SerdeRequest { method, uri, version, headers, body }
    }
}

impl SerdeRequest<String> {
    /// The request as pretty-printed JSON: an object with the members
    /// `method`, `uri`, `version`, `headers` and `body`, the headers an object
    /// of strings.
    pub open spec fn json(&self) -> Seq<char> {
        pretty_object(
            request_texts(self.method@, self.uri@, self.version@, self.body@),
            request_records(self.headers@),
        )
    }

    /// The request as pretty-printed JSON: an object with the members
    /// `method`, `uri`, `version`, `headers` and `body`, the headers an object
    /// of strings.
    pub fn to_json(&self) -> (text: String)
        ensures
            text@ == self.json(),
    {
        let mut texts: Vec<(String, String)> = Vec::new();
        texts.push(("method".to_owned(), self.method.clone()));
        texts.push(("uri".to_owned(), self.uri.clone()));
        texts.push(("version".to_owned(), self.version.clone()));
        texts.push(("body".to_owned(), self.body.clone()));
        let mut records: Vec<(String, Vec<(String, String)>)> = Vec::new();
        records.push(("headers".to_owned(), self.headers.to_pairs()));
        assert(pairs_view(texts@) =~= request_texts(
            self.method@,
            self.uri@,
            self.version@,
            self.body@,
        ));
        assert(records_view(records@) =~= request_records(self.headers@));
        write_object(&texts, &records)
    }
}

/// The entries that the headers are flattened to spell the mapping that the
/// headers are flattened to.
pub proof fn lemma_entries_spell_the_mapping(raw: Seq<HeaderField>)
    ensures
        entries_map(normalized_entries(raw)) == normalized_map(raw),
    decreases raw.len(),
{
    if raw.len() == 0 {
        assert(entries_map(normalized_entries(raw)) =~= Map::empty());
    } else {
        lemma_entries_spell_the_mapping(raw.drop_last());
        lemma_upsert(
            normalized_entries(raw.drop_last()),
            header_key(raw.last()),
            header_value(raw.last()),
        );
    }
}

/// Normalizing yields exactly one entry for each distinct lower-cased header
/// name, and the entry holds the value of the name's last occurrence.
pub proof fn lemma_one_entry_per_name(raw: Seq<HeaderField>)
    ensures
        distinct_names(normalized_entries(raw)),
        forall|name: Seq<char>| #[trigger]
            has_name(normalized_entries(raw), name) <==> occurs(raw, name),
        forall|i: int|
            0 <= i < raw.len() && #[trigger] is_last_occurrence(raw, i) ==> lookup(
                normalized_entries(raw),
                header_key(raw[i]),
            ) == Some(header_value(raw[i])),
    decreases raw.len(),
{
    let entries = normalized_entries(raw);
    if raw.len() == 0 {
        assert forall|name: Seq<char>| #[trigger]
            has_name(entries, name) <==> occurs(raw, name) by {}
    } else {
        let front = raw.drop_last();
        let before = normalized_entries(front);
        let key = header_key(raw.last());
        let value = header_value(raw.last());
        lemma_one_entry_per_name(front);
        lemma_upsert(before, key, value);
        lemma_upsert_keeps_names_distinct(before, key, value);
        assert forall|name: Seq<char>| #[trigger]
            has_name(entries, name) <==> occurs(raw, name) by {
            if occurs(raw, name) {
                let i = choose|i: int| 0 <= i < raw.len() && header_key(#[trigger] raw[i]) == name;
                if i < raw.len() - 1 {
                    assert(front[i] == raw[i]);
                    assert(occurs(front, name));
                }
            }
            if has_name(entries, name) && name != key {
                assert(occurs(front, name));
                let i = choose|i: int|
                    0 <= i < front.len() && header_key(#[trigger] front[i]) == name;
                assert(raw[i] == front[i]);
            }
            if name == key {
                assert(header_key(raw[raw.len() - 1]) == name);
            }
        }
        assert forall|i: int| 0 <= i < raw.len() && #[trigger] is_last_occurrence(raw, i) implies lookup(
            entries,
            header_key(raw[i]),
        ) == Some(header_value(raw[i])) by {
            if i < raw.len() - 1 {
                assert(header_key(raw[raw.len() - 1]) != header_key(raw[i]));
                assert(front[i] == raw[i]);
                assert(is_last_occurrence(front, i)) by {
                    assert forall|j: int| i < j < front.len() implies header_key(
                        #[trigger] front[j],
                    ) != header_key(front[i]) by {
                        assert(front[j] == raw[j]);
                    }
                }
            }
        }
    }
}

/// As a mapping, the normalized headers hold exactly the distinct lower-cased
/// names of the request's headers, each once and each with the value of its
/// last occurrence.
pub proof fn lemma_headers_as_mapping(raw: Seq<HeaderField>)
    ensures
        entries_map(normalized_entries(raw)).dom() == header_keys(raw).to_set(),
        normalized_entries(raw).len() == header_keys(raw).to_set().len(),
        forall|i: int|
            0 <= i < raw.len() && #[trigger] is_last_occurrence(raw, i) ==> entries_map(
                normalized_entries(raw),
            )[header_key(raw[i])] == header_value(raw[i]),
{
    let entries = normalized_entries(raw);
    let names = entries.map_values(|entry: (Seq<char>, Seq<char>)| entry.0);
    lemma_one_entry_per_name(raw);
    assert(names.no_duplicates()) by {
        assert forall|i: int, j: int|
            0 <= i < names.len() && 0 <= j < names.len() && i != j implies names[i]
            != names[j] by {
            if i < j {
                assert(entries[i].0 != entries[j].0);
            } else {
                assert(entries[j].0 != entries[i].0);
            }
        }
    }
    names.unique_seq_to_set();
    assert forall|name: Seq<char>| #[trigger]
        has_name(entries, name) <==> header_keys(raw).to_set().contains(name) by {
        if occurs(raw, name) {
            let j = choose|j: int| 0 <= j < raw.len() && header_key(#[trigger] raw[j]) == name;
            assert(header_keys(raw)[j] == name);
        }
        if header_keys(raw).to_set().contains(name) {
            let j = choose|j: int| 0 <= j < header_keys(raw).len() && header_keys(raw)[j] == name;
            assert(header_key(raw[j]) == name);
        }
    }
    assert forall|name: Seq<char>| #[trigger]
        names.to_set().contains(name) <==> header_keys(raw).to_set().contains(name) by {
        if names.to_set().contains(name) {
            let i = choose|i: int| 0 <= i < names.len() && names[i] == name;
            assert(entries[i].0 == name);
        }
        if has_name(entries, name) {
            let i = choose|i: int| 0 <= i < entries.len() && (#[trigger] entries[i]).0 == name;
            assert(names[i] == name);
        }
    }
    assert(names.to_set() =~= header_keys(raw).to_set());
    assert(entries_map(entries).dom() =~= header_keys(raw).to_set());
}

/// What the scripting callback said.
#[derive(Debug, Clone, PartialEq, Eq)]
pub enum CallbackReply {
    /// It returned a string: a script for the render surface.
    Script(String),
    /// It returned nothing that is an instruction.
    Nothing,
    /// It raised; the text is what it reported.
    Failed(String),
}

/// What a dispatch came to.
#[derive(Debug, Clone, PartialEq, Eq)]
pub enum Dispatch {
    /// One instruction is to be posted to the native loop.
    Forward(RuntimeMessage),
    /// Nothing is to be posted.
    Idle,
    /// The callback failed. Nothing is to be posted; the error is to be
    /// reported and goes no further.
    Swallowed(BridgeError),
}

/// What a dispatch comes to, given what the callback said: a script becomes
/// one `Eval` instruction with that script, silence becomes nothing, and a
/// failure is swallowed as a callback failure.
pub open spec fn dispatch_for(reply: CallbackReply) -> Dispatch {
    match reply {
        CallbackReply::Script(script) => Dispatch::Forward(RuntimeMessage::Eval(script)),
        CallbackReply::Nothing => Dispatch::Idle,
        CallbackReply::Failed(detail) => Dispatch::Swallowed(BridgeError::CallbackFailure(detail)),
    }
}

impl Dispatch {
    /// The instruction that the dispatch posts to the native loop, if it
    /// posts one.
    pub open spec fn spec_instruction(self) -> Option<RuntimeMessage> {
        match self {
            Dispatch::Forward(instruction) => Some(instruction),
            Dispatch::Idle => None,
            Dispatch::Swallowed(_) => None,
        }
    }

    /// The instructions that the dispatch posts to the native loop, in
    /// order: one or none.
    pub open spec fn instructions(self) -> Seq<RuntimeMessage> {
        match self.spec_instruction() {
            Some(instruction) => seq![instruction],
            None => Seq::empty(),
        }
    }

    /// The instruction to post to the native loop, if there is one.
    pub fn instruction(self) -> (instruction: Option<RuntimeMessage>)
        ensures
            instruction == self.spec_instruction(),
    {
        match self {
            Dispatch::Forward(instruction) => Some(instruction),
            Dispatch::Idle => None,
            Dispatch::Swallowed(_) => None,
        }
    }

    /// The error to report, if the callback failed.
    pub fn failure(&self) -> (failure: Option<&BridgeError>)
        ensures
            failure == (match *self {
                Dispatch::Swallowed(error) => Some(&error),
                _ => None::<&BridgeError>,
            }),
    {
        match self {
            Dispatch::Swallowed(error) => Some(error),
            _ => None,
        }
    }
}

/// Turns what the callback said into what the dispatch comes to.
pub fn interpret_reply(reply: CallbackReply) -> (outcome: Dispatch)
    ensures
        outcome == dispatch_for(reply),
{
    match reply {
        CallbackReply::Script(script) => Dispatch::Forward(RuntimeMessage::Eval(script)),
        CallbackReply::Nothing => Dispatch::Idle,
        CallbackReply::Failed(detail) => Dispatch::Swallowed(BridgeError::CallbackFailure(detail)),
    }
}

/// Dispatches one request of the renderer to the scripting callback.
///
/// The request is normalized and serialized, and `handler` is called once,
/// with that text as its sole argument; it has to take any text. What it
/// says decides the outcome: see [`dispatch_for`]. A failure of the callback
/// is part of the outcome and never leaves this function in another way.
pub fn handle_ipc_req<F>(handler: &F, request: InboundRequest<String>) -> (outcome: Dispatch) where
    F: Fn(String) -> CallbackReply,

    requires
        forall|text: String| call_requires(handler, (text,)),
    ensures
        exists|text: String, reply: CallbackReply|
            text@ == callback_text(request) && #[trigger] call_ensures(handler, (text,), reply)
                && outcome == dispatch_for(reply),
{
    let normalized = SerdeRequest::from(request);
    let reply = handler(normalized.to_json());
    interpret_reply(reply)
}

/// A reply that holds no script posts nothing to the native loop.
pub proof fn lemma_no_script_posts_nothing(reply: CallbackReply)
    requires
        !(reply is Script),
    ensures
        dispatch_for(reply).instructions() == Seq::<RuntimeMessage>::empty(),
{
}

/// A reply that holds a script posts exactly one instruction to the native
/// loop: `Eval` with that very script.
pub proof fn lemma_script_posts_one_eval(script: String)
    ensures
        dispatch_for(CallbackReply::Script(script)).instructions() == seq![
            RuntimeMessage::Eval(script),
        ],
{
}

} // verus!
