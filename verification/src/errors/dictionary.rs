use crate::text::opt_view;
use vstd::hash_map::StringHashMap;
use vstd::prelude::*;

verus! {

/// What a dictionary message says: its text, and optionally a description and a hint.
pub struct MessageView {
    pub message: Seq<char>,
    pub description: Option<Seq<char>>,
    pub help: Option<Seq<char>>,
}

/// A localized message of the error dictionary.
pub struct DictionaryMessage {
    pub message: String,
    pub description: Option<String>,
    pub help: Option<String>,
}

impl View for DictionaryMessage {
    type V = MessageView;

    open spec fn view(&self) -> MessageView {
        MessageView {
            message: self.message@,
            description: opt_view(self.description),
            help: opt_view(self.help),
        }
    }
}

impl DictionaryMessage {
    /// A message with no description and no hint.
    pub fn new(message: &str) -> (r: Self)
        ensures
            r@ == (MessageView { message: message@, description: None, help: None }),
    {
        DictionaryMessage { message: message.to_owned(), description: None, help: None }
    }

    /// The same message with `description` as its description.
    pub fn with_description(self, description: &str) -> (r: Self)
        ensures
            r@ == (MessageView { description: Some(description@), ..self@ }),
    {
        DictionaryMessage { description: Some(description.to_owned()), ..self }
    }

    /// The same message with `help` as its hint.
    pub fn with_help(self, help: &str) -> (r: Self)
        ensures
            r@ == (MessageView { help: Some(help@), ..self@ }),
    {
        DictionaryMessage { help: Some(help.to_owned()), ..self }
    }
}

/// Messages keyed by their dotted identifier (such as `database.connection_failed`).
pub struct MessageTable {
    map: StringHashMap<DictionaryMessage>,
}

impl View for MessageTable {
    type V = Map<Seq<char>, MessageView>;

    closed spec fn view(&self) -> Map<Seq<char>, MessageView> {
        self.map@.map_values(|m: DictionaryMessage| m@)
    }
}

impl MessageTable {
    /// An empty table.
    pub fn new() -> (r: Self)
        ensures
            r@ == Map::<Seq<char>, MessageView>::empty(),
    {
        let r = MessageTable { map: StringHashMap::new() };
        assert(r@ =~= Map::<Seq<char>, MessageView>::empty());
        r
    }

    /// Stores `message` under `key`, replacing what was there.
    pub fn insert(&mut self, key: String, message: DictionaryMessage)
        ensures
            final(self)@ == old(self)@.insert(key@, message@),
    {
        let ghost k = key@;
        let ghost v = message@;
        self.map.insert(key, message);
        assert(self@ =~= old(self)@.insert(k, v));
    }

    /// The message stored under `key`.
    pub fn get(&self, key: &str) -> (r: Option<&DictionaryMessage>)
        ensures
            match r {
                Some(m) => self@.contains_key(key@) && m@ == self@[key@],
                None => !self@.contains_key(key@),
            },
    {
        self.map.get(key)
    }

    /// Whether a message is stored under `key`.
    pub fn contains_key(&self, key: &str) -> (r: bool)
        ensures
            r == self@.contains_key(key@),
    {
        self.map.contains_key(key)
    }
}

/// The localized error and information messages of one language.
pub struct ErrorDictionary {
    pub messages: MessageTable,
}

impl View for ErrorDictionary {
    type V = Map<Seq<char>, MessageView>;

    open spec fn view(&self) -> Map<Seq<char>, MessageView> {
        self.messages@
    }
}

impl ErrorDictionary {
    /// A dictionary with no message.
    pub fn new() -> (r: Self)
        ensures
            r@ == Map::<Seq<char>, MessageView>::empty(),
    {
        ErrorDictionary { messages: MessageTable::new() }
    }
}

/// Writing `b` over `a` and then `c` over the result is writing, over `a`,
/// `b` with `c` written over it.
pub proof fn lemma_overlay_associates(
    a: Map<Seq<char>, MessageView>,
    b: Map<Seq<char>, MessageView>,
    c: Map<Seq<char>, MessageView>,
)
    ensures
        a.union_prefer_right(b).union_prefer_right(c) == a.union_prefer_right(b.union_prefer_right(c)),
{
    assert(a.union_prefer_right(b).union_prefer_right(c) =~= a.union_prefer_right(
        b.union_prefer_right(c),
    ));
}

} // verus!
