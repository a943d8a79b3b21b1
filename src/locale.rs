use vstd::prelude::*;

verus! {

/// What a `LocaleMessage` holds: its key, its localized message and its
/// phonetic spelling (empty when none was given).
pub struct MessageView {
    pub locstr: Seq<char>,
    pub message: Seq<char>,
    pub phonetic: Seq<char>,
}

/// One unit of localization: an identifying string, its rendering in the
/// localized language, and optionally a phonetic spelling of that rendering.
pub struct LocaleMessage {
    locstr: String,
    message: String,
    phonetic: String,
}

impl View for LocaleMessage {
    type V = MessageView;

    closed spec fn view(&self) -> MessageView {
        MessageView { locstr: self.locstr@, message: self.message@, phonetic: self.phonetic@ }
    }
}

impl LocaleMessage {
    /// Creates a new unit of localization from its key (for instance an English
    /// word), its message in the localized language, and its phonetic spelling.
    pub fn new(locstr: &str, message: &str, phonetic: &str) -> (r: LocaleMessage)
        ensures
            r@ == (MessageView { locstr: locstr@, message: message@, phonetic: phonetic@ }),
    {
        LocaleMessage {
            locstr: locstr.to_owned(),
            message: message.to_owned(),
            phonetic: phonetic.to_owned(),
        }
    }

    /// The identifying string.
    pub fn get_str(&self) -> (r: String)
        ensures
            r@ == self@.locstr,
    {
        self.locstr.clone()
    }

    /// The localized message.
    pub fn get_message(&self) -> (r: String)
        ensures
            r@ == self@.message,
    {
        self.message.clone()
    }

    /// The phonetic spelling of the localized message.
    pub fn get_phonetic(&self) -> (r: String)
        ensures
            r@ == self@.phonetic,
    {
        self.phonetic.clone()
    }
}

/// The message of the last entry whose key is `key`, or the empty sequence when
/// no entry has that key.
pub open spec fn message_for(entries: Seq<MessageView>, key: Seq<char>) -> Seq<char>
    decreases entries.len(),
{
    if entries.len() == 0 {
        Seq::<char>::empty()
    } else if entries.last().locstr == key {
        entries.last().message
    } else {
        message_for(entries.drop_last(), key)
    }
}

/// The phonetic spelling of the last entry whose key is `key`, or the empty
/// sequence when no entry has that key.
pub open spec fn phonetic_for(entries: Seq<MessageView>, key: Seq<char>) -> Seq<char>
    decreases entries.len(),
{
    if entries.len() == 0 {
        Seq::<char>::empty()
    } else if entries.last().locstr == key {
        entries.last().phonetic
    } else {
        phonetic_for(entries.drop_last(), key)
    }
}

/// Whether some entry has the key `key`.
pub open spec fn has_entry(entries: Seq<MessageView>, key: Seq<char>) -> bool {
    exists|i: int| 0 <= i < entries.len() && entries[i].locstr == key
}

/// With no entry keyed `key`, both lookups give the empty sequence.
pub proof fn lemma_absent_key(entries: Seq<MessageView>, key: Seq<char>)
    requires
        !has_entry(entries, key),
    ensures
        message_for(entries, key).len() == 0,
        phonetic_for(entries, key).len() == 0,
    decreases entries.len(),
{
    if entries.len() > 0 {
        let rest = entries.drop_last();
        assert(!has_entry(rest, key)) by {
            assert forall|i: int| 0 <= i < rest.len() implies rest[i].locstr != key by {
                assert(rest[i] == entries[i]);
            }
        }
        lemma_absent_key(rest, key);
    }
}

/// An entry added to an empty locale is found under its own key: the lookups
/// give its message and its phonetic spelling.
pub proof fn lemma_single_entry(e: MessageView)
    ensures
        message_for(seq![e], e.locstr) == e.message,
        phonetic_for(seq![e], e.locstr) == e.phonetic,
{
}

/// Of two entries added one after the other with the same key, the later one
/// wins: the lookups give its message and its phonetic spelling, whatever the
/// locale held before.
pub proof fn lemma_last_wins(entries: Seq<MessageView>, first: MessageView, second: MessageView)
    requires
        first.locstr == second.locstr,
    ensures
        message_for(entries.push(first).push(second), first.locstr) == second.message,
        phonetic_for(entries.push(first).push(second), first.locstr) == second.phonetic,
{
}

/// A collection of units of localization, kept in the order they were added.
/// Keys may repeat; the entry added last wins on lookup.
pub struct Locale {
    messages: Vec<LocaleMessage>,
}

impl View for Locale {
    type V = Seq<MessageView>;

    closed spec fn view(&self) -> Seq<MessageView> {
        self.messages@.map_values(|m: LocaleMessage| m@)
    }
}

impl Locale {
    /// Creates an empty locale.
    pub fn new() -> (r: Locale)
        ensures
            r@ == Seq::<MessageView>::empty(),
    {
        let r = Locale { messages: Vec::new() };
        assert(r@ =~= Seq::<MessageView>::empty());
        r
    }

    /// Appends a unit of localization to this locale.
    pub fn add_message(&mut self, message: LocaleMessage)
        ensures
            final(self)@ == old(self)@.push(message@),
    {
        self.messages.push(message);
        assert(self@ =~= old(self)@.push(message@));
    }

    /// The message of the last entry whose key equals `locstr`, or an empty
    /// string when there is none. Every entry is scanned.
    pub fn get_message_str(&self, locstr: &str) -> (r: String)
        ensures
            r@ == message_for(self@, locstr@),
    {
        let key = locstr.to_owned();
        let mut message_str = String::new();
        let mut i: usize = 0;
        while i < self.messages.len()
            invariant
                i <= self.messages.len(),
                key@ == locstr@,
                message_str@ == message_for(self@.take(i as int), locstr@),
            decreases self.messages.len() - i,
        {
            assert(self@.take(i + 1).drop_last() =~= self@.take(i as int));
            if self.messages[i].get_str() == key {
                message_str = self.messages[i].get_message();
            }
            i = i + 1;
        }
        assert(self@.take(i as int) =~= self@);
        message_str
    }

    /// The phonetic spelling of the last entry whose key equals `locstr`, or an
    /// empty string when there is none. Every entry is scanned.
    pub fn get_phonetic_str(&self, locstr: &str) -> (r: String)
        ensures
            r@ == phonetic_for(self@, locstr@),
    {
        let key = locstr.to_owned();
        let mut phonetic_str = String::new();
        let mut i: usize = 0;
        while i < self.messages.len()
            invariant
                i <= self.messages.len(),
                key@ == locstr@,
                phonetic_str@ == phonetic_for(self@.take(i as int), locstr@),
            decreases self.messages.len() - i,
        {
            assert(self@.take(i + 1).drop_last() =~= self@.take(i as int));
            if self.messages[i].get_str() == key {
                phonetic_str = self.messages[i].get_phonetic();
            }
            i = i + 1;
        }
        assert(self@.take(i as int) =~= self@);
        phonetic_str
    }
}

} // verus!
