use vstd::prelude::*;

use crate::locale::{has_entry, lemma_absent_key, message_for, phonetic_for, Locale, MessageView};
use crate::text::{join_with_spaces, push_char, push_text, split_at_spaces, split_spaces, views_of};

verus! {

/// What a token renders to: its localized message, or its phonetic spelling.
pub open spec fn rendering(
    entries: Seq<MessageView>,
    token: Seq<char>,
    phonetic: bool,
) -> Seq<char> {
    if phonetic {
        phonetic_for(entries, token)
    } else {
        message_for(entries, token)
    }
}

/// Whether the first space-delimited token of `message` has a non-empty
/// localized message; only then is the message translated at all.
pub open spec fn translatable(message: Seq<char>, entries: Seq<MessageView>) -> bool {
    message_for(entries, split_at_spaces(message)[0]).len() > 0
}

/// Each token of `message` rendered, joined again with single spaces.
pub open spec fn rendered(
    message: Seq<char>,
    entries: Seq<MessageView>,
    phonetic: bool,
) -> Seq<char> {
    join_with_spaces(
        split_at_spaces(message).map_values(|t: Seq<char>| rendering(entries, t, phonetic)),
    )
}

/// The localized form of `message`: the message unchanged when its first token
/// is not translatable, else every token replaced by its localized message.
pub open spec fn localized(message: Seq<char>, entries: Seq<MessageView>) -> Seq<char> {
    if translatable(message, entries) {
        rendered(message, entries, false)
    } else {
        message
    }
}

/// The phonetic form of `message`: the message unchanged when its first token
/// is not translatable, else every token replaced by its phonetic spelling.
pub open spec fn phoneticized(message: Seq<char>, entries: Seq<MessageView>) -> Seq<char> {
    if translatable(message, entries) {
        rendered(message, entries, true)
    } else {
        message
    }
}

/// When no entry is keyed by the first space-delimited token of `message`,
/// both `localize` and `phoneticize` give `message` back unchanged.
pub proof fn lemma_untranslated_first_token(message: Seq<char>, entries: Seq<MessageView>)
    requires
        !has_entry(entries, split_at_spaces(message)[0]),
    ensures
        localized(message, entries) == message,
        phoneticized(message, entries) == message,
{
    lemma_absent_key(entries, split_at_spaces(message)[0]);
}

/// When every token of `message` has an entry, and the first token's message
/// is not empty, `localize` gives each token's localized message, in the
/// original order, joined with single spaces.
pub proof fn lemma_every_token_translated(message: Seq<char>, entries: Seq<MessageView>)
    requires
        forall|j: int|
            0 <= j < split_at_spaces(message).len() ==> #[trigger] has_entry(
                entries,
                split_at_spaces(message)[j],
            ),
        message_for(entries, split_at_spaces(message)[0]).len() > 0,
    ensures
        localized(message, entries) == join_with_spaces(
            split_at_spaces(message).map_values(|t: Seq<char>| message_for(entries, t)),
        ),
{
    assert(split_at_spaces(message).map_values(|t: Seq<char>| rendering(entries, t, false))
        =~= split_at_spaces(message).map_values(|t: Seq<char>| message_for(entries, t)));
}

/// The empty message comes back empty from `localize` and `phoneticize` when
/// no entry has the empty key.
pub proof fn lemma_empty_message(entries: Seq<MessageView>)
    requires
        !has_entry(entries, Seq::<char>::empty()),
    ensures
        localized(Seq::<char>::empty(), entries) == Seq::<char>::empty(),
        phoneticized(Seq::<char>::empty(), entries) == Seq::<char>::empty(),
{
    assert(split_at_spaces(Seq::<char>::empty())[0] == Seq::<char>::empty());
    lemma_untranslated_first_token(Seq::<char>::empty(), entries);
}

/// Looks up every token and joins the results with single spaces.
fn render_tokens(tokens: &Vec<String>, locale: &Locale, phonetic: bool) -> (r: String)
    ensures
        r@ == join_with_spaces(
            views_of(tokens@).map_values(|t: Seq<char>| rendering(locale@, t, phonetic)),
        ),
{
    let ghost parts = views_of(tokens@).map_values(|t: Seq<char>| rendering(locale@, t, phonetic));
    let mut out = String::new();
    let mut i: usize = 0;
    while i < tokens.len()
        invariant
            i <= tokens.len(),
            parts == views_of(tokens@).map_values(|t: Seq<char>| rendering(locale@, t, phonetic)),
            out@ == join_with_spaces(parts.take(i as int)),
        decreases tokens.len() - i,
    {
        let part = if phonetic {
            locale.get_phonetic_str(tokens[i].as_str())
        } else {
            locale.get_message_str(tokens[i].as_str())
        };
        assert(part@ == parts[i as int]);
        let ghost next = parts.take(i + 1);
        assert(next.drop_last() =~= parts.take(i as int));
        if i > 0 {
            push_char(&mut out, ' ');
        }
        push_text(&mut out, part.as_str());
        assert(out@ =~= join_with_spaces(next));
        i = i + 1;
    }
    assert(parts.take(i as int) =~= parts);
    out
}

/// Localizes each word of `message` (for instance "hello" becomes "hola")
/// with `locale`. The message is returned as it is when its first word has
/// no localized message; a later word without one becomes an empty piece.
pub fn localize(message: &str, locale: &Locale) -> (r: String)
    ensures
        r@ == localized(message@, locale@),
{
    let locstrs = split_spaces(message);
    let first = locale.get_message_str(locstrs[0].as_str());
    if first.as_str().is_empty() {
        return message.to_owned();
    }
    let r = render_tokens(&locstrs, locale, false);
    assert(views_of(locstrs@).map_values(|t: Seq<char>| rendering(locale@, t, false))
        =~= split_at_spaces(message@).map_values(|t: Seq<char>| rendering(locale@, t, false)));
    r
}

/// Renders each word of `message` by its phonetic spelling (for instance
/// "hello" becomes "ola") with `locale`. Whether the message is rendered at
/// all is decided by the localized message of its first word, as in
/// `localize`; otherwise it is returned as it is.
pub fn phoneticize(message: &str, locale: &Locale) -> (r: String)
    ensures
        r@ == phoneticized(message@, locale@),
{
    let locstrs = split_spaces(message);
    let first = locale.get_message_str(locstrs[0].as_str());
    if first.as_str().is_empty() {
        return message.to_owned();
    }
    let r = render_tokens(&locstrs, locale, true);
    assert(views_of(locstrs@).map_values(|t: Seq<char>| rendering(locale@, t, true))
        =~= split_at_spaces(message@).map_values(|t: Seq<char>| rendering(locale@, t, true)));
    r
}

} // verus!
