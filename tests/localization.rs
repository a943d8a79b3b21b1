use litelocale::{localize, phoneticize, Locale, LocaleMessage};

fn load_spanish_locale() -> Locale {
    let mut es = Locale::new();
    es.add_message(LocaleMessage::new("hello", "hola", "ola"));
    es.add_message(LocaleMessage::new("and", "y", "ee"));
    es.add_message(LocaleMessage::new("goodbye", "adiós", "adeeos"));
    es
}

#[test]
fn localize_each_word() {
    let es = load_spanish_locale();
    assert_eq!("hola", localize("hello", &es));
    assert_eq!("y", localize("and", &es));
    assert_eq!("adiós", localize("goodbye", &es));
}

#[test]
fn phoneticize_each_word() {
    let es = load_spanish_locale();
    assert_eq!("ola", phoneticize("hello", &es));
    assert_eq!("ee", phoneticize("and", &es));
    assert_eq!("adeeos", phoneticize("goodbye", &es));
}

#[test]
fn localize_message() {
    let es = load_spanish_locale();
    assert_eq!("hola y adiós", localize("hello and goodbye", &es));
}

#[test]
fn phoneticize_message() {
    let es = load_spanish_locale();
    assert_eq!("ola ee adeeos", phoneticize("hello and goodbye", &es));
}

#[test]
fn unknown_first_word_is_returned_as_is() {
    let es = load_spanish_locale();
    assert_eq!("unknown", localize("unknown", &es));
    assert_eq!("unknown", phoneticize("unknown", &es));
    assert_eq!("unknown and goodbye", localize("unknown and goodbye", &es));
    assert_eq!("unknown and goodbye", phoneticize("unknown and goodbye", &es));
}

#[test]
fn empty_message_is_returned_empty() {
    let es = load_spanish_locale();
    assert_eq!("", localize("", &es));
    assert_eq!("", phoneticize("", &es));
    let empty = Locale::new();
    assert_eq!("", localize("", &empty));
}

#[test]
fn empty_key_translates_empty_message() {
    let mut l = Locale::new();
    l.add_message(LocaleMessage::new("", "vacío", "basio"));
    assert_eq!("vacío", localize("", &l));
    assert_eq!("basio", phoneticize("", &l));
}

#[test]
fn later_unknown_word_becomes_empty_piece() {
    let es = load_spanish_locale();
    assert_eq!("hola  adiós", localize("hello world goodbye", &es));
    assert_eq!("ola  adeeos", phoneticize("hello world goodbye", &es));
    assert_eq!("hola ", localize("hello there", &es));
}

#[test]
fn consecutive_spaces_give_empty_tokens() {
    let es = load_spanish_locale();
    assert_eq!("hola  y", localize("hello  and", &es));
    assert_eq!("hola ", localize("hello ", &es));
    assert_eq!(" hello", localize(" hello", &es));
}

#[test]
fn single_entry_lookup() {
    let mut l = Locale::new();
    l.add_message(LocaleMessage::new("cat", "gato", "gahtoh"));
    assert_eq!("gato", l.get_message_str("cat"));
    assert_eq!("gahtoh", l.get_phonetic_str("cat"));
    assert_eq!("", l.get_message_str("dog"));
    assert_eq!("", l.get_phonetic_str("dog"));
}

#[test]
fn last_entry_with_a_key_wins() {
    let mut l = Locale::new();
    l.add_message(LocaleMessage::new("hello", "hola", "ola"));
    l.add_message(LocaleMessage::new("bye", "chao", "chow"));
    l.add_message(LocaleMessage::new("hello", "buenas", "bwenas"));
    assert_eq!("buenas", l.get_message_str("hello"));
    assert_eq!("bwenas", l.get_phonetic_str("hello"));
    assert_eq!("buenas chao", localize("hello bye", &l));
    assert_eq!("bwenas chow", phoneticize("hello bye", &l));
}

#[test]
fn every_word_translated_in_order() {
    let es = load_spanish_locale();
    assert_eq!("adiós y hola y hola", localize("goodbye and hello and hello", &es));
}

#[test]
fn phoneticize_gate_uses_message() {
    let mut l = Locale::new();
    l.add_message(LocaleMessage::new("mute", "", "silent"));
    l.add_message(LocaleMessage::new("hi", "", ""));
    l.add_message(LocaleMessage::new("yes", "sí", ""));
    assert_eq!("mute", phoneticize("mute", &l));
    assert_eq!("mute yes", phoneticize("mute yes", &l));
    assert_eq!(" silent", phoneticize("yes mute", &l));
    assert_eq!("hi", localize("hi", &l));
}

#[test]
fn entry_getters_return_fields() {
    let m = LocaleMessage::new("goodbye", "adiós", "adeeos");
    assert_eq!("goodbye", m.get_str());
    assert_eq!("adiós", m.get_message());
    assert_eq!("adeeos", m.get_phonetic());
}
