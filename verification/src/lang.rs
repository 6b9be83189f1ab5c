//! The words that the indicator shows, in the languages it knows.

use crate::text::same_text;
use vstd::prelude::*;

verus! {

/// A language that the indicator speaks.
#[derive(Clone, Copy, Debug, PartialEq, Eq, Structural)]
pub enum Lang {
    En,
    Fi,
}

/// A thing that the indicator has to say.
#[allow(non_camel_case_types)]
#[derive(Clone, Copy, Debug, PartialEq, Eq, Structural)]
pub enum Key {
    battery_remaining,
    no_adapter_found,
    view_logs,
    view_updates,
    quit_program,
    device_charging,
    device_disconnected,
    version,
}

/// What `key` reads in `lang`.
pub open spec fn text(lang: Lang, key: Key) -> Seq<char> {
    match lang {
        Lang::En => match key {
            Key::battery_remaining => "remaining"@,
            Key::no_adapter_found => "No headphone adapter found"@,
            Key::view_logs => "View logs"@,
            Key::view_updates => "View updates"@,
            Key::quit_program => "Close"@,
            Key::device_charging => "(Charging)"@,
            Key::device_disconnected => "(Disconnected)"@,
            Key::version => "Version"@,
        },
        Lang::Fi => match key {
            Key::battery_remaining => "jäljellä"@,
            Key::no_adapter_found => "Kuulokeadapteria ei löytynyt"@,
            Key::view_logs => "Näytä lokitiedostot"@,
            Key::view_updates => "Näytä päivitykset"@,
            Key::quit_program => "Sulje"@,
            Key::device_charging => "(Latautuu)"@,
            Key::device_disconnected => "(Ei yhteyttä)"@,
            Key::version => "Versio"@,
        },
    }
}

/// The language for a locale: Finnish for `fi` and `fi-FI`, English for every
/// other.
pub open spec fn lang_of_locale(locale: Seq<char>) -> Lang {
    if locale == "fi"@ || locale == "fi-FI"@ {
        Lang::Fi
    } else {
        Lang::En
    }
}

/// The language for a locale tag.
pub fn lang_for_locale(locale: &str) -> (r: Lang)
    ensures
        r == lang_of_locale(locale@),
{
    if same_text(locale, "fi") || same_text(locale, "fi-FI") {
        Lang::Fi
    } else {
        Lang::En
    }
}

/// What `key` reads in `lang`.
pub fn translate(lang: Lang, key: Key) -> (r: &'static str)
    ensures
        r@ == text(lang, key),
{
    match lang {
        Lang::En => match key {
            Key::battery_remaining => "remaining",
            Key::no_adapter_found => "No headphone adapter found",
            Key::view_logs => "View logs",
            Key::view_updates => "View updates",
            Key::quit_program => "Close",
            Key::device_charging => "(Charging)",
            Key::device_disconnected => "(Disconnected)",
            Key::version => "Version",
        },
        Lang::Fi => match key {
            Key::battery_remaining => "jäljellä",
            Key::no_adapter_found => "Kuulokeadapteria ei löytynyt",
            Key::view_logs => "Näytä lokitiedostot",
            Key::view_updates => "Näytä päivitykset",
            Key::quit_program => "Sulje",
            Key::device_charging => "(Latautuu)",
            Key::device_disconnected => "(Ei yhteyttä)",
            Key::version => "Versio",
        },
    }
}

/// The system's most preferred locale, as a BCP 47 tag, if the system tells
/// one.
///
/// Trusted: this is `sys_locale::get_locale`. What it returns depends on the
/// machine and on how it is set up, so nothing is claimed of it.
#[verifier::external_body]
fn system_locale() -> Option<String> {
    sys_locale::get_locale()
}

/// The language for what the system tells of its locale: that of the
/// locale, and English where it tells none.
pub fn lang_for_system_locale(locale: Option<String>) -> (r: Lang)
    ensures
        r == match locale {
            Some(tag) => lang_of_locale(tag@),
            None => Lang::En,
        },
{
    match locale {
        Some(tag) => lang_for_locale(tag.as_str()),
        None => Lang::En,
    }
}

/// The language of this system. Which one that is depends on the machine;
/// [`lang_for_system_locale`] says which it is for each locale.
pub fn system_lang() -> Lang {
    lang_for_system_locale(system_locale())
}

/// What `key` reads in the language of this system. Which language that is
/// depends on the machine; [`translate`] says what is read in each.
pub fn t(key: Key) -> (r: &'static str)
    ensures
        r@ == text(Lang::En, key) || r@ == text(Lang::Fi, key),
{
    translate(system_lang(), key)
}

} // verus!
