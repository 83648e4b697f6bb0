//! The GUI keeps its settings in an INI document (the `configparser` crate), each
//! value a JSON text (the `serde_json` crate). This module states what the library
//! relies on of both.

use vstd::prelude::*;
use configparser::ini::Ini;
use crate::bot_config_bundle::unicode_lower;
use crate::text::{ascii_lower, decimal, is_ascii_seq, opt_view};

verus! {

#[verifier::external_type_specification]
#[verifier::external_body]
pub struct ExIni(Ini);

/// What an INI document holds: for each (section, key) pair, as stored, the value,
/// or `None` for a key without a value.
pub uninterp spec fn ini_entries(ini: Ini) -> Map<(Seq<char>, Seq<char>), Option<Seq<char>>>;

/// Whether the document looks keys up as `Ini::new` sets it up: section and key
/// names are lower-cased, no default section is consulted, and booleans are read
/// with the word lists `Ini::new` starts with.
pub uninterp spec fn ini_is_plain(ini: Ini) -> bool;

/// A document without entries.
pub open spec fn no_entries() -> Map<(Seq<char>, Seq<char>), Option<Seq<char>>> {
    Map::empty()
}

/// A name lower-cased as a plain document stores it: an ASCII name letter by
/// letter, any other as `str::to_lowercase` lower-cases it.
pub open spec fn lowered(s: Seq<char>) -> Seq<char> {
    if is_ascii_seq(s) {
        ascii_lower(s)
    } else {
        unicode_lower(s)
    }
}

/// The stored (section, key) pair that a section and key name refer to.
pub open spec fn ini_key(section: Seq<char>, key: Seq<char>) -> (Seq<char>, Seq<char>) {
    (lowered(section), lowered(key))
}

/// The value stored under a section and key, `None` when there is none.
pub open spec fn ini_value(
    entries: Map<(Seq<char>, Seq<char>), Option<Seq<char>>>,
    section: Seq<char>,
    key: Seq<char>,
) -> Option<Seq<char>> {
    if entries.contains_key(ini_key(section, key)) {
        entries[ini_key(section, key)]
    } else {
        None
    }
}

/// `Ini::new`: an empty document, case-insensitive, without default-section lookups.
#[verifier::external_body]
pub(crate) fn new_ini() -> (r: Ini)
    ensures
        ini_entries(r) == no_entries(),
        ini_is_plain(r),
{
    Ini::new()
}

/// What `Ini::read` makes of a text, flattened to (section, key) pairs, in a
/// document set up by `Ini::new` with `;` as the only comment symbol and
/// continuation lines on or off as `multiline` says; `None` where it reports an
/// error.
pub uninterp spec fn ini_parsed(text: Seq<char>, multiline: bool) -> Option<Map<(Seq<char>, Seq<char>), Option<Seq<char>>>>;

/// `Ini::read` on a new document: `Ini::new`, continuation lines as `multiline`
/// says, `;` as the only comment symbol, then the text. On success the document
/// holds what the text says and looks keys up as `Ini::new` sets it up; on
/// failure, the parser's message.
#[verifier::external_body]
pub(crate) fn ini_from_text(text: String, multiline: bool) -> (r: Result<Ini, String>)
    ensures
        r is Ok <==> ini_parsed(text@, multiline) is Some,
        r matches Ok(c) ==> ini_is_plain(c) && ini_parsed(text@, multiline) == Some(ini_entries(c)),
{
    let mut conf = Ini::new();
    conf.set_multiline(multiline);
    conf.set_comment_symbols(&[';']);
    match conf.read(text) {
        Ok(_) => Ok(conf),
        Err(e) => Err(e),
    }
}

/// `Ini::set`: stores `value` under the section and key, lower-casing both names
/// in a plain document (`str::to_lowercase` for a name that is not lower-case
/// ASCII). The previous value, which it returns, is dropped here.
#[verifier::external_body]
pub(crate) fn ini_set(conf: &mut Ini, section: &str, key: &str, value: Option<String>)
    ensures
        ini_is_plain(*final(conf)) == ini_is_plain(*old(conf)),
        ini_is_plain(*old(conf)) ==> ini_entries(*final(conf)) == ini_entries(*old(conf)).insert(
            ini_key(section@, key@),
            opt_view(value),
        ),
{
    conf.set(section, key, value);
}

/// `Ini::get`: the value stored under the section and key, if any.
#[verifier::external_body]
pub(crate) fn ini_get(conf: &Ini, section: &str, key: &str) -> (r: Option<String>)
    ensures
        ini_is_plain(*conf) ==> opt_view(r) == ini_value(ini_entries(*conf), section@, key@),
{
    conf.get(section, key)
}

/// How `Ini::getbool` reads a stored value: `true` or `false` in any ASCII case,
/// `None` when nothing is stored, and an error otherwise.
pub open spec fn ini_bool(v: Option<Seq<char>>) -> Result<Option<bool>, ()> {
    match v {
        None => Ok(None),
        Some(t) => if ascii_lower(t) == "true"@ {
            Ok(Some(true))
        } else if ascii_lower(t) == "false"@ {
            Ok(Some(false))
        } else {
            Err(())
        },
    }
}

/// `Ini::getbool`: reads the stored value as a boolean.
#[verifier::external_body]
pub(crate) fn ini_getbool(conf: &Ini, section: &str, key: &str) -> (r: Result<Option<bool>, String>)
    ensures
        ini_is_plain(*conf) ==> match ini_bool(ini_value(ini_entries(*conf), section@, key@)) {
            Ok(b) => r == Ok::<Option<bool>, String>(b),
            Err(_) => r is Err,
        },
{
    conf.getbool(section, key)
}

/// How `Ini::getboolcoerce` reads a stored value: lower-cased, one of its words
/// for true or for false; `None` where it reports an error.
pub open spec fn coerced_bool(t: Seq<char>) -> Option<bool> {
    let l = lowered(t);
    if l == "true"@ || l == "yes"@ || l == "t"@ || l == "y"@ || l == "on"@ || l == "1"@ {
        Some(true)
    } else if l == "false"@ || l == "no"@ || l == "f"@ || l == "n"@ || l == "off"@ || l == "0"@ {
        Some(false)
    } else {
        None
    }
}

/// `Ini::getboolcoerce`: reads the stored value as a boolean, accepting the words
/// above.
#[verifier::external_body]
pub(crate) fn ini_getboolcoerce(conf: &Ini, section: &str, key: &str) -> (r: Result<Option<bool>, String>)
    ensures
        ini_is_plain(*conf) ==> match ini_value(ini_entries(*conf), section@, key@) {
            None => r == Ok::<Option<bool>, String>(None),
            Some(t) => match coerced_bool(t) {
                Some(b) => r == Ok::<Option<bool>, String>(Some(b)),
                None => r is Err,
            },
        },
{
    conf.getboolcoerce(section, key)
}

/// The JSON text that `serde_json::to_string` writes for a string.
pub uninterp spec fn json_text_of_str(s: Seq<char>) -> Seq<char>;

/// The string that `serde_json::from_str::<String>` reads from a text, if it reads one.
pub uninterp spec fn json_str_value(j: Seq<char>) -> Option<Seq<char>>;

/// The number that `serde_json::from_str::<usize>` reads from a text, if it reads one.
pub uninterp spec fn json_usize_value(j: Seq<char>) -> Option<usize>;

/// A string that JSON writes without escapes: no quote, backslash or control character.
pub open spec fn json_plain(s: Seq<char>) -> bool {
    forall|i: int| 0 <= i < s.len() ==> (#[trigger] s[i] != '"' && s[i] != '\\' && (s[i] as u32) >= 32)
}

/// `s` between double quotes.
pub open spec fn quoted(s: Seq<char>) -> Seq<char> {
    seq!['"'] + s + seq!['"']
}

/// `serde_json::to_string` of a string, which cannot fail: the JSON string literal,
/// which `serde_json::from_str` reads back as the same string; a string without
/// characters to escape is just put between quotes.
#[verifier::external_body]
pub(crate) fn json_of_str(s: &str) -> (r: Option<String>)
    ensures
        r is Some,
        r.unwrap()@ == json_text_of_str(s@),
        json_str_value(r.unwrap()@) == Some(s@),
        json_plain(s@) ==> r.unwrap()@ == quoted(s@),
{
    serde_json::to_string(s).ok()
}

/// `serde_json::to_string` of a `usize`, which cannot fail: its decimal numeral,
/// which `serde_json::from_str` reads back as the same number.
#[verifier::external_body]
pub(crate) fn json_of_usize(n: usize) -> (r: Option<String>)
    ensures
        r is Some,
        r.unwrap()@ == decimal(n as nat),
        json_usize_value(r.unwrap()@) == Some(n),
{
    serde_json::to_string(&n).ok()
}

/// `serde_json::to_string` of a `bool`, which cannot fail: `true` or `false`.
#[verifier::external_body]
pub(crate) fn json_of_bool(b: bool) -> (r: Option<String>)
    ensures
        r is Some,
        r.unwrap()@ == (if b { "true"@ } else { "false"@ }),
{
    serde_json::to_string(&b).ok()
}

/// `serde_json::from_str::<String>`: the string a JSON text holds, if it holds one.
#[verifier::external_body]
pub(crate) fn str_of_json(j: &str) -> (r: Option<String>)
    ensures
        opt_view(r) == json_str_value(j@),
{
    serde_json::from_str::<String>(j).ok()
}

/// `serde_json::from_str::<usize>`: the number a JSON text holds, if it holds one.
#[verifier::external_body]
pub(crate) fn usize_of_json(j: &str) -> (r: Option<usize>)
    ensures
        r == json_usize_value(j@),
{
    serde_json::from_str::<usize>(j).ok()
}

/// Every character is ASCII and none is an upper-case letter.
pub open spec fn is_lower_ascii(s: Seq<char>) -> bool {
    forall|i: int| 0 <= i < s.len() ==> (#[trigger] s[i] as u32) < 128 && !('A' <= s[i] && s[i] <= 'Z')
}

/// A name in lower-case ASCII is stored as it is.
pub proof fn lemma_lower_ascii_name(s: Seq<char>)
    requires
        is_lower_ascii(s),
    ensures
        ascii_lower(s) == s,
        is_ascii_seq(s),
        lowered(s) == s,
{
    assert(ascii_lower(s) =~= s);
}

/// The name stored, as a JSON string, under a section and key; `None` when nothing
/// is stored or the text is no JSON string.
pub open spec fn stored_label(
    entries: Map<(Seq<char>, Seq<char>), Option<Seq<char>>>,
    section: Seq<char>,
    key: Seq<char>,
) -> Option<Seq<char>> {
    match ini_value(entries, section, key) {
        Some(t) => json_str_value(t),
        None => None,
    }
}

/// Reads the name stored as a JSON string under a section and key.
pub(crate) fn read_stored_label(conf: &Ini, section: &str, key: &str) -> (r: Option<String>)
    ensures
        ini_is_plain(*conf) ==> opt_view(r) == stored_label(ini_entries(*conf), section@, key@),
{
    match ini_get(conf, section, key) {
        Some(t) => str_of_json(t.as_str()),
        None => None,
    }
}

/// Stores `label` as a JSON string under a section and key.
pub(crate) fn store_label(conf: &mut Ini, section: &str, key: &str, label: &str)
    ensures
        ini_is_plain(*final(conf)) == ini_is_plain(*old(conf)),
        ini_is_plain(*old(conf)) ==> ini_entries(*final(conf)) == ini_entries(*old(conf)).insert(
            ini_key(section@, key@),
            Some(json_text_of_str(label@)),
        ),
        json_str_value(json_text_of_str(label@)) == Some(label@),
{
    let text = json_of_str(label);
    ini_set(conf, section, key, text);
}

} // verus!
