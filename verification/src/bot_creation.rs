//! Making a new bot from a template: the folder it goes in, and what is changed in
//! the template's files and settings.

use vstd::prelude::*;
use configparser::ini::Ini;
use crate::config_store::{ini_entries, ini_is_plain, ini_key, ini_set};
use crate::text::{decimal, is_ascii_seq, opt_view, push_decimal};
use rand::Rng;

verus! {

/// The folder, under the GUI's folder, that new bots go in.
pub const CREATED_BOTS_FOLDER: &'static str = "MyBots";

/// The file name `sanitize_filename::sanitize` makes of a text.
pub uninterp spec fn sanitized(s: Seq<char>) -> Seq<char>;

/// `sanitize_filename::sanitize`: the text with what a file name cannot hold
/// removed or replaced.
#[verifier::external_body]
fn sanitize_name(name: &str) -> (r: String)
    ensures
        r@ == sanitized(name@),
{
    sanitize_filename::sanitize(name)
}

/// The name of the folder a new bot goes in: its name made fit for a file name.
pub fn new_bot_folder_name(bot_name: &str) -> (r: String)
    ensures
        r@ == sanitized(bot_name@),
{
    sanitize_name(bot_name)
}

/// Why a new bot cannot go in its folder.
pub open spec fn existing_bot_text(folder_name: Seq<char>) -> Seq<char> {
    "There is already a bot named "@ + folder_name + ", please choose a different name!"@
}

/// Why a new bot cannot go in its folder: a bot is there already.
pub fn existing_bot_message(folder_name: &str) -> (r: String)
    ensures
        r@ == existing_bot_text(folder_name@),
{
    let mut r = "There is already a bot named ".to_owned();
    r.append(folder_name);
    r.append(", please choose a different name!");
    r
}

proof fn lemma_bot_keys()
    ensures
        is_ascii_seq("Locations"@),
        is_ascii_seq("name"@),
        is_ascii_seq("Bot Parameters"@),
        is_ascii_seq("path"@),
        is_ascii_seq("package"@),
        is_ascii_seq("authors"@),
        is_ascii_seq("sb3file"@),
        is_ascii_seq("port"@),
{
    reveal_strlit("Locations");
    reveal_strlit("name");
    reveal_strlit("Bot Parameters");
    reveal_strlit("path");
    reveal_strlit("package");
    reveal_strlit("authors");
    reveal_strlit("sb3file");
    reveal_strlit("port");
    assert("Locations"@ =~= seq!['L', 'o', 'c', 'a', 't', 'i', 'o', 'n', 's']);
    assert("name"@ =~= seq!['n', 'a', 'm', 'e']);
    assert("Bot Parameters"@ =~= seq!['B', 'o', 't', ' ', 'P', 'a', 'r', 'a', 'm', 'e', 't', 'e', 'r', 's']);
    assert("path"@ =~= seq!['p', 'a', 't', 'h']);
    assert("package"@ =~= seq!['p', 'a', 'c', 'k', 'a', 'g', 'e']);
    assert("authors"@ =~= seq!['a', 'u', 't', 'h', 'o', 'r', 's']);
    assert("sb3file"@ =~= seq!['s', 'b', '3', 'f', 'i', 'l', 'e']);
    assert("port"@ =~= seq!['p', 'o', 'r', 't']);
}

/// Names a new Rust bot in its `.cfg` file and points it at its debug build.
pub fn configure_rust_bot(conf: &mut Ini, bot_name: &str)
    ensures
        ini_is_plain(*final(conf)) == ini_is_plain(*old(conf)),
        ini_is_plain(*old(conf)) ==> ini_entries(*final(conf)) == ini_entries(*old(conf))
            .insert(ini_key("Locations"@, "name"@), Some(bot_name@))
            .insert(ini_key("Bot Parameters"@, "path"@), Some("../target/debug/"@ + bot_name@ + ".exe"@)),
{
    proof { lemma_bot_keys(); }
    ini_set(conf, "Locations", "name", Some(bot_name.to_owned()));
    let mut path = "../target/debug/".to_owned();
    path.append(bot_name);
    path.append(".exe");
    ini_set(conf, "Bot Parameters", "path", Some(path));
}

/// Names the package of a new Rust bot in its `Cargo.toml` and clears its authors.
pub fn configure_rust_package(conf: &mut Ini, folder_name: &str)
    ensures
        ini_is_plain(*final(conf)) == ini_is_plain(*old(conf)),
        ini_is_plain(*old(conf)) ==> ini_entries(*final(conf)) == ini_entries(*old(conf))
            .insert(ini_key("package"@, "name"@), Some("\""@ + folder_name@ + "\""@))
            .insert(ini_key("package"@, "authors"@), Some("[\"\"]"@)),
{
    proof { lemma_bot_keys(); }
    let mut name = "\"".to_owned();
    name.append(folder_name);
    name.append("\"");
    ini_set(conf, "package", "name", Some(name));
    ini_set(conf, "package", "authors", Some("[\"\"]".to_owned()));
}

/// `rand::Rng::gen_range(20000..65000)` on the thread's generator: a port for a
/// Scratch bot, chosen at random.
#[verifier::external_body]
fn random_scratch_port() -> (r: i32)
    ensures
        20000 <= r < 65000,
{
    rand::thread_rng().gen_range(20000..65000)
}

/// Names a new Scratch bot in its `.cfg` file, points it at its project file and
/// gives it a random port; returns the port.
pub fn configure_scratch_bot(conf: &mut Ini, bot_name: &str, folder_name: &str) -> (r: i32)
    ensures
        20000 <= r < 65000,
        ini_is_plain(*final(conf)) == ini_is_plain(*old(conf)),
        ini_is_plain(*old(conf)) ==> ini_entries(*final(conf)) == ini_entries(*old(conf))
            .insert(ini_key("Locations"@, "name"@), Some(bot_name@))
            .insert(ini_key("Bot Parameters"@, "sb3file"@), Some(folder_name@ + ".sb3"@))
            .insert(ini_key("Bot Parameters"@, "port"@), Some(decimal(r as nat))),
{
    proof { lemma_bot_keys(); }
    ini_set(conf, "Locations", "name", Some(bot_name.to_owned()));
    let mut sb3 = folder_name.to_owned();
    sb3.append(".sb3");
    ini_set(conf, "Bot Parameters", "sb3file", Some(sb3));
    let port = random_scratch_port();
    let mut text = String::new();
    push_decimal(&mut text, port as u64);
    ini_set(conf, "Bot Parameters", "port", Some(text));
    port
}

/// The hash that `std`'s `DefaultHasher`, as `DefaultHasher::new` makes it (with
/// its fixed keys), gives a name.
pub uninterp spec fn default_hash(name: Seq<char>) -> u64;

/// `BuildHasher::hash_one` with the default builder of `DefaultHasher`, which
/// makes it as `DefaultHasher::new` does: the hash of a name.
#[verifier::external_body]
fn name_hash(name: &str) -> (r: u64)
    ensures
        r == default_hash(name@),
{
    std::hash::BuildHasher::hash_one(&std::hash::BuildHasherDefault::<std::collections::hash_map::DefaultHasher>::default(), name)
}

/// `rand::random::<u64>()`: a random number; nothing is stated of it.
#[verifier::external_body]
fn random_u64() -> u64 {
    rand::random::<u64>()
}

/// The key of a new hivemind: the hash of its name plus a random number below a
/// million, wrapping around on overflow.
pub fn new_hive_key(hive_name: &str) -> (r: u64)
    ensures
        exists|extra: u64| extra < 1000000 && r == default_hash(hive_name@).wrapping_add(extra),
{
    let hash = name_hash(hive_name);
    let extra = random_u64() % 1000000;
    let key = hash.wrapping_add(extra);
    assert(extra < 1000000 && key == default_hash(hive_name@).wrapping_add(extra));
    key
}

/// The text `regex::Regex::replace_all` makes of `text`, every match of `pattern`
/// replaced by `replacement` (where `$name` refers to a group); `None` when the
/// pattern is not a valid expression.
pub uninterp spec fn regex_replaced(pattern: Seq<char>, text: Seq<char>, replacement: Seq<char>) -> Option<Seq<char>>;

/// `regex::Regex::new` then `Regex::replace_all`.
#[verifier::external_body]
fn replace_all_matches(pattern: &str, text: &str, replacement: &str) -> (r: Option<String>)
    ensures
        opt_view(r) == regex_replaced(pattern@, text@, replacement@),
{
    match regex::Regex::new(pattern) {
        Ok(re) => Some(re.replace_all(text, replacement).into_owned()),
        Err(_) => None,
    }
}

/// The drone file of a new hivemind with its hive's name and key put in.
pub fn rename_hivemind_drone(contents: &str, hive_name: &str, hive_key: u64) -> (r: Option<String>)
    ensures
        match regex_replaced("hive_name = .*$"@, contents@, "hive_name = \""@ + hive_name@ + " Hivemind\""@) {
            None => r is None,
            Some(named) => opt_view(r) == regex_replaced("hive_key = .*$"@, named, "hive_key = \""@ + decimal(hive_key as nat) + "\""@),
        },
{
    let mut name_line = "hive_name = \"".to_owned();
    name_line.append(hive_name);
    name_line.append(" Hivemind\"");
    let named = match replace_all_matches("hive_name = .*$", contents, name_line.as_str()) {
        Some(t) => t,
        None => {
            return None;
        },
    };
    let mut key_line = "hive_key = \"".to_owned();
    push_decimal(&mut key_line, hive_key);
    key_line.append("\"");
    replace_all_matches("hive_key = .*$", named.as_str(), key_line.as_str())
}

/// The hive file of a new hivemind with its class named after the hive.
pub fn rename_hivemind_class(contents: &str, hive_name: &str) -> (r: Option<String>)
    ensures
        opt_view(r) == regex_replaced("class .*\\(PythonHivemind\\)"@, contents@, "class "@ + hive_name@ + "Hivemind(PythonHivemind)"@),
{
    let mut class_line = "class ".to_owned();
    class_line.append(hive_name);
    class_line.append("Hivemind(PythonHivemind)");
    replace_all_matches("class .*\\(PythonHivemind\\)", contents, class_line.as_str())
}

/// A text with each backslash doubled, as a regex replacement writes one.
pub open spec fn doubled_backslashes(s: Seq<char>) -> Seq<char>
    decreases s.len(),
{
    if s.len() == 0 {
        Seq::empty()
    } else if s.last() == '\\' {
        doubled_backslashes(s.drop_last()) + seq!['\\', '\\']
    } else {
        doubled_backslashes(s.drop_last()).push(s.last())
    }
}

/// The match settings file of a new Scratch bot, each participant line pointed at
/// the bot's `.cfg` file (a path relative to the settings file).
pub fn point_participants_at(contents: &str, config_path: &str) -> (r: Option<String>)
    ensures
        opt_view(r) == regex_replaced("(?P<a>participant_config_\\d = ).*$"@, contents@, "$a"@ + doubled_backslashes(config_path@)),
{
    let mut replacement = "$a".to_owned();
    let ghost start = replacement@;
    let n = config_path.unicode_len();
    let mut i: usize = 0;
    while i < n
        invariant
            i <= n,
            n == config_path@.len(),
            replacement@ == start + doubled_backslashes(config_path@.subrange(0, i as int)),
        decreases n - i,
    {
        let c = config_path.get_char(i);
        assert(config_path@.subrange(0, i + 1).drop_last() =~= config_path@.subrange(0, i as int));
        if c == '\\' {
            crate::text::push_char(&mut replacement, '\\');
            crate::text::push_char(&mut replacement, '\\');
        } else {
            crate::text::push_char(&mut replacement, c);
        }
        assert(replacement@ =~= start + doubled_backslashes(config_path@.subrange(0, i + 1)));
        i = i + 1;
    }
    assert(config_path@.subrange(0, n as int) =~= config_path@);
    replace_all_matches("(?P<a>participant_config_\\d = ).*$", contents, replacement.as_str())
}

} // verus!
