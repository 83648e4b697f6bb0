//! What the GUI reads from a bot's or script's `.cfg` file, and the small decisions
//! made about bundles: their logos, whether they run in a virtual environment.

use vstd::prelude::*;
use configparser::ini::Ini;
use crate::config_store::{coerced_bool, ini_entries, ini_get, ini_getboolcoerce, ini_is_plain, ini_value};
use crate::cfg_helper::Error;
use crate::text::{is_ascii_seq, opt_view, remove_all, seq_contains, split_seq, str_contains, str_eq, str_remove_all, str_split, views};
use base64::{prelude::BASE64_STANDARD, Engine};

verus! {

/// A stored value, or the empty string.
pub open spec fn value_or_empty(v: Option<Seq<char>>) -> Seq<char> {
    match v {
        Some(t) => t,
        None => Seq::empty(),
    }
}

fn or_empty(v: Option<String>) -> (r: String)
    ensures
        r@ == value_or_empty(opt_view(v)),
{
    match v {
        Some(t) => t,
        None => String::new(),
    }
}

/// Copies a list of strings.
pub fn clone_strings(v: &Vec<String>) -> (r: Vec<String>)
    ensures
        r@ == v@,
{
    let mut r: Vec<String> = Vec::new();
    let mut i: usize = 0;
    while i < v.len()
        invariant
            i <= v@.len(),
            r@ == v@.subrange(0, i as int),
        decreases v.len() - i,
    {
        r.push(v[i].clone());
        i = i + 1;
        assert(r@ =~= v@.subrange(0, i as int));
    }
    assert(v@.subrange(0, i as int) =~= v@);
    r
}

fn clone_opt_string(v: &Option<String>) -> (r: Option<String>)
    ensures
        r == *v,
{
    match v {
        Some(s) => Some(s.clone()),
        None => None,
    }
}

/// Who made a bot or script, and what it is.
#[derive(Debug)]
pub struct DevInfo {
    pub developer: String,
    pub description: String,
    pub fun_fact: String,
    pub github: String,
    pub language: String,
    pub tags: Vec<String>,
}

/// What a bot's `.cfg` file tells of the bot and its developer.
pub type BotInfo = DevInfo;

impl Clone for DevInfo {
    fn clone(&self) -> (r: Self)
        ensures
            r.developer == self.developer,
            r.description == self.description,
            r.fun_fact == self.fun_fact,
            r.github == self.github,
            r.language == self.language,
            r.tags@ == self.tags@,
    {
        DevInfo {
            developer: self.developer.clone(),
            description: self.description.clone(),
            fun_fact: self.fun_fact.clone(),
            github: self.github.clone(),
            language: self.language.clone(),
            tags: clone_strings(&self.tags),
        }
    }
}

impl DevInfo {
    /// `a` and `b` hold the same information.
    pub open spec fn same_info(a: DevInfo, b: DevInfo) -> bool {
        &&& a.developer == b.developer
        &&& a.description == b.description
        &&& a.fun_fact == b.fun_fact
        &&& a.github == b.github
        &&& a.language == b.language
        &&& a.tags@ == b.tags@
    }

    /// The value stored under a key of the `Details` section, or the empty string.
    pub open spec fn detail(e: Map<(Seq<char>, Seq<char>), Option<Seq<char>>>, key: Seq<char>) -> Seq<char> {
        value_or_empty(ini_value(e, "Details"@, key))
    }

    /// Reads the `Details` section of a bundle's `.cfg` file; missing values are
    /// empty and the tags are the pieces of the `tags` value between ", ".
    pub fn from_config(config: &Ini) -> (r: Self)
        ensures
            ini_is_plain(*config) ==> {
                let e = ini_entries(*config);
                &&& r.developer@ == Self::detail(e, "developer"@)
                &&& r.description@ == Self::detail(e, "description"@)
                &&& r.fun_fact@ == Self::detail(e, "fun_fact"@)
                &&& r.github@ == Self::detail(e, "github"@)
                &&& r.language@ == Self::detail(e, "language"@)
                &&& views(r.tags@) == split_seq(Self::detail(e, "tags"@), ", "@)
            },
    {
        proof {
            reveal_strlit("Details");
            reveal_strlit("developer");
            reveal_strlit("description");
            reveal_strlit("fun_fact");
            reveal_strlit("github");
            reveal_strlit("language");
            reveal_strlit("tags");
            reveal_strlit(", ");
            assert("Details"@ =~= seq!['D', 'e', 't', 'a', 'i', 'l', 's']);
            assert("developer"@ =~= seq!['d', 'e', 'v', 'e', 'l', 'o', 'p', 'e', 'r']);
            assert("description"@ =~= seq!['d', 'e', 's', 'c', 'r', 'i', 'p', 't', 'i', 'o', 'n']);
            assert("fun_fact"@ =~= seq!['f', 'u', 'n', '_', 'f', 'a', 'c', 't']);
            assert("github"@ =~= seq!['g', 'i', 't', 'h', 'u', 'b']);
            assert("language"@ =~= seq!['l', 'a', 'n', 'g', 'u', 'a', 'g', 'e']);
            assert("tags"@ =~= seq!['t', 'a', 'g', 's']);
        }
        let developer = or_empty(ini_get(config, "Details", "developer"));
        let description = or_empty(ini_get(config, "Details", "description"));
        let fun_fact = or_empty(ini_get(config, "Details", "fun_fact"));
        let github = or_empty(ini_get(config, "Details", "github"));
        let language = or_empty(ini_get(config, "Details", "language"));
        let tag_text = or_empty(ini_get(config, "Details", "tags"));
        let tags = str_split(tag_text.as_str(), ", ");
        DevInfo { developer, description, fun_fact, github, language, tags }
    }
}

/// The bytes `imghdr` checks first: the PNG signature.
pub open spec fn png_magic() -> Seq<u8> {
    seq![0x89u8, 0x50u8, 0x4Eu8, 0x47u8, 0x0Du8, 0x0Au8, 0x1Au8, 0x0Au8]
}

/// The inputs `imghdr::from_bytes` reads without slicing past their end: 12 bytes
/// or more; 8 or more starting with the PNG signature; 10 or more that do not
/// start with `RIFF` or hold `JFIF` or `Exif` at bytes 6 to 9.
pub open spec fn imghdr_reads(b: Seq<u8>) -> bool {
    ||| b.len() >= 12
    ||| b.len() >= 8 && b.subrange(0, 8) == png_magic()
    ||| b.len() >= 10 && (b.subrange(0, 4) != seq![0x52u8, 0x49u8, 0x46u8, 0x46u8]
        || b.subrange(6, 10) == seq![0x4Au8, 0x46u8, 0x49u8, 0x46u8]
        || b.subrange(6, 10) == seq![0x45u8, 0x78u8, 0x69u8, 0x66u8])
}

fn bytes_equal(b: &[u8], start: usize, magic: &[u8]) -> (r: bool)
    requires
        start + magic@.len() <= b@.len(),
    ensures
        r == (b@.subrange(start as int, start + magic@.len()) == magic@),
{
    let n = b.len();
    let mut i: usize = 0;
    while i < magic.len()
        invariant
            i <= magic@.len(),
            n == b@.len(),
            start + magic@.len() <= b@.len(),
            forall|j: int| 0 <= j < i ==> b@[start + j] == magic@[j],
        decreases magic.len() - i,
    {
        if b[start + i] != magic[i] {
            assert(b@.subrange(start as int, start + magic@.len())[i as int] != magic@[i as int]);
            return false;
        }
        i = i + 1;
    }
    assert(b@.subrange(start as int, start + magic@.len()) =~= magic@);
    true
}

/// Whether `imghdr` can read an image's bytes without slicing past their end.
pub fn imghdr_can_read(bytes: &[u8]) -> (r: bool)
    ensures
        r == imghdr_reads(bytes@),
{
    let n = bytes.len();
    let png: [u8; 8] = [0x89u8, 0x50u8, 0x4Eu8, 0x47u8, 0x0Du8, 0x0Au8, 0x1Au8, 0x0Au8];
    let riff: [u8; 4] = [0x52u8, 0x49u8, 0x46u8, 0x46u8];
    let jfif: [u8; 4] = [0x4Au8, 0x46u8, 0x49u8, 0x46u8];
    let exif: [u8; 4] = [0x45u8, 0x78u8, 0x69u8, 0x66u8];
    assert(png@ =~= png_magic());
    assert(riff@ =~= seq![0x52u8, 0x49u8, 0x46u8, 0x46u8]);
    assert(jfif@ =~= seq![0x4Au8, 0x46u8, 0x49u8, 0x46u8]);
    assert(exif@ =~= seq![0x45u8, 0x78u8, 0x69u8, 0x66u8]);
    if n >= 12 {
        return true;
    }
    if n >= 8 && bytes_equal(bytes, 0, png.as_slice()) {
        return true;
    }
    if n >= 10 {
        return !bytes_equal(bytes, 0, riff.as_slice()) || bytes_equal(bytes, 6, jfif.as_slice()) || bytes_equal(bytes, 6, exif.as_slice());
    }
    false
}

/// The position, in `imghdr::Type`, of the image format that `imghdr::from_bytes`
/// recognises in a file's bytes; `None` when it recognises none.
pub uninterp spec fn image_type_index(bytes: Seq<u8>) -> Option<u8>;

/// `imghdr::from_bytes`: the format of an image, as its position among the
/// variants of `imghdr::Type` (GIF, TIFF, Sun raster, XBM, JPEG, BMP, PNG, WebP,
/// OpenEXR, BGP, PBM, PGM, PPM, SGI, RGBE, FLIF, ICO).
/// It slices the bytes it looks at, so it panics on the inputs `imghdr_reads` leaves out.
#[verifier::external_body]
fn image_type_of(bytes: &[u8]) -> (r: Option<u8>)
    requires
        imghdr_reads(bytes@),
    ensures
        r == image_type_index(bytes@),
{
    match imghdr::from_bytes(bytes) {
        Some(t) => Some(t as u8),
        None => None,
    }
}

/// The file extension of an image format, given its position among the formats.
pub open spec fn extension_of(index: Option<u8>) -> Option<Seq<char>> {
    match index {
        Some(0) => Some("gif"@),
        Some(1) => Some("tiff"@),
        Some(2) => Some("ras"@),
        Some(3) => Some("xbm"@),
        Some(4) => Some("jpeg"@),
        Some(5) => Some("bmp"@),
        Some(6) => Some("png"@),
        Some(7) => Some("webp"@),
        Some(8) => Some("exr"@),
        Some(9) => Some("bgp"@),
        Some(10) => Some("pbm"@),
        Some(11) => Some("pgm"@),
        Some(12) => Some("ppm"@),
        Some(13) => Some("rgb"@),
        Some(14) => Some("hdr"@),
        Some(15) => Some("flif"@),
        Some(16) => Some("ico"@),
        _ => None,
    }
}

/// The file extension of the image in `vec`, if `imghdr` recognises its format.
pub fn get_file_extension(vec: &[u8]) -> (r: Option<&'static str>)
    requires
        imghdr_reads(vec@),
    ensures
        match extension_of(image_type_index(vec@)) {
            Some(e) => r matches Some(x) && x@ == e,
            None => r is None,
        },
{
    match image_type_of(vec) {
        Some(0) => Some("gif"),
        Some(1) => Some("tiff"),
        Some(2) => Some("ras"),
        Some(3) => Some("xbm"),
        Some(4) => Some("jpeg"),
        Some(5) => Some("bmp"),
        Some(6) => Some("png"),
        Some(7) => Some("webp"),
        Some(8) => Some("exr"),
        Some(9) => Some("bgp"),
        Some(10) => Some("pbm"),
        Some(11) => Some("pgm"),
        Some(12) => Some("ppm"),
        Some(13) => Some("rgb"),
        Some(14) => Some("hdr"),
        Some(15) => Some("flif"),
        Some(16) => Some("ico"),
        _ => None,
    }
}

/// The character of the standard base64 alphabet for a six-bit value.
pub open spec fn base64_char(v: int) -> char {
    if v < 26 {
        (65 + v) as char
    } else if v < 52 {
        (97 + v - 26) as char
    } else if v < 62 {
        (48 + v - 52) as char
    } else if v == 62 {
        '+'
    } else {
        '/'
    }
}

/// The standard base64 text of some bytes (RFC 4648, with padding): each group of
/// three bytes as four characters of the standard alphabet, and a last group of
/// one or two bytes as two or three characters padded with `=` to four.
pub open spec fn base64_standard(bytes: Seq<u8>) -> Seq<char>
    decreases bytes.len(),
{
    if bytes.len() == 0 {
        Seq::empty()
    } else if bytes.len() == 1 {
        let a = bytes[0] as int;
        seq![base64_char(a / 4), base64_char((a % 4) * 16), '=', '=']
    } else if bytes.len() == 2 {
        let a = bytes[0] as int;
        let b = bytes[1] as int;
        seq![base64_char(a / 4), base64_char((a % 4) * 16 + b / 16), base64_char((b % 16) * 4), '=']
    } else {
        let a = bytes[0] as int;
        let b = bytes[1] as int;
        let c = bytes[2] as int;
        seq![base64_char(a / 4), base64_char((a % 4) * 16 + b / 16), base64_char((b % 16) * 4 + c / 64), base64_char(c % 64)]
            + base64_standard(bytes.subrange(3, bytes.len() as int))
    }
}

/// `BASE64_STANDARD.encode` from the `base64` crate: the standard alphabet with
/// padding, as the crate documents its `STANDARD` engine. It panics when the length
/// of the text would overflow, so such inputs are left out.
#[verifier::external_body]
pub(crate) fn encode_base64(bytes: &[u8]) -> (r: String)
    requires
        (bytes@.len() / 3) * 4 + 4 <= usize::MAX,
    ensures
        r@ == base64_standard(bytes@),
{
    BASE64_STANDARD.encode(bytes)
}

/// The data URL of a logo image: its format's extension and its bytes in base64;
/// `None` when the format is not recognised.
pub fn logo_data_url(bytes: &[u8]) -> (r: Option<String>)
    requires
        (bytes@.len() / 3) * 4 + 4 <= usize::MAX,
        imghdr_reads(bytes@),
    ensures
        match extension_of(image_type_index(bytes@)) {
            Some(e) => r matches Some(u) && u@ == "data:image/"@ + e + ";base64,"@ + remove_all(base64_standard(bytes@), "\r\n"@),
            None => r is None,
        },
{
    proof {
        reveal_strlit("\r\n");
    }
    let encoded = encode_base64(bytes);
    let encoded_string = str_remove_all(encoded.as_str(), "\r\n");
    match get_file_extension(bytes) {
        Some(extension) => {
            let mut url = "data:image/".to_owned();
            url.append(extension);
            url.append(";base64,");
            url.append(encoded_string.as_str());
            Some(url)
        },
        None => None,
    }
}

/// Why a bundle's `.cfg` file could not be read.
#[derive(Debug)]
pub enum RLBotCfgParseError {
    /// The file could not be loaded.
    CfgLoad(Error),
    /// The file names no bundle; the file's path.
    NoName(String),
    /// The file names no existing looks file; the file's path.
    NoLooksConfig(String),
    /// The file names no existing python file; the file's path.
    NoPythonFile(String),
    /// The file names no existing script file; the file's path.
    NoScriptFile(String),
}

/// Whether a `.cfg` file that could not be read as a bundle is reported while a
/// folder is scanned: not when it names no python or script file, as the `.cfg`
/// files of the other kind of bundle and other programs do.
pub fn is_reported_scan_error(e: &RLBotCfgParseError) -> (r: bool)
    ensures
        r == !(e is NoPythonFile || e is NoScriptFile),
{
    match e {
        RLBotCfgParseError::NoPythonFile(_) => false,
        RLBotCfgParseError::NoScriptFile(_) => false,
        _ => true,
    }
}

/// A file named in a `.cfg` file, relative to the file's directory.
pub open spec fn in_directory(dir: Seq<char>, rel: Seq<char>) -> Seq<char> {
    dir + "/"@ + rel
}

fn join_dir(dir: &str, rel: &str) -> (r: String)
    ensures
        r@ == in_directory(dir@, rel@),
{
    let mut r = dir.to_owned();
    r.append("/");
    r.append(rel);
    r
}

/// A boolean read with `Ini::getboolcoerce`, false when absent or unreadable.
pub open spec fn flag_or_false(v: Option<Seq<char>>) -> bool {
    match v {
        Some(t) => match coerced_bool(t) {
            Some(b) => b,
            None => false,
        },
        None => false,
    }
}

/// The lower-cased text that `str::to_lowercase` gives, by Unicode's rules.
pub uninterp spec fn unicode_lower(s: Seq<char>) -> Seq<char>;

/// `str::to_lowercase`.
#[verifier::external_body]
fn to_lowercase(s: &str) -> (r: String)
    ensures
        r@ == unicode_lower(s@),
{
    s.to_lowercase()
}

/// A bot bundle, as read from its `.cfg` file. The skill of the built-in bots,
/// a float, is kept outside this library.
#[derive(Debug)]
pub struct BotConfigBundle {
    pub name: String,
    pub looks_path: String,
    pub path: String,
    pub config_file_name: String,
    pub config_directory: String,
    pub info: Option<DevInfo>,
    pub logo_path: String,
    pub logo: Option<String>,
    pub runnable_type: String,
    pub warn: Option<String>,
    pub image: String,
    pub supports_standalone: bool,
    pub use_virtual_environment: bool,
    pub requirements_file: Option<String>,
    pub requires_tkinter: bool,
    pub missing_python_packages: Option<Vec<String>>,
    pub python_path: String,
}

impl BotConfigBundle {
    /// The empty bundle.
    pub open spec fn is_empty_bundle(b: BotConfigBundle) -> bool {
        &&& b.name@.len() == 0 && b.looks_path@.len() == 0 && b.path@.len() == 0
        &&& b.config_file_name@.len() == 0 && b.config_directory@.len() == 0
        &&& b.info is None && b.logo_path@.len() == 0 && b.logo is None
        &&& b.runnable_type@.len() == 0 && b.warn is None && b.image@.len() == 0
        &&& !b.supports_standalone && !b.use_virtual_environment && b.requirements_file is None
        &&& !b.requires_tkinter && b.missing_python_packages is None && b.python_path@.len() == 0
    }

    /// The bundle that stands for the human player.
    pub fn new_human() -> (r: Self)
        ensures
            r.name@ == "Human"@,
            r.runnable_type@ == "human"@,
            r.image@ == "imgs/human.png"@,
            r.looks_path@.len() == 0 && r.path@.len() == 0,
            r.config_file_name@.len() == 0 && r.config_directory@.len() == 0,
            r.info is None && r.logo_path@.len() == 0 && r.logo is None && r.warn is None,
            !r.supports_standalone && !r.use_virtual_environment && r.requirements_file is None,
            !r.requires_tkinter && r.missing_python_packages is None && r.python_path@.len() == 0,
    {
        BotConfigBundle { name: "Human".to_owned(), runnable_type: "human".to_owned(), image: "imgs/human.png".to_owned(), ..Self::default() }
    }

    /// A file named under a key of the `Locations` section, within the file's directory.
    pub open spec fn named_file(e: Map<(Seq<char>, Seq<char>), Option<Seq<char>>>, key: Seq<char>, dir: Seq<char>) -> Option<Seq<char>> {
        match ini_value(e, "Locations"@, key) {
            Some(rel) => Some(in_directory(dir, rel)),
            None => None,
        }
    }

    /// The python file a bot's `.cfg` file names, within the file's directory.
    pub fn python_file_of(conf: &Ini, config_directory: &str) -> (r: Option<String>)
        ensures
            ini_is_plain(*conf) ==> opt_view(r) == Self::named_file(ini_entries(*conf), "python_file"@, config_directory@),
    {
        proof { lemma_locations_keys(); }
        match ini_get(conf, "Locations", "python_file") {
            Some(rel) => Some(join_dir(config_directory, rel.as_str())),
            None => None,
        }
    }

    /// The looks file a bot's `.cfg` file names, within the file's directory.
    pub fn looks_file_of(conf: &Ini, config_directory: &str) -> (r: Option<String>)
        ensures
            ini_is_plain(*conf) ==> opt_view(r) == Self::named_file(ini_entries(*conf), "looks_config"@, config_directory@),
    {
        proof { lemma_locations_keys(); }
        match ini_get(conf, "Locations", "looks_config") {
            Some(rel) => Some(join_dir(config_directory, rel.as_str())),
            None => None,
        }
    }

    /// Reads a bot bundle from its loaded `.cfg` file, given the file's path, name
    /// and directory, and whether the python and looks files it names exist.
    pub fn minimal_from_conf(
        conf: &Ini,
        config_path: String,
        config_file_name: String,
        config_directory: String,
        python_file_exists: bool,
        looks_file_exists: bool,
    ) -> (r: Result<Self, RLBotCfgParseError>)
        ensures
            ini_is_plain(*conf) ==> {
                let e = ini_entries(*conf);
                let dir = config_directory@;
                if Self::named_file(e, "python_file"@, dir) is None || !python_file_exists {
                    r matches Err(RLBotCfgParseError::NoPythonFile(p)) && p == config_path
                } else if ini_value(e, "Locations"@, "name"@) is None {
                    r matches Err(RLBotCfgParseError::NoName(p)) && p == config_path
                } else if Self::named_file(e, "looks_config"@, dir) is None || !looks_file_exists {
                    r matches Err(RLBotCfgParseError::NoLooksConfig(p)) && p == config_path
                } else {
                    r matches Ok(b) && {
                        &&& Some(b.name@) == ini_value(e, "Locations"@, "name"@)
                        &&& Some(b.python_path@) == Self::named_file(e, "python_file"@, dir)
                        &&& Some(b.looks_path@) == Self::named_file(e, "looks_config"@, dir)
                        &&& b.path == config_path
                        &&& b.config_file_name == config_file_name
                        &&& b.config_directory == config_directory
                        &&& b.logo_path@ == in_directory(dir, match ini_value(e, "Locations"@, "logo_file"@) {
                            Some(l) => l,
                            None => "logo.png"@,
                        })
                        &&& b.logo is None && b.warn is None && b.missing_python_packages is None
                        &&& b.runnable_type@ == "rlbot"@
                        &&& b.image@ == "imgs/rlbot.png"@
                        &&& opt_view(b.requirements_file) == Self::named_file(e, "requirements_file"@, dir)
                        &&& b.supports_standalone == flag_or_false(ini_value(e, "Locations"@, "supports_standalone"@))
                        &&& b.use_virtual_environment == flag_or_false(ini_value(e, "Locations"@, "use_virtual_environment"@))
                        &&& b.requires_tkinter == flag_or_false(ini_value(e, "Locations"@, "requires_tkinter"@))
                        &&& b.info matches Some(info) && info.developer@ == DevInfo::detail(e, "developer"@)
                            && info.language@ == DevInfo::detail(e, "language"@)
                            && views(info.tags@) == split_seq(DevInfo::detail(e, "tags"@), ", "@)
                    }
                }
            },
    {
        proof { lemma_locations_keys(); }
        let python_path = match Self::python_file_of(conf, config_directory.as_str()) {
            Some(p) => p,
            None => {
                return Err(RLBotCfgParseError::NoPythonFile(config_path));
            },
        };
        if !python_file_exists {
            return Err(RLBotCfgParseError::NoPythonFile(config_path));
        }
        let name = match ini_get(conf, "Locations", "name") {
            Some(n) => n,
            None => {
                return Err(RLBotCfgParseError::NoName(config_path));
            },
        };
        let looks_path = match Self::looks_file_of(conf, config_directory.as_str()) {
            Some(p) => p,
            None => {
                return Err(RLBotCfgParseError::NoLooksConfig(config_path));
            },
        };
        let supports_standalone = match ini_getboolcoerce(conf, "Locations", "supports_standalone") {
            Ok(Some(b)) => b,
            _ => false,
        };
        let use_virtual_environment = match ini_getboolcoerce(conf, "Locations", "use_virtual_environment") {
            Ok(Some(b)) => b,
            _ => false,
        };
        let requirements_file = match ini_get(conf, "Locations", "requirements_file") {
            Some(rel) => Some(join_dir(config_directory.as_str(), rel.as_str())),
            None => None,
        };
        let requires_tkinter = match ini_getboolcoerce(conf, "Locations", "requires_tkinter") {
            Ok(Some(b)) => b,
            _ => false,
        };
        if !looks_file_exists {
            return Err(RLBotCfgParseError::NoLooksConfig(config_path));
        }
        let relative_logo_path = match ini_get(conf, "Locations", "logo_file") {
            Some(l) => l,
            None => "logo.png".to_owned(),
        };
        let logo_path = join_dir(config_directory.as_str(), relative_logo_path.as_str());
        let info = Some(DevInfo::from_config(conf));
        Ok(BotConfigBundle {
            name,
            looks_path,
            path: config_path,
            config_file_name,
            config_directory,
            info,
            logo_path,
            logo: None,
            runnable_type: "rlbot".to_owned(),
            warn: None,
            image: "imgs/rlbot.png".to_owned(),
            supports_standalone,
            use_virtual_environment,
            requirements_file,
            requires_tkinter,
            missing_python_packages: None,
            python_path,
        })
    }

    /// The name and path of a bot whose `.cfg` file names its looks and python
    /// files, given whether they exist.
    pub fn name_from_conf(
        conf: &Ini,
        config_path: String,
        config_directory: &str,
        looks_file_exists: bool,
        python_file_exists: bool,
    ) -> (r: Result<(String, String), RLBotCfgParseError>)
        ensures
            ini_is_plain(*conf) ==> {
                let e = ini_entries(*conf);
                match ini_value(e, "Locations"@, "name"@) {
                    None => r matches Err(RLBotCfgParseError::NoName(p)) && p == config_path,
                    Some(name) => if Self::named_file(e, "looks_config"@, config_directory@) is None || !looks_file_exists {
                        r matches Err(RLBotCfgParseError::NoLooksConfig(p)) && p == config_path
                    } else if Self::named_file(e, "python_file"@, config_directory@) is None || !python_file_exists {
                        r matches Err(RLBotCfgParseError::NoPythonFile(p)) && p == config_path
                    } else {
                        r matches Ok((n, p)) && n@ == name && p == config_path
                    },
                }
            },
    {
        proof { lemma_locations_keys(); }
        let name = match ini_get(conf, "Locations", "name") {
            Some(n) => n,
            None => {
                return Err(RLBotCfgParseError::NoName(config_path));
            },
        };
        let valid_looks = match Self::looks_file_of(conf, config_directory) {
            Some(_) => looks_file_exists,
            None => false,
        };
        if !valid_looks {
            return Err(RLBotCfgParseError::NoLooksConfig(config_path));
        }
        let valid_path = match Self::python_file_of(conf, config_directory) {
            Some(_) => python_file_exists,
            None => false,
        };
        if !valid_path {
            return Err(RLBotCfgParseError::NoPythonFile(config_path));
        }
        Ok((name, config_path))
    }

    /// The name of the bundle's `.cfg` file.
    pub fn get_config_file_name(&self) -> (r: &str)
        ensures
            r@ == self.config_file_name@,
    {
        self.config_file_name.as_str()
    }

    /// Whether the bot runs in its own virtual environment: when it supports
    /// running standalone and asks for one.
    pub fn use_virtual_environment(&self) -> (r: bool)
        ensures
            r == (self.supports_standalone && self.use_virtual_environment),
    {
        self.supports_standalone && self.use_virtual_environment
    }

    /// Whether RLBot runs the bot.
    pub fn is_rlbot_controlled(&self) -> (r: bool)
        ensures
            r == (self.runnable_type@ == "rlbot"@),
    {
        str_eq(self.runnable_type.as_str(), "rlbot")
    }

    /// Whether the bot may need python packages: when its language, lower-cased,
    /// mentions python.
    pub fn may_require_python_packages(&self) -> (r: bool)
        ensures
            r == match self.info {
                Some(info) => seq_contains(unicode_lower(info.language@), "python"@),
                None => false,
            },
    {
        match &self.info {
            Some(info) => {
                let lower = to_lowercase(info.language.as_str());
                str_contains(lower.as_str(), "python")
            },
            None => false,
        }
    }
}

impl Default for BotConfigBundle {
    fn default() -> (r: Self)
        ensures
            Self::is_empty_bundle(r),
    {
        BotConfigBundle {
            name: String::new(),
            looks_path: String::new(),
            path: String::new(),
            config_file_name: String::new(),
            config_directory: String::new(),
            info: None,
            logo_path: String::new(),
            logo: None,
            runnable_type: String::new(),
            warn: None,
            image: String::new(),
            supports_standalone: false,
            use_virtual_environment: false,
            requirements_file: None,
            requires_tkinter: false,
            missing_python_packages: None,
            python_path: String::new(),
        }
    }
}

proof fn lemma_locations_keys()
    ensures
        is_ascii_seq("Locations"@),
        is_ascii_seq("python_file"@),
        is_ascii_seq("looks_config"@),
        is_ascii_seq("name"@),
        is_ascii_seq("logo_file"@),
        is_ascii_seq("requirements_file"@),
        is_ascii_seq("supports_standalone"@),
        is_ascii_seq("use_virtual_environment"@),
        is_ascii_seq("requires_tkinter"@),
{
    reveal_strlit("Locations");
    reveal_strlit("python_file");
    reveal_strlit("looks_config");
    reveal_strlit("name");
    reveal_strlit("logo_file");
    reveal_strlit("requirements_file");
    reveal_strlit("supports_standalone");
    reveal_strlit("use_virtual_environment");
    reveal_strlit("requires_tkinter");
    assert("Locations"@ =~= seq!['L', 'o', 'c', 'a', 't', 'i', 'o', 'n', 's']);
    assert("python_file"@ =~= seq!['p', 'y', 't', 'h', 'o', 'n', '_', 'f', 'i', 'l', 'e']);
    assert("looks_config"@ =~= seq!['l', 'o', 'o', 'k', 's', '_', 'c', 'o', 'n', 'f', 'i', 'g']);
    assert("name"@ =~= seq!['n', 'a', 'm', 'e']);
    assert("logo_file"@ =~= seq!['l', 'o', 'g', 'o', '_', 'f', 'i', 'l', 'e']);
    assert("requirements_file"@ =~= seq!['r', 'e', 'q', 'u', 'i', 'r', 'e', 'm', 'e', 'n', 't', 's', '_', 'f', 'i', 'l', 'e']);
    assert("supports_standalone"@ =~= seq!['s', 'u', 'p', 'p', 'o', 'r', 't', 's', '_', 's', 't', 'a', 'n', 'd', 'a', 'l', 'o', 'n', 'e']);
    assert("use_virtual_environment"@ =~= seq!['u', 's', 'e', '_', 'v', 'i', 'r', 't', 'u', 'a', 'l', '_', 'e', 'n', 'v', 'i', 'r', 'o', 'n', 'm', 'e', 'n', 't']);
    assert("requires_tkinter"@ =~= seq!['r', 'e', 'q', 'u', 'i', 'r', 'e', 's', '_', 't', 'k', 'i', 'n', 't', 'e', 'r']);
}

/// Something that can be stripped of what was loaded for display only before it is saved.
pub trait Clean: Sized {
    /// `self` is `orig` without what was loaded for display only.
    spec fn is_cleaned_of(&self, orig: &Self) -> bool;

    /// The value without what was loaded for display only.
    fn cleaned(&self) -> (r: Self)
        ensures
            r.is_cleaned_of(self),
    ;
}

/// A script bundle, as read from its `.cfg` file.
#[derive(Debug)]
pub struct ScriptConfigBundle {
    pub name: String,
    pub runnable_type: String,
    pub warn: Option<String>,
    pub image: String,
    pub path: String,
    pub info: Option<DevInfo>,
    pub logo: Option<String>,
    pub logo_path: Option<String>,
    pub missing_python_packages: Option<Vec<String>>,
    pub config_file_name: String,
    pub config_directory: String,
    pub script_file: String,
    pub use_virtual_environment: bool,
    pub requirements_file: Option<String>,
    pub requires_tkinter: bool,
}

impl ScriptConfigBundle {
    /// The script file a script's `.cfg` file names, within the file's directory.
    pub open spec fn named_script_file(e: Map<(Seq<char>, Seq<char>), Option<Seq<char>>>, dir: Seq<char>) -> Option<Seq<char>> {
        match ini_value(e, "Locations"@, "script_file"@) {
            Some(rel) => Some(in_directory(dir, rel)),
            None => None,
        }
    }

    /// The script file a script's `.cfg` file names, within the file's directory.
    pub fn script_file_of(conf: &Ini, config_directory: &str) -> (r: Option<String>)
        ensures
            ini_is_plain(*conf) ==> opt_view(r) == Self::named_script_file(ini_entries(*conf), config_directory@),
    {
        proof {
            reveal_strlit("Locations");
            reveal_strlit("script_file");
            assert("Locations"@ =~= seq!['L', 'o', 'c', 'a', 't', 'i', 'o', 'n', 's']);
            assert("script_file"@ =~= seq!['s', 'c', 'r', 'i', 'p', 't', '_', 'f', 'i', 'l', 'e']);
        }
        match ini_get(conf, "Locations", "script_file") {
            Some(rel) => Some(join_dir(config_directory, rel.as_str())),
            None => None,
        }
    }

    /// Reads a script bundle from its loaded `.cfg` file, given the file's path, name
    /// and directory, and whether the script file it names exists.
    pub fn from_conf(
        conf: &Ini,
        config_path: String,
        config_file_name: String,
        config_directory: String,
        script_file_exists: bool,
    ) -> (r: Result<Self, RLBotCfgParseError>)
        ensures
            ini_is_plain(*conf) ==> {
                let e = ini_entries(*conf);
                match Self::named_script_file(e, config_directory@) {
                    None => r matches Err(RLBotCfgParseError::NoScriptFile(p)) && p == config_path,
                    Some(script) => if !script_file_exists {
                        r matches Err(RLBotCfgParseError::NoScriptFile(p)) && p == config_path
                    } else {
                        match ini_value(e, "Locations"@, "name"@) {
                            None => r matches Err(RLBotCfgParseError::NoName(p)) && p == config_path,
                            Some(name) => r matches Ok(b) && {
                                &&& b.name@ == name
                                &&& b.runnable_type@ == "script"@
                                &&& b.warn is None
                                &&& b.image@ == "imgs/rlbot.png"@
                                &&& b.path == config_path
                                &&& b.logo is None
                                &&& opt_view(b.logo_path) == Some(in_directory(config_directory@,
                                    match ini_value(e, "Locations"@, "logo_file"@) {
                                        Some(l) => l,
                                        None => "logo.png"@,
                                    }))
                                &&& b.missing_python_packages is None
                                &&& b.config_file_name == config_file_name
                                &&& b.config_directory == config_directory
                                &&& b.script_file@ == script
                                &&& opt_view(b.requirements_file) == match ini_value(e, "Locations"@, "requirements_file"@) {
                                    Some(rel) => Some(in_directory(config_directory@, rel)),
                                    None => None,
                                }
                                &&& b.use_virtual_environment == flag_or_false(ini_value(e, "Locations"@, "use_virtual_environment"@))
                                &&& b.requires_tkinter == flag_or_false(ini_value(e, "Locations"@, "requires_tkinter"@))
                                &&& b.info matches Some(info) && info.developer@ == DevInfo::detail(e, "developer"@)
                                    && info.description@ == DevInfo::detail(e, "description"@)
                                    && info.fun_fact@ == DevInfo::detail(e, "fun_fact"@)
                                    && info.github@ == DevInfo::detail(e, "github"@)
                                    && info.language@ == DevInfo::detail(e, "language"@)
                                    && views(info.tags@) == split_seq(DevInfo::detail(e, "tags"@), ", "@)
                            },
                        }
                    },
                }
            },
    {
        proof {
            reveal_strlit("Locations");
            reveal_strlit("name");
            reveal_strlit("use_virtual_environment");
            reveal_strlit("requirements_file");
            reveal_strlit("requires_tkinter");
            reveal_strlit("logo_file");
            assert("Locations"@ =~= seq!['L', 'o', 'c', 'a', 't', 'i', 'o', 'n', 's']);
            assert("name"@ =~= seq!['n', 'a', 'm', 'e']);
            assert("use_virtual_environment"@ =~= seq!['u', 's', 'e', '_', 'v', 'i', 'r', 't', 'u', 'a', 'l', '_', 'e', 'n', 'v', 'i', 'r', 'o', 'n', 'm', 'e', 'n', 't']);
            assert("requirements_file"@ =~= seq!['r', 'e', 'q', 'u', 'i', 'r', 'e', 'm', 'e', 'n', 't', 's', '_', 'f', 'i', 'l', 'e']);
            assert("requires_tkinter"@ =~= seq!['r', 'e', 'q', 'u', 'i', 'r', 'e', 's', '_', 't', 'k', 'i', 'n', 't', 'e', 'r']);
            assert("logo_file"@ =~= seq!['l', 'o', 'g', 'o', '_', 'f', 'i', 'l', 'e']);
        }
        let script_file = match Self::script_file_of(conf, config_directory.as_str()) {
            Some(f) => f,
            None => {
                return Err(RLBotCfgParseError::NoScriptFile(config_path));
            },
        };
        if !script_file_exists {
            return Err(RLBotCfgParseError::NoScriptFile(config_path));
        }
        let name = match ini_get(conf, "Locations", "name") {
            Some(n) => n,
            None => {
                return Err(RLBotCfgParseError::NoName(config_path));
            },
        };
        let use_virtual_environment = match ini_getboolcoerce(conf, "Locations", "use_virtual_environment") {
            Ok(Some(b)) => b,
            _ => false,
        };
        let requirements_file = match ini_get(conf, "Locations", "requirements_file") {
            Some(rel) => Some(join_dir(config_directory.as_str(), rel.as_str())),
            None => None,
        };
        let requires_tkinter = match ini_getboolcoerce(conf, "Locations", "requires_tkinter") {
            Ok(Some(b)) => b,
            _ => false,
        };
        let relative_logo_path = match ini_get(conf, "Locations", "logo_file") {
            Some(l) => l,
            None => "logo.png".to_owned(),
        };
        let logo_path = Some(join_dir(config_directory.as_str(), relative_logo_path.as_str()));
        let info = Some(DevInfo::from_config(conf));
        Ok(ScriptConfigBundle {
            name,
            runnable_type: "script".to_owned(),
            warn: None,
            image: "imgs/rlbot.png".to_owned(),
            path: config_path,
            info,
            logo: None,
            logo_path,
            missing_python_packages: None,
            config_file_name,
            config_directory,
            script_file,
            use_virtual_environment,
            requirements_file,
            requires_tkinter,
        })
    }

    /// The name of the bundle's `.cfg` file.
    pub fn get_config_file_name(&self) -> (r: &str)
        ensures
            r@ == self.config_file_name@,
    {
        self.config_file_name.as_str()
    }

    /// Whether the script runs in its own virtual environment.
    pub fn use_virtual_environment(&self) -> (r: bool)
        ensures
            r == self.use_virtual_environment,
    {
        self.use_virtual_environment
    }

    /// Whether RLBot runs the script: it always does.
    pub fn is_rlbot_controlled(&self) -> (r: bool)
        ensures
            r,
    {
        true
    }

    /// Whether the script may need python packages: scripts are python, so it may.
    pub fn may_require_python_packages(&self) -> (r: bool)
        ensures
            r,
    {
        true
    }
}

impl Clean for ScriptConfigBundle {
    /// The bundle without its loaded logo, its warning and its list of missing packages.
    open spec fn is_cleaned_of(&self, orig: &Self) -> bool {
        &&& self.logo is None
        &&& self.warn is None
        &&& self.missing_python_packages is None
        &&& self.name == orig.name
        &&& self.runnable_type == orig.runnable_type
        &&& self.image == orig.image
        &&& self.path == orig.path
        &&& (match (self.info, orig.info) {
            (Some(a), Some(b)) => DevInfo::same_info(a, b),
            (None, None) => true,
            _ => false,
        })
        &&& self.logo_path == orig.logo_path
        &&& self.config_file_name == orig.config_file_name
        &&& self.config_directory == orig.config_directory
        &&& self.script_file == orig.script_file
        &&& self.use_virtual_environment == orig.use_virtual_environment
        &&& self.requirements_file == orig.requirements_file
        &&& self.requires_tkinter == orig.requires_tkinter
    }

    fn cleaned(&self) -> (r: Self) {
        let info = match &self.info {
            Some(i) => Some(i.clone()),
            None => None,
        };
        let r = ScriptConfigBundle {
            name: self.name.clone(),
            runnable_type: self.runnable_type.clone(),
            warn: None,
            image: self.image.clone(),
            path: self.path.clone(),
            info,
            logo: None,
            logo_path: clone_opt_string(&self.logo_path),
            missing_python_packages: None,
            config_file_name: self.config_file_name.clone(),
            config_directory: self.config_directory.clone(),
            script_file: self.script_file.clone(),
            use_virtual_environment: self.use_virtual_environment,
            requirements_file: clone_opt_string(&self.requirements_file),
            requires_tkinter: self.requires_tkinter,
        };
        r
    }
}

} // verus!
