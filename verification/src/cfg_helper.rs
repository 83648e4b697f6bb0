//! Errors met when a `.cfg` file is loaded or saved.

use vstd::prelude::*;
use configparser::ini::Ini;
use crate::config_store::{ini_entries, ini_from_text, ini_is_plain, ini_parsed};

verus! {

#[verifier::external_type_specification]
#[verifier::external_body]
pub struct ExIoError(std::io::Error);

/// Why a `.cfg` file could not be loaded or saved.
#[derive(Debug)]
pub enum Error {
    /// The file could not be parsed; the parser's message.
    Load(String),
    /// Reading or writing the file failed.
    Io(std::io::Error),
}

/// Parses the text of a `.cfg` file, continuation lines on and `;` starting a
/// comment: the document it describes, or `Error::Load` with the parser's message
/// when the parser refuses it.
pub fn load_cfg_text(text: String) -> (r: Result<Ini, Error>)
    ensures
        r is Ok <==> ini_parsed(text@, true) is Some,
        r matches Ok(c) ==> ini_is_plain(c) && ini_parsed(text@, true) == Some(ini_entries(c)),
        r matches Err(e) ==> e is Load,
{
    match ini_from_text(text, true) {
        Ok(c) => Ok(c),
        Err(msg) => Err(Error::Load(msg)),
    }
}

} // verus!
