//! Sharing the GUI's log: what is uploaded, with the user's home folder hidden,
//! and the address the upload is found at. Reading the log and uploading it is
//! left to the caller.

use vstd::prelude::*;
use crate::text::{replace_all, str_replace_all};

verus! {

/// The log as uploaded, with each mention of the user's home folder replaced by the
/// way the platform abbreviates it; `None` when the log is empty, which is not
/// uploaded.
pub fn log_for_upload(contents: &str, home_folder: &str, home_key: &str) -> (r: Option<String>)
    ensures
        contents@.len() == 0 ==> r is None,
        contents@.len() > 0 ==> (r matches Some(t) && t@ == replace_all(contents@, home_folder@, home_key@)),
{
    if contents.unicode_len() == 0 {
        None
    } else {
        Some(str_replace_all(contents, home_folder, home_key))
    }
}

/// The address of an uploaded log, by the key the paste service gave it.
pub fn uploaded_log_url(key: &str) -> (r: String)
    ensures
        r@ == "https://hastebin.com/"@ + key@,
{
    let mut r = "https://hastebin.com/".to_owned();
    r.append(key);
    r
}

} // verus!
