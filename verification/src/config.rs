//! Fixed locations the downloader works with.

use vstd::prelude::*;
use vstd::string::StringExecFns;

verus! {

/// Where downloader binaries live and where downloaded audio is put.
pub struct Config {
    pub ytdl_libs: String,
    pub ytdl_output: String,
}

impl Config {
    pub fn new() -> (r: Self)
        ensures
            r.ytdl_libs@ == "libs"@,
            r.ytdl_output@ == "output"@,
    {
        Config {
            ytdl_libs: String::from_str("libs"),
            ytdl_output: String::from_str("output"),
        }
    }
}

} // verus!
