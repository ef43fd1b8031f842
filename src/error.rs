//! Errors: a native code or a local code, with an operation tag and a detail line.

use vstd::prelude::*;
use crate::media::{AVERROR_EOF, LOCAL_ERROR};

verus! {

/// Detail line of an error: the literal `AV_EOF` for the end-of-stream code,
/// else `<tag>: <native message>`.
pub open spec fn detail_of(code: i32, desc: Seq<char>, native: Seq<char>) -> Seq<char> {
    if code == AVERROR_EOF {
        "AV_EOF"@
    } else {
        desc + ": "@ + native
    }
}

/// An error: the code, the tag of the operation that failed, and the detail line.
#[derive(Debug)]
pub struct FFmpegError {
    pub code: i32,
    pub desc: String,
    pub detail: String,
}

impl FFmpegError {
    /// The error for native code `code` raised by operation `desc`; `native` is
    /// the native library's description of the code.
    pub fn new(code: i32, desc: &str, native: &str) -> (r: Self)
        ensures
            r.code == code,
            r.desc@ == desc@,
            r.detail@ == detail_of(code, desc@, native@),
    {
        let tag = String::from_str(desc);
        let detail: String;
        if code == AVERROR_EOF {
            detail = String::from_str("AV_EOF");
        } else {
            let with_sep = String::from_str(desc).concat(": ");
            detail = with_sep.concat(native);
        }
        FFmpegError { code, desc: tag, detail }
    }

    /// An error raised by this library itself (a kind mismatch, an invalid
    /// argument): the local code and `desc` as its detail.
    pub fn local(desc: &str) -> (r: Self)
        ensures
            r.code == LOCAL_ERROR,
            r.desc@ == desc@,
            r.detail@ == desc@,
    {
        FFmpegError { code: LOCAL_ERROR, desc: String::from_str(desc), detail: String::from_str(desc) }
    }

    /// Whether this is the end-of-stream error.
    pub fn is_eof(&self) -> (r: bool)
        ensures
            r == (self.code == AVERROR_EOF),
    {
        self.code == AVERROR_EOF
    }

    pub fn code(&self) -> (r: i32)
        ensures
            r == self.code,
    {
        self.code
    }

    /// The detail line.
    pub fn description(&self) -> (r: &str)
        ensures
            r@ == self.detail@,
    {
        self.detail.as_str()
    }
}

} // verus!
