use vstd::prelude::*;
use vstd::slice::slice_subrange;

use crate::cookie::Cookie;

verus! {

/// Length of the magic header that precedes the compressed session payload.
pub const SESSION_HEADER_LEN: usize = 8;

/// The cookies that a session file carries; its other fields are ignored.
#[derive(Clone, Debug)]
pub struct MozSession {
    pub cookies: Vec<Cookie>,
}

/// Why a session file's payload could not be recovered.
#[derive(Clone, Copy, Debug, PartialEq, Eq, Structural)]
pub enum SessionError {
    /// The file is shorter than its header.
    MissingHeader,
    /// The bytes after the header are not one LZ4 block with a size prefix.
    Decompress,
}

/// What an LZ4 block with a 4-byte little-endian size prefix decompresses
/// to, if it is one.
pub uninterp spec fn lz4_block_decoded(b: Seq<u8>) -> Option<Seq<u8>>;

/// Relies on `lz4::block::decompress` with no size hint: it reads the size
/// prefix, decompresses the block after it, and fails on a buffer shorter
/// than the prefix or on a corrupt block.
#[verifier::external_body]
fn lz4_decompress(b: &[u8]) -> (r: Option<Vec<u8>>)
    ensures
        r matches Some(v) ==> lz4_block_decoded(b@) == Some(v@),
        r is None ==> lz4_block_decoded(b@) is None,
        b@.len() < 4 ==> r is None,
{
    lz4::block::decompress(b, None).ok()
}

/// The session's JSON text: the file with its header dropped, unchecked,
/// and the rest decompressed as one LZ4 block.
pub fn session_payload(file: &[u8]) -> (r: Result<Vec<u8>, SessionError>)
    ensures
        file@.len() < SESSION_HEADER_LEN ==> r == Err::<Vec<u8>, SessionError>(
            SessionError::MissingHeader,
        ),
        file@.len() >= SESSION_HEADER_LEN ==> match lz4_block_decoded(
            file@.subrange(SESSION_HEADER_LEN as int, file@.len() as int),
        ) {
            Some(p) => r matches Ok(v) && v@ == p,
            None => r == Err::<Vec<u8>, SessionError>(SessionError::Decompress),
        },
{
    if file.len() < SESSION_HEADER_LEN {
        return Err(SessionError::MissingHeader);
    }
    let body = slice_subrange(file, SESSION_HEADER_LEN, file.len());
    match lz4_decompress(body) {
        Some(v) => Ok(v),
        None => Err(SessionError::Decompress),
    }
}

impl MozSession {
    /// The session's cookies, in file order.
    pub fn into_cookies(self) -> (r: Vec<Cookie>)
        ensures
            r@ == self.cookies@,
    {
        self.cookies
    }
}

} // verus!
