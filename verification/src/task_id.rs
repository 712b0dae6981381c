//! Task identifiers: derived from the destination path unless the caller
//! names the task.

use vstd::prelude::*;
use vstd::string::StringSliceAdditionalSpecFns;

verus! {

/// The standard, padded base64 text of a byte string, as the `base64` crate
/// writes it.
pub uninterp spec fn base64_standard_encoding(bytes: Seq<u8>) -> Seq<char>;

/// The length of the padded base64 text of `len` bytes.
pub open spec fn base64_padded_len(len: nat) -> nat {
    (len / 3) * 4 + if len % 3 > 0 {
        4nat
    } else {
        0nat
    }
}

/// Calls `base64::Engine::encode` on `base64::engine::general_purpose::STANDARD`.
///
/// Trusted: the text that comes back is the standard padded encoding of
/// `bytes`, a function of the bytes alone. The call panics where the length
/// of the text does not fit in `usize`, so such inputs are left out.
#[verifier::external_body]
fn encode_standard(bytes: &[u8]) -> (text: String)
    requires
        base64_padded_len(bytes@.len()) <= usize::MAX,
    ensures
        text@ == base64_standard_encoding(bytes@),
{
    base64::Engine::encode(&base64::engine::general_purpose::STANDARD, bytes)
}

/// Whether an identifier can be derived from `file_path`: it can unless the
/// path is so long that the text of the identifier would not fit in memory.
pub fn can_derive_id(file_path: &str) -> (possible: bool)
    ensures
        possible == (base64_padded_len(file_path.spec_bytes().len()) <= usize::MAX),
{
    let len = file_path.as_bytes().len();
    let tail: usize = if len % 3 > 0 {
        4
    } else {
        0
    };
    let groups = len / 3;
    let limit = (usize::MAX - tail) / 4;
    proof {
        assert(base64_padded_len(file_path.spec_bytes().len()) == groups * 4 + tail);
        assert(4 * limit <= usize::MAX - tail < 4 * limit + 4);
    }
    groups <= limit
}

/// The identifier of the task that writes to `file_path`.
///
/// Two requests for the same destination get the same identifier and are
/// the same task.
pub fn derive_id(file_path: &str) -> (id: String)
    requires
        base64_padded_len(file_path.spec_bytes().len()) <= usize::MAX,
    ensures
        id@ == base64_standard_encoding(file_path.spec_bytes()),
{
    encode_standard(file_path.as_bytes())
}

/// The identifier under which a start request runs: the one that the caller
/// names, else the one derived from the destination.
pub fn resolve_id(id: Option<String>, file_path: &str) -> (resolved: String)
    requires
        id.is_none() ==> base64_padded_len(file_path.spec_bytes().len()) <= usize::MAX,
    ensures
        resolved@ == match id {
            Some(named) => named@,
            None => base64_standard_encoding(file_path.spec_bytes()),
        },
{
    match id {
        Some(named) => named,
        None => derive_id(file_path),
    }
}

} // verus!
