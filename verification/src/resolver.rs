//! Locating the driver module on disk.
//!
//! The module is loaded first by its bare file name, relying on the
//! platform's default search order, and on failure from a fallback path:
//! the platform's system directory, the vendor's subdirectory, then the
//! file name. The host performs the loads and the system-directory query;
//! this module holds the verified text handling around them: truncating the
//! queried directory buffer at its first null terminator (failing cleanly
//! when no terminator fits the buffer), and building the fallback path.

use vstd::prelude::*;

verus! {

/// The driver module's file name, `OmniMIDI.dll`, as bytes.
pub open spec fn module_file_name_bytes() -> Seq<u8> {
    seq![
        79u8, 109u8, 110u8, 105u8, 77u8, 73u8, 68u8, 73u8, 46u8, 100u8, 108u8, 108u8,
    ]
}

/// The vendor subdirectory under the system directory, `OmniMIDI`, as bytes.
pub open spec fn vendor_directory_bytes() -> Seq<u8> {
    seq![79u8, 109u8, 110u8, 105u8, 77u8, 73u8, 68u8, 73u8]
}

/// What the fallback path appends to the system directory:
/// `\OmniMIDI\OmniMIDI.dll`.
pub open spec fn fallback_suffix() -> Seq<u8> {
    seq![92u8] + vendor_directory_bytes() + seq![92u8] + module_file_name_bytes()
}

/// The driver module's file name, for the bare-name load attempt.
pub fn module_file_name() -> (r: Vec<u8>)
    ensures
        r@ == module_file_name_bytes(),
{
    let mut r: Vec<u8> = Vec::new();
    r.push(79u8);
    r.push(109u8);
    r.push(110u8);
    r.push(105u8);
    r.push(77u8);
    r.push(73u8);
    r.push(68u8);
    r.push(73u8);
    r.push(46u8);
    r.push(100u8);
    r.push(108u8);
    r.push(108u8);
    proof {
        assert(r@ =~= module_file_name_bytes());
    }
    r
}

/// The system directory as the platform reported it: the bytes of `buffer`
/// before its first null terminator. Returns `None` when no terminator is
/// present, that is, when the reported directory did not fit the buffer; the
/// caller must surface that as an error rather than use a truncated path.
pub fn directory_from_buffer(buffer: &Vec<u8>) -> (r: Option<Vec<u8>>)
    ensures
        (match r {
            Some(directory) => {
                &&& directory@.len() < buffer@.len()
                &&& directory@ == buffer@.take(directory@.len() as int)
                &&& buffer@[directory@.len() as int] == 0
                &&& forall|j: int| 0 <= j < directory@.len() ==> buffer@[j] != 0
            },
            None => forall|j: int| 0 <= j < buffer@.len() ==> buffer@[j] != 0,
        }),
{
    let n = buffer.len();
    let mut i: usize = 0;
    while i < n
        invariant
            n == buffer@.len(),
            i <= n,
            forall|j: int| 0 <= j < i ==> buffer@[j] != 0,
        decreases n - i,
    {
        if buffer[i] == 0 {
            let mut directory: Vec<u8> = Vec::new();
            let mut k: usize = 0;
            while k < i
                invariant
                    k <= i < buffer@.len(),
                    directory@ == buffer@.take(k as int),
                decreases i - k,
            {
                directory.push(buffer[k]);
                proof {
                    assert(directory@ =~= buffer@.take((k + 1) as int));
                }
                k += 1;
            }
            return Some(directory);
        }
        i += 1;
    }
    None
}

/// The fallback path to the driver module: the system directory followed by
/// `\OmniMIDI\OmniMIDI.dll`.
pub fn build_fallback_path(directory: &Vec<u8>) -> (r: Vec<u8>)
    ensures
        r@ == directory@ + fallback_suffix(),
{
    let mut r: Vec<u8> = Vec::new();
    let mut k: usize = 0;
    while k < directory.len()
        invariant
            k <= directory@.len(),
            r@ == directory@.take(k as int),
        decreases directory@.len() - k,
    {
        r.push(directory[k]);
        proof {
            assert(r@ =~= directory@.take((k + 1) as int));
        }
        k += 1;
    }
    r.push(92u8);
    r.push(79u8);
    r.push(109u8);
    r.push(110u8);
    r.push(105u8);
    r.push(77u8);
    r.push(73u8);
    r.push(68u8);
    r.push(73u8);
    r.push(92u8);
    r.push(79u8);
    r.push(109u8);
    r.push(110u8);
    r.push(105u8);
    r.push(77u8);
    r.push(73u8);
    r.push(68u8);
    r.push(73u8);
    r.push(46u8);
    r.push(100u8);
    r.push(108u8);
    r.push(108u8);
    proof {
        assert(directory@.take(directory@.len() as int) =~= directory@);
        assert(r@ =~= directory@ + fallback_suffix());
    }
    r
}

} // verus!
