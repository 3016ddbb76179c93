use vstd::prelude::*;
use vstd::string::*;
use vstd::utf8::*;

use crate::log_watcher::{has_log_extension, log_suffix};

verus! {

/// The bytes of `log_`.
pub open spec fn log_dir_prefix() -> Seq<u8> {
    seq![108u8, 111u8, 103u8, 95u8]
}

/// A directory entry that marks a log directory: a name that starts with
/// `log_` (a session's log folder) or ends with `.log`.
pub open spec fn is_log_entry(name: Seq<u8>) -> bool {
    (name.len() >= 4 && name.subrange(0, 4) == log_dir_prefix())
        || (name.len() >= 4 && name.subrange(name.len() - 4, name.len() as int) == log_suffix())
}

/// The UTF-8 bytes of an entry name.
pub open spec fn name_bytes(s: String) -> Seq<u8> {
    encode_utf8(s@)
}

/// Whether the entry name marks a log directory.
pub fn is_log_entry_name(name: &str) -> (r: bool)
    ensures
        r == is_log_entry(name.spec_bytes()),
{
    let b = name.as_bytes();
    let n = b.len();
    if n < 4 {
        return false;
    }
    let starts = b[0] == 108u8 && b[1] == 111u8 && b[2] == 103u8 && b[3] == 95u8;
    let ends = b[n - 4] == 46u8 && b[n - 3] == 108u8 && b[n - 2] == 111u8 && b[n - 1] == 103u8;
    assert(starts == (b@.subrange(0, 4) =~= log_dir_prefix()));
    assert(ends == (b@.subrange(n - 4, n as int) =~= log_suffix()));
    starts || ends
}

/// Whether a directory holds the game's logs: it is a directory (`is_dir`, false
/// also when nothing exists at the path) and one of its entries, named in
/// `entry_names`, marks a log directory.
pub fn validate_log_directory(is_dir: bool, entry_names: &Vec<String>) -> (r: Result<bool, String>)
    ensures
        r == Ok::<bool, String>(
            is_dir && exists|i: int| 0 <= i < entry_names@.len() && is_log_entry(#[trigger] name_bytes(entry_names@[i])),
        ),
{
    if !is_dir {
        return Ok(false);
    }
    let mut i: usize = 0;
    while i < entry_names.len()
        invariant
            is_dir,
            i <= entry_names@.len(),
            forall|j: int| 0 <= j < i ==> !is_log_entry(#[trigger] name_bytes(entry_names@[j])),
        decreases entry_names@.len() - i,
    {
        let name = entry_names[i].as_str();
        assert(name.spec_bytes() == name_bytes(entry_names@[i as int]));
        if is_log_entry_name(name) {
            assert(is_log_entry(name_bytes(entry_names@[i as int])));
            return Ok(true);
        }
        i = i + 1;
    }
    Ok(false)
}

} // verus!
