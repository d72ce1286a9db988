use vstd::prelude::*;
use vstd::utf8::{encode_utf8, is_char_boundary};
use vstd::string::StringSliceAdditionalSpecFns;

verus! {

/// The length in bytes of the ".juice" extension that file dialogs append to a path.
pub const JUICE_EXTENSION_LEN: usize = 6;

/// The save key of a file picked in a dialog: its path without the last six bytes, the
/// ".juice" extension, which the save pipeline adds back itself.
pub fn trim_juice_extension(full_key: &str) -> (key: String)
    requires
        full_key.spec_bytes().len() <= usize::MAX,
        full_key.spec_bytes().len() >= JUICE_EXTENSION_LEN,
        is_char_boundary(full_key.spec_bytes(), full_key.spec_bytes().len() - JUICE_EXTENSION_LEN),
    ensures
        encode_utf8(key@) == full_key.spec_bytes().subrange(0, full_key.spec_bytes().len() - JUICE_EXTENSION_LEN),
{
    let cut: usize = full_key.len() - JUICE_EXTENSION_LEN;
    let (kept, _extension) = full_key.split_at(cut);
    let key: String = kept.to_owned();
    proof {
        assert(kept.spec_bytes() == encode_utf8(kept@));
    }
    key
}

} // verus!
