//! Truncation of a derived network name to the byte capacity of a
//! network-name field.

use vstd::prelude::*;
use vstd::string::{StrSliceExecFns, StringExecFns};
use vstd::utf8::encode_utf8;

verus! {

/// Byte capacity of a network-name field.
pub const NETWORK_NAME_CAPACITY: usize = 32;

/// The longest prefix of `chars` whose UTF-8 encoding fits in `cap`
/// bytes: whole characters are dropped from the end until it fits.
pub open spec fn spec_truncate_chars(chars: Seq<char>, cap: nat) -> Seq<char>
    decreases chars.len(),
{
    if encode_utf8(chars).len() <= cap {
        chars
    } else if chars.len() == 0 {
        chars
    } else {
        spec_truncate_chars(chars.drop_last(), cap)
    }
}

/// Truncates `name` to at most `NETWORK_NAME_CAPACITY` UTF-8 bytes,
/// dropping whole characters from the end; a name that already fits is
/// returned unchanged.
pub fn truncate_network_name(name: String) -> (r: String)
    ensures
        r@ == spec_truncate_chars(name@, NETWORK_NAME_CAPACITY as nat),
        encode_utf8(r@).len() <= NETWORK_NAME_CAPACITY,
{
    let ghost full = name@;
    let ghost cap = NETWORK_NAME_CAPACITY as nat;
    let mut name = name;
    while name.as_str().as_bytes().len() > NETWORK_NAME_CAPACITY
        invariant
            spec_truncate_chars(name@, cap) == spec_truncate_chars(full, cap),
            cap == NETWORK_NAME_CAPACITY,
        decreases name@.len(),
    {
        proof {
            if name@.len() == 0 {
                assert(encode_utf8(name@).len() == 0);
            }
            assert(spec_truncate_chars(name@, cap) == spec_truncate_chars(
                name@.drop_last(),
                cap,
            ));
        }
        let n = name.as_str().unicode_len();
        let shorter = name.as_str().substring_char(0, n - 1).to_owned();
        proof {
            assert(shorter@ =~= name@.drop_last());
        }
        name = shorter;
    }
    proof {
        assert(spec_truncate_chars(name@, cap) == name@);
    }
    name
}

/// Law: truncation keeps a name whole when its encoding already fits the
/// capacity, always yields an encoding within the capacity, and only ever
/// yields a prefix of the original name.
pub proof fn lemma_truncate_chars(chars: Seq<char>, cap: nat)
    ensures
        encode_utf8(chars).len() <= cap ==> spec_truncate_chars(chars, cap) == chars,
        encode_utf8(spec_truncate_chars(chars, cap)).len() <= cap,
        spec_truncate_chars(chars, cap).len() <= chars.len(),
        spec_truncate_chars(chars, cap) == chars.take(spec_truncate_chars(chars, cap).len() as int),
    decreases chars.len(),
{
    if encode_utf8(chars).len() <= cap {
        assert(chars.take(chars.len() as int) =~= chars);
    } else if chars.len() == 0 {
        assert(encode_utf8(chars).len() == 0);
    } else {
        lemma_truncate_chars(chars.drop_last(), cap);
        let r = spec_truncate_chars(chars, cap);
        assert(chars.drop_last().take(r.len() as int) =~= chars.take(r.len() as int));
    }
}

} // verus!
