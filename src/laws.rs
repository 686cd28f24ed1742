use vstd::prelude::*;
use vstd::utf8::*;
use crate::abi::{spec_select, Symbols};
use crate::name::{c_name, has_nul};
use crate::properties::{decoded_entries, fixed_read, spec_after_find, spec_new, Properties};
use crate::text::decoded;

verus! {

/// A property that the store does not hold reads as nothing, whichever ABI
/// is in use: the new ABI's lookup answers null, which ends the read before
/// any callback, and the old ABI's get function answers a length of zero.
pub proof fn lemma_absent_property_reads_nothing(p: Properties, buffer: Seq<u8>)
    ensures
        spec_after_find(p.implementation, 0) is None,
        fixed_read(0, buffer) is None,
{
}

/// A value that was set reads back unchanged. The set call sends the value's
/// bytes followed by a NUL; the read callback hands back the bytes before
/// that NUL, and they decode to the value. On the old ABI, a non-empty value
/// whose bytes fill the start of the buffer, with the length reported, also
/// decodes to the value.
pub proof fn lemma_set_value_reads_back(value: Seq<char>, len: i32, buffer: Seq<u8>)
    requires
        !has_nul(encode_utf8(value)),
    ensures
        decoded(c_name(value).drop_last()) == Some(value),
        0 < len <= buffer.len() && len == encode_utf8(value).len()
            && buffer.subrange(0, len as int) == encode_utf8(value)
            ==> fixed_read(len, buffer) == Some(value),
{
    broadcast use encode_utf8_valid_utf8, encode_utf8_decode_utf8;
    assert(c_name(value).drop_last() =~= encode_utf8(value));
}

/// On the old ABI a reported length that does not fit the buffer is never
/// trusted and reads as nothing, while a value that fits the buffer reads
/// back whole.
pub proof fn lemma_fixed_buffer_bound(len: i32, buffer: Seq<u8>, value: Seq<char>)
    ensures
        len > buffer.len() ==> fixed_read(len, buffer) is None,
        0 < encode_utf8(value).len() <= buffer.len() && len == encode_utf8(value).len()
            && buffer.subrange(0, len as int) == encode_utf8(value)
            ==> fixed_read(len, buffer) == Some(value),
{
    broadcast use encode_utf8_valid_utf8, encode_utf8_decode_utf8;
}

/// When libc exports neither the new ABI's pair nor the old ABI's function,
/// or is not loaded at all, the accessor has no implementation, so every
/// `get` ends at its first step with nothing.
pub proof fn lemma_unresolved_reads_nothing(libc_so: usize, symbols: Symbols)
    requires
        libc_so == 0 || ((symbols.find == 0 || symbols.read_callback == 0) && symbols.get == 0),
    ensures
        spec_new(libc_so, symbols).implementation is None,
{
}

/// When every entry that the enumeration reports decodes, the listing has
/// one property per entry, in order, each decoded as a `get` decodes.
pub proof fn lemma_listing_keeps_every_entry(entries: Seq<(Vec<u8>, Vec<u8>)>)
    requires
        forall|i: int|
            0 <= i < entries.len() ==> (#[trigger] decoded(entries[i].0@)) is Some
                && decoded(entries[i].1@) is Some,
    ensures
        decoded_entries(entries).len() == entries.len(),
        forall|i: int|
            0 <= i < entries.len() ==> #[trigger] decoded_entries(entries)[i] == (
                decoded(entries[i].0@)->Some_0,
                decoded(entries[i].1@)->Some_0,
            ),
    decreases entries.len(),
{
    if entries.len() > 0 {
        let rest = entries.drop_last();
        assert forall|i: int| 0 <= i < rest.len() implies (#[trigger] decoded(rest[i].0@)) is Some
            && decoded(rest[i].1@) is Some by {
            assert(rest[i] == entries[i]);
        }
        lemma_listing_keeps_every_entry(rest);
        assert(decoded(entries[entries.len() - 1].0@) is Some);
        assert forall|i: int| 0 <= i < entries.len() implies #[trigger] decoded_entries(entries)[i]
            == (decoded(entries[i].0@)->Some_0, decoded(entries[i].1@)->Some_0) by {
            if i < rest.len() {
                assert(rest[i] == entries[i]);
                assert(decoded_entries(rest)[i] == (
                    decoded(rest[i].0@)->Some_0,
                    decoded(rest[i].1@)->Some_0,
                ));
            }
        }
    }
}

/// Two accessors built from the same handle and the same lookups are the
/// same accessor: they chose the same implementation and know the same
/// functions, so every query plans the same native calls and gives the same
/// result for the same answers.
pub proof fn lemma_construction_is_deterministic(
    a: Properties,
    b: Properties,
    libc_so: usize,
    symbols: Symbols,
)
    requires
        a == spec_new(libc_so, symbols),
        b == spec_new(libc_so, symbols),
    ensures
        a.implementation == b.implementation,
        a.symbols == b.symbols,
        a.implementation == spec_select(a.symbols),
{
}

} // verus!
