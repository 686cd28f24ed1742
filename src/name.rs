use vstd::prelude::*;
use vstd::string::*;
use vstd::utf8::*;

verus! {

/// True when the byte sequence holds a NUL byte anywhere.
pub open spec fn has_nul(bytes: Seq<u8>) -> bool {
    exists|i: int| 0 <= i < bytes.len() && bytes[i] == 0
}

/// The name as the native layer reads it: its UTF-8 bytes followed by one NUL.
pub open spec fn c_name(name: Seq<char>) -> Seq<u8> {
    encode_utf8(name).push(0u8)
}

/// Encodes a property name as a NUL-terminated byte string, or returns
/// `None` when the name holds an embedded NUL and so cannot be sent.
pub fn encode_name(name: &str) -> (r: Option<Vec<u8>>)
    ensures
        has_nul(encode_utf8(name@)) <==> r is None,
        r matches Some(v) ==> v@ == c_name(name@),
{
    let bytes = name.as_bytes();
    let mut out: Vec<u8> = Vec::new();
    let mut i: usize = 0;
    while i < bytes.len()
        invariant
            bytes@ == encode_utf8(name@),
            0 <= i <= bytes@.len(),
            out@ == bytes@.subrange(0, i as int),
            forall|j: int| 0 <= j < i ==> bytes@[j] != 0,
        decreases bytes@.len() - i,
    {
        if bytes[i] == 0 {
            return None;
        }
        out.push(bytes[i]);
        i = i + 1;
    }
    out.push(0u8);
    assert(out@ == c_name(name@)) by {
        assert(bytes@.subrange(0, i as int) =~= bytes@);
    }
    Some(out)
}

} // verus!
