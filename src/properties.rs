use vstd::prelude::*;
use vstd::utf8::*;
use crate::abi::{spec_select, Implementation, Symbols, PROPERTY_VALUE_MAX};
use crate::name::{c_name, encode_name, has_nul};
use crate::text::{decode_value, decoded, text_of};

verus! {

/// Access to the system properties through the native functions that were
/// found in libc when it was built.
///
/// The native calls themselves are made by the caller: each operation is
/// split into steps that say which function to call with which arguments,
/// and that turn what the function returned into the result.
#[derive(Clone, Copy, Debug, PartialEq, Eq, Structural)]
pub struct Properties {
    /// The handle that libc was opened with, zero when it was not loaded.
    pub libc_so: usize,
    /// The addresses that the lookups through the handle found.
    pub symbols: Symbols,
    /// How values are read, fixed at construction.
    pub implementation: Option<Implementation>,
}

/// The first native call of a `get`, or its result where no call is needed.
#[derive(Debug)]
pub enum GetAction {
    /// Call the lookup function on the NUL-terminated name; a non-null
    /// answer goes to `Properties::after_find`.
    Find { find_fn: usize, cname: Vec<u8> },
    /// Call the fixed-buffer function on the NUL-terminated name and the
    /// buffer; the length it returns goes to `finish_fill` with the buffer.
    Fill { get_fn: usize, cname: Vec<u8>, buffer: Vec<u8> },
    /// Nothing to call: this is the result.
    Done(Option<String>),
}

/// A call of the read-callback function on a found property.
#[derive(Clone, Copy, Debug, PartialEq, Eq, Structural)]
pub struct ReadCall {
    pub read_callback_fn: usize,
    pub info: usize,
}

/// What follows the lookup function's answer `info` (zero for null): a read
/// through the callback, or nothing when the property does not exist.
pub open spec fn spec_after_find(implementation: Option<Implementation>, info: usize) -> Option<ReadCall> {
    match implementation {
        Some(Implementation::New { read_callback_fn, .. }) => if info != 0 {
            Some(ReadCall { read_callback_fn, info })
        } else {
            None
        },
        _ => None,
    }
}

/// The value that the fixed-buffer function left in `buffer` when it
/// returned `len`: nothing for a non-positive length, nothing for a length
/// beyond the buffer's capacity, else the first `len` bytes as text.
pub open spec fn fixed_read(len: i32, buffer: Seq<u8>) -> Option<Seq<char>> {
    if len <= 0 || len > buffer.len() {
        None
    } else {
        decoded(buffer.subrange(0, len as int))
    }
}

/// The accessor that `Properties::new` builds from a handle and lookups.
pub open spec fn spec_new(libc_so: usize, symbols: Symbols) -> Properties {
    let symbols = if libc_so == 0 {
        Symbols::spec_none()
    } else {
        symbols
    };
    Properties { libc_so, symbols, implementation: spec_select(symbols) }
}

impl Properties {
    /// The accessor was built from its handle and lookups: the symbols are
    /// those found through a live handle, and the implementation is the one
    /// that they select.
    pub open spec fn wf(&self) -> bool {
        &&& self.implementation == spec_select(self.symbols)
        &&& self.libc_so == 0 ==> self.symbols == Symbols::spec_none()
    }

    /// Builds the accessor from the libc handle (zero when libc is not
    /// loaded) and the addresses looked up through it. Without a handle no
    /// function is used and every query finds nothing.
    pub fn new(libc_so: usize, symbols: Symbols) -> (r: Properties)
        ensures
            r == spec_new(libc_so, symbols),
            r.wf(),
    {
        let symbols = if libc_so == 0 {
            Symbols::none()
        } else {
            symbols
        };
        Properties { libc_so, symbols, implementation: Implementation::new(symbols) }
    }

    /// Starts reading the property `name`. A name with an embedded NUL, or
    /// an accessor without an implementation, gives `None` without any
    /// native call; otherwise the action names the function to call.
    pub fn start_get(&self, name: &str) -> (r: GetAction)
        ensures
            (self.implementation is None || has_nul(encode_utf8(name@))) <==> r is Done,
            r matches GetAction::Done(v) ==> v is None,
            r matches GetAction::Find { find_fn, cname } ==> {
                &&& self.implementation matches Some(Implementation::New { find_fn: f, .. })
                &&& f == find_fn
                &&& cname@ == c_name(name@)
            },
            r matches GetAction::Fill { get_fn, cname, buffer } ==> {
                &&& self.implementation == Some(Implementation::Old { get_fn })
                &&& cname@ == c_name(name@)
                &&& buffer@ == Seq::new(PROPERTY_VALUE_MAX as nat, |i: int| 0u8)
            },
    {
        let implementation = match self.implementation {
            Some(i) => i,
            None => return GetAction::Done(None),
        };
        let cname = match encode_name(name) {
            Some(c) => c,
            None => return GetAction::Done(None),
        };
        match implementation {
            Implementation::New { find_fn, .. } => GetAction::Find { find_fn, cname },
            Implementation::Old { get_fn } => {
                let mut buffer: Vec<u8> = Vec::new();
                let mut i: usize = 0;
                while i < PROPERTY_VALUE_MAX
                    invariant
                        i <= PROPERTY_VALUE_MAX,
                        buffer@ == Seq::new(i as nat, |j: int| 0u8),
                    decreases PROPERTY_VALUE_MAX - i,
                {
                    buffer.push(0u8);
                    i = i + 1;
                    assert(buffer@ =~= Seq::new(i as nat, |j: int| 0u8));
                }
                GetAction::Fill { get_fn, cname, buffer }
            },
        }
    }

    /// Continues a `get` on the new ABI once the lookup function answered
    /// `info` (zero for null): the read to make, or `None` when the
    /// property does not exist.
    pub fn after_find(&self, info: usize) -> (r: Option<ReadCall>)
        ensures
            r == spec_after_find(self.implementation, info),
    {
        match self.implementation {
            Some(Implementation::New { read_callback_fn, .. }) => {
                if info == 0 {
                    None
                } else {
                    Some(ReadCall { read_callback_fn, info })
                }
            },
            _ => None,
        }
    }
}

/// Ends a `get` on the new ABI: the value bytes that the read callback
/// received, as text, or `None` when they are not valid UTF-8.
pub fn finish_read(value: Vec<u8>) -> (r: Option<String>)
    ensures
        text_of(r) == decoded(value@),
{
    decode_value(value)
}

/// Ends a `get` on the old ABI: `len` is what the fixed-buffer function
/// returned and `buffer` the buffer it wrote. A length beyond the buffer is
/// not trusted and gives `None`.
pub fn finish_fill(len: i32, buffer: Vec<u8>) -> (r: Option<String>)
    ensures
        text_of(r) == fixed_read(len, buffer@),
{
    if len <= 0 || len as usize > buffer.len() {
        return None;
    }
    let mut buffer = buffer;
    buffer.truncate(len as usize);
    decode_value(buffer)
}

/// A call of the native set function on NUL-terminated name and value.
#[derive(Debug)]
pub struct SetCall {
    pub set_fn: usize,
    pub cname: Vec<u8>,
    pub cvalue: Vec<u8>,
}

/// Why a property could not be set.
#[derive(Debug)]
pub enum SetError {
    /// libc exports no set function.
    Unavailable,
    /// The name or the value holds an embedded NUL and cannot be sent.
    InvalidInput { name: String, value: String },
    /// The native set function reported a negative status.
    Failed { name: String, value: String },
}

/// A call of the native enumeration function, whose callback reads each
/// property through the read-callback function.
#[derive(Clone, Copy, Debug, PartialEq, Eq, Structural)]
pub struct ForeachCall {
    pub foreach_fn: usize,
    pub read_callback_fn: usize,
}

/// A property's name and value, as text.
#[derive(Debug)]
pub struct Property {
    pub name: String,
    pub value: String,
}

/// The name and value of each entry, in order, leaving out those whose
/// name or value is not valid UTF-8.
pub open spec fn decoded_entries(entries: Seq<(Vec<u8>, Vec<u8>)>) -> Seq<(Seq<char>, Seq<char>)>
    decreases entries.len(),
{
    if entries.len() == 0 {
        Seq::empty()
    } else {
        let rest = decoded_entries(entries.drop_last());
        match (decoded(entries.last().0@), decoded(entries.last().1@)) {
            (Some(n), Some(v)) => rest.push((n, v)),
            _ => rest,
        }
    }
}

/// The name and value of each property, as characters.
pub open spec fn property_views(ps: Seq<Property>) -> Seq<(Seq<char>, Seq<char>)> {
    ps.map_values(|p: Property| (p.name@, p.value@))
}

impl Properties {
    /// Starts setting property `name` to `value`: the call to make, or the
    /// error when libc has no set function or an argument holds a NUL.
    pub fn start_set(&self, name: &str, value: &str) -> (r: Result<SetCall, SetError>)
        ensures
            self.symbols.set == 0 ==> r matches Err(SetError::Unavailable),
            self.symbols.set != 0 && (has_nul(encode_utf8(name@)) || has_nul(encode_utf8(value@)))
                ==> (r matches Err(SetError::InvalidInput { name: n, value: v }) && n@ == name@ && v@ == value@),
            r matches Ok(c) ==> {
                &&& c.set_fn == self.symbols.set
                &&& c.cname@ == c_name(name@)
                &&& c.cvalue@ == c_name(value@)
            },
            self.symbols.set != 0 && !has_nul(encode_utf8(name@)) && !has_nul(encode_utf8(value@))
                ==> r is Ok,
    {
        if self.symbols.set == 0 {
            return Err(SetError::Unavailable);
        }
        let cname = encode_name(name);
        let cvalue = encode_name(value);
        match (cname, cvalue) {
            (Some(cname), Some(cvalue)) => Ok(SetCall { set_fn: self.symbols.set, cname, cvalue }),
            _ => Err(SetError::InvalidInput { name: name.to_owned(), value: value.to_owned() }),
        }
    }

    /// Starts an enumeration: the call to make, or `None` when libc lacks
    /// the enumeration or the read-callback function, in which case there
    /// is nothing to list.
    pub fn start_iterate(&self) -> (r: Option<ForeachCall>)
        ensures
            r is Some <==> self.symbols.foreach != 0 && self.symbols.read_callback != 0,
            r matches Some(c) ==> c.foreach_fn == self.symbols.foreach
                && c.read_callback_fn == self.symbols.read_callback,
    {
        if self.symbols.foreach == 0 || self.symbols.read_callback == 0 {
            None
        } else {
            Some(ForeachCall {
                foreach_fn: self.symbols.foreach,
                read_callback_fn: self.symbols.read_callback,
            })
        }
    }
}

/// Ends a set: the native function returned `status`; a negative one is a
/// failure that names the property and the value.
pub fn finish_set(status: i32, name: &str, value: &str) -> (r: Result<(), SetError>)
    ensures
        status >= 0 <==> r is Ok,
        r matches Err(e) ==> (e matches SetError::Failed { name: n, value: v } && n@ == name@
            && v@ == value@),
{
    if status < 0 {
        Err(SetError::Failed { name: name.to_owned(), value: value.to_owned() })
    } else {
        Ok(())
    }
}

/// Ends an enumeration: the (name, value) bytes that the read callback
/// received for each property, in order, become properties; an entry whose
/// name or value is not valid UTF-8 is left out.
pub fn collect_properties(entries: &Vec<(Vec<u8>, Vec<u8>)>) -> (r: Vec<Property>)
    ensures
        property_views(r@) == decoded_entries(entries@),
{
    let mut out: Vec<Property> = Vec::new();
    let mut i: usize = 0;
    while i < entries.len()
        invariant
            i <= entries@.len(),
            property_views(out@) == decoded_entries(entries@.subrange(0, i as int)),
        decreases entries@.len() - i,
    {
        let name_bytes = entries[i].0.clone();
        let value_bytes = entries[i].1.clone();
        assert(name_bytes@ =~= entries@[i as int].0@);
        assert(value_bytes@ =~= entries@[i as int].1@);
        let name = decode_value(name_bytes);
        let value = decode_value(value_bytes);
        let ghost before = out@;
        let ghost prefix = entries@.subrange(0, i as int + 1);
        assert(prefix.drop_last() =~= entries@.subrange(0, i as int));
        assert(prefix.last() == entries@[i as int]);
        match (name, value) {
            (Some(name), Some(value)) => {
                out.push(Property { name, value });
                assert(property_views(out@) =~= property_views(before).push(
                    (out@.last().name@, out@.last().value@),
                ));
            },
            _ => {},
        }
        i = i + 1;
    }
    assert(entries@.subrange(0, i as int) =~= entries@);
    out
}

} // verus!
