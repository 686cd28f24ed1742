use vstd::prelude::*;

verus! {

/// Capacity of the value buffer that the fixed-buffer get function writes
/// into: `PROP_VALUE_MAX` of Android's `sys/system_properties.h`.
pub const PROPERTY_VALUE_MAX: usize = 92;

/// A native function that the accessor looks up by name in libc.
#[derive(Clone, Copy, Debug, PartialEq, Eq, Structural)]
pub enum Symbol {
    Find,
    ReadCallback,
    Get,
    SetValue,
    Foreach,
}

/// The exported name of each native function.
pub open spec fn symbol_name(s: Symbol) -> &'static str {
    match s {
        Symbol::Find => "__system_property_find",
        Symbol::ReadCallback => "__system_property_read_callback",
        Symbol::Get => "__system_property_get",
        Symbol::SetValue => "__system_property_set",
        Symbol::Foreach => "__system_property_foreach",
    }
}

impl Symbol {
    /// The name under which libc exports this function.
    pub fn name(&self) -> (r: &'static str)
        ensures
            r == symbol_name(*self),
    {
        match self {
            Symbol::Find => "__system_property_find",
            Symbol::ReadCallback => "__system_property_read_callback",
            Symbol::Get => "__system_property_get",
            Symbol::SetValue => "__system_property_set",
            Symbol::Foreach => "__system_property_foreach",
        }
    }
}

/// The addresses that a symbol lookup returned, one per native function;
/// zero where libc does not export the function.
#[derive(Clone, Copy, Debug, PartialEq, Eq, Structural)]
pub struct Symbols {
    pub find: usize,
    pub read_callback: usize,
    pub get: usize,
    pub set: usize,
    pub foreach: usize,
}

impl Symbols {
    /// No function found.
    pub open spec fn spec_none() -> Symbols {
        Symbols { find: 0, read_callback: 0, get: 0, set: 0, foreach: 0 }
    }

    /// No function found: what an accessor without a library handle holds.
    pub fn none() -> (r: Symbols)
        ensures
            r == Symbols::spec_none(),
    {
        Symbols { find: 0, read_callback: 0, get: 0, set: 0, foreach: 0 }
    }
}

/// The way property values are read, chosen once at construction.
#[derive(Clone, Copy, Debug, PartialEq, Eq, Structural)]
pub enum Implementation {
    /// Look the property up, then read it through a callback.
    New { find_fn: usize, read_callback_fn: usize },
    /// Read the property into a buffer of fixed capacity.
    Old { get_fn: usize },
}

/// The new ABI, when both of its functions were found.
pub open spec fn spec_load_new(read_callback_fn: usize, find_fn: usize) -> Option<Implementation> {
    if read_callback_fn != 0 && find_fn != 0 {
        Some(Implementation::New { find_fn, read_callback_fn })
    } else {
        None
    }
}

/// The old ABI, when its function was found.
pub open spec fn spec_load_old(get_fn: usize) -> Option<Implementation> {
    if get_fn != 0 {
        Some(Implementation::Old { get_fn })
    } else {
        None
    }
}

/// The implementation chosen from what the lookups found: the new ABI where
/// both of its functions exist, else the old one where it exists, else none.
pub open spec fn spec_select(symbols: Symbols) -> Option<Implementation> {
    match spec_load_new(symbols.read_callback, symbols.find) {
        Some(i) => Some(i),
        None => spec_load_old(symbols.get),
    }
}

impl Implementation {
    /// The new ABI from the addresses of its two functions.
    pub fn load_new(read_callback_fn: usize, find_fn: usize) -> (r: Option<Implementation>)
        ensures
            r == spec_load_new(read_callback_fn, find_fn),
    {
        if read_callback_fn == 0 || find_fn == 0 {
            return None;
        }
        Some(Implementation::New { find_fn, read_callback_fn })
    }

    /// The old ABI from the address of its function.
    pub fn load_old(get_fn: usize) -> (r: Option<Implementation>)
        ensures
            r == spec_load_old(get_fn),
    {
        if get_fn == 0 {
            return None;
        }
        Some(Implementation::Old { get_fn })
    }

    /// Chooses the implementation: the new ABI is preferred, the old one is
    /// the fallback.
    pub fn new(symbols: Symbols) -> (r: Option<Implementation>)
        ensures
            r == spec_select(symbols),
    {
        match Self::load_new(symbols.read_callback, symbols.find) {
            Some(i) => Some(i),
            None => Self::load_old(symbols.get),
        }
    }
}

} // verus!
