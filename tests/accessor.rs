use android_system_properties::abi::{Implementation, Symbol, Symbols, PROPERTY_VALUE_MAX};
use android_system_properties::name::encode_name;
use android_system_properties::properties::{
    collect_properties, finish_fill, finish_read, finish_set, ForeachCall, GetAction, Properties,
    ReadCall, SetError,
};
use android_system_properties::text::decode_value;

fn all_symbols() -> Symbols {
    Symbols { find: 0x1000, read_callback: 0x2000, get: 0x3000, set: 0x4000, foreach: 0x5000 }
}

fn old_only() -> Symbols {
    Symbols { find: 0, read_callback: 0, get: 0x3000, set: 0, foreach: 0 }
}

fn buffer_with(value: &[u8]) -> Vec<u8> {
    let mut buffer = vec![0u8; PROPERTY_VALUE_MAX];
    buffer[..value.len()].copy_from_slice(value);
    buffer
}

#[test]
fn symbol_names_match_libc_exports() {
    assert_eq!(Symbol::Find.name(), "__system_property_find");
    assert_eq!(Symbol::ReadCallback.name(), "__system_property_read_callback");
    assert_eq!(Symbol::Get.name(), "__system_property_get");
    assert_eq!(Symbol::SetValue.name(), "__system_property_set");
    assert_eq!(Symbol::Foreach.name(), "__system_property_foreach");
}

#[test]
fn encode_name_appends_nul() {
    assert_eq!(encode_name("persist.sys.timezone").unwrap(), b"persist.sys.timezone\0".to_vec());
    assert_eq!(encode_name("").unwrap(), vec![0u8]);
    assert_eq!(encode_name("é").unwrap(), vec![0xc3, 0xa9, 0]);
}

#[test]
fn encode_name_rejects_embedded_nul() {
    assert!(encode_name("a\0b").is_none());
    assert!(encode_name("\0").is_none());
}

#[test]
fn decode_value_checks_utf8() {
    assert_eq!(decode_value(b"Europe/Paris".to_vec()), Some("Europe/Paris".to_string()));
    assert_eq!(decode_value(vec![0xc3, 0xa9]), Some("é".to_string()));
    assert_eq!(decode_value(vec![0xff, 0x41]), None);
    assert_eq!(decode_value(Vec::new()), Some(String::new()));
}

#[test]
fn new_abi_is_preferred() {
    assert_eq!(
        Implementation::new(all_symbols()),
        Some(Implementation::New { find_fn: 0x1000, read_callback_fn: 0x2000 })
    );
}

#[test]
fn old_abi_is_the_fallback() {
    assert_eq!(Implementation::new(old_only()), Some(Implementation::Old { get_fn: 0x3000 }));
    let half = Symbols { find: 0x1000, read_callback: 0, get: 0x3000, set: 0, foreach: 0 };
    assert_eq!(Implementation::new(half), Some(Implementation::Old { get_fn: 0x3000 }));
}

#[test]
fn load_steps_need_every_symbol() {
    assert_eq!(Implementation::load_new(0, 0x1000), None);
    assert_eq!(Implementation::load_new(0x2000, 0), None);
    assert_eq!(Implementation::load_old(0), None);
    assert_eq!(Implementation::load_old(7), Some(Implementation::Old { get_fn: 7 }));
}

#[test]
fn nothing_resolved_gives_no_implementation() {
    assert_eq!(Implementation::new(Symbols::none()), None);
    let p = Properties::new(0x10, Symbols::none());
    assert_eq!(p.implementation, None);
    assert!(matches!(p.start_get("ro.build.version.sdk"), GetAction::Done(None)));
    assert!(matches!(p.start_get(""), GetAction::Done(None)));
}

#[test]
fn missing_handle_ignores_lookups() {
    let p = Properties::new(0, all_symbols());
    assert_eq!(p.symbols, Symbols::none());
    assert_eq!(p.implementation, None);
    assert!(matches!(p.start_get("ro.product.model"), GetAction::Done(None)));
    assert!(p.start_iterate().is_none());
    assert!(matches!(p.start_set("k", "v"), Err(SetError::Unavailable)));
}

#[test]
fn construction_is_deterministic() {
    let a = Properties::new(0x10, all_symbols());
    let b = Properties::new(0x10, all_symbols());
    assert_eq!(a, b);
    for name in ["ro.product.model", "a\0b", ""] {
        assert_eq!(format!("{:?}", a.start_get(name)), format!("{:?}", b.start_get(name)));
    }
}

#[test]
fn get_with_nul_makes_no_native_call() {
    let new = Properties::new(0x10, all_symbols());
    let old = Properties::new(0x10, old_only());
    assert!(matches!(new.start_get("bad\0name"), GetAction::Done(None)));
    assert!(matches!(old.start_get("bad\0name"), GetAction::Done(None)));
}

#[test]
fn get_on_new_abi_plans_lookup() {
    let p = Properties::new(0x10, all_symbols());
    match p.start_get("persist.sys.timezone") {
        GetAction::Find { find_fn, cname } => {
            assert_eq!(find_fn, 0x1000);
            assert_eq!(cname, b"persist.sys.timezone\0".to_vec());
        }
        other => panic!("unexpected action {:?}", other),
    }
    assert_eq!(p.after_find(0), None);
    assert_eq!(p.after_find(0xabc), Some(ReadCall { read_callback_fn: 0x2000, info: 0xabc }));
    assert_eq!(finish_read(b"Europe/Paris".to_vec()), Some("Europe/Paris".to_string()));
    assert_eq!(finish_read(vec![0x80]), None);
}

#[test]
fn after_find_needs_new_abi() {
    let p = Properties::new(0x10, old_only());
    assert_eq!(p.after_find(0xabc), None);
}

#[test]
fn get_on_old_abi_plans_fixed_buffer() {
    let p = Properties::new(0x10, old_only());
    match p.start_get("ro.build.version.sdk") {
        GetAction::Fill { get_fn, cname, buffer } => {
            assert_eq!(get_fn, 0x3000);
            assert_eq!(cname, b"ro.build.version.sdk\0".to_vec());
            assert_eq!(buffer, vec![0u8; 92]);
        }
        other => panic!("unexpected action {:?}", other),
    }
}

#[test]
fn fixed_buffer_short_value_is_read() {
    let buffer = buffer_with(b"34");
    assert_eq!(finish_fill(2, buffer), Some("34".to_string()));
}

#[test]
fn fixed_buffer_full_value_is_read() {
    let value = vec![b'x'; 92];
    assert_eq!(finish_fill(92, value.clone()), Some(String::from_utf8(value).unwrap()));
}

#[test]
fn fixed_buffer_length_over_capacity_is_rejected() {
    let buffer = buffer_with(b"34");
    assert_eq!(finish_fill(93, buffer.clone()), None);
    assert_eq!(finish_fill(i32::MAX, buffer), None);
}

#[test]
fn fixed_buffer_nonpositive_length_means_absent() {
    assert_eq!(finish_fill(0, buffer_with(b"34")), None);
    assert_eq!(finish_fill(-1, buffer_with(b"34")), None);
}

#[test]
fn fixed_buffer_invalid_utf8_is_rejected() {
    assert_eq!(finish_fill(2, buffer_with(&[0xc3, 0x28])), None);
}

#[test]
fn set_value_reads_back() {
    let p = Properties::new(0x10, all_symbols());
    let call = p.start_set("debug.k", "v").unwrap();
    assert_eq!(call.set_fn, 0x4000);
    assert_eq!(call.cname, b"debug.k\0".to_vec());
    assert_eq!(call.cvalue, b"v\0".to_vec());
    assert_eq!(finish_set(0, "debug.k", "v").ok(), Some(()));
    let stored = call.cvalue[..call.cvalue.len() - 1].to_vec();
    assert_eq!(finish_read(stored.clone()), Some("v".to_string()));
    assert_eq!(finish_fill(1, buffer_with(&stored)), Some("v".to_string()));
}

#[test]
fn set_without_symbol_is_unavailable() {
    let p = Properties::new(0x10, old_only());
    assert!(matches!(p.start_set("k", "v"), Err(SetError::Unavailable)));
}

#[test]
fn set_with_nul_is_invalid_input() {
    let p = Properties::new(0x10, all_symbols());
    match p.start_set("k", "a\0b") {
        Err(SetError::InvalidInput { name, value }) => {
            assert_eq!(name, "k");
            assert_eq!(value, "a\0b");
        }
        other => panic!("unexpected result {:?}", other),
    }
    assert!(matches!(p.start_set("k\0", "v"), Err(SetError::InvalidInput { .. })));
}

#[test]
fn set_failure_names_property_and_value() {
    match finish_set(-1, "debug.k", "v") {
        Err(SetError::Failed { name, value }) => {
            assert_eq!(name, "debug.k");
            assert_eq!(value, "v");
        }
        other => panic!("unexpected result {:?}", other),
    }
    assert!(finish_set(1, "debug.k", "v").is_ok());
}

#[test]
fn iterate_needs_both_symbols() {
    let p = Properties::new(0x10, all_symbols());
    assert_eq!(p.start_iterate(), Some(ForeachCall { foreach_fn: 0x5000, read_callback_fn: 0x2000 }));
    let no_read = Symbols { find: 0x1000, read_callback: 0, get: 0x3000, set: 0, foreach: 0x5000 };
    assert_eq!(Properties::new(0x10, no_read).start_iterate(), None);
    assert_eq!(Properties::new(0x10, old_only()).start_iterate(), None);
}

#[test]
fn listing_has_one_property_per_entry() {
    let entries = vec![
        (b"ro.a".to_vec(), b"1".to_vec()),
        (b"ro.b".to_vec(), b"".to_vec()),
        (b"ro.c".to_vec(), b"three".to_vec()),
    ];
    let listed = collect_properties(&entries);
    assert_eq!(listed.len(), 3);
    let pairs: Vec<(String, String)> =
        listed.into_iter().map(|p| (p.name, p.value)).collect();
    assert_eq!(
        pairs,
        vec![
            ("ro.a".to_string(), "1".to_string()),
            ("ro.b".to_string(), String::new()),
            ("ro.c".to_string(), "three".to_string()),
        ]
    );
}

#[test]
fn listing_leaves_out_undecodable_entries() {
    let entries = vec![
        (b"ro.a".to_vec(), vec![0xff]),
        (vec![0xfe], b"x".to_vec()),
        (b"ro.c".to_vec(), b"ok".to_vec()),
    ];
    let listed = collect_properties(&entries);
    assert_eq!(listed.len(), 1);
    assert_eq!(listed[0].name, "ro.c");
    assert_eq!(listed[0].value, "ok");
    assert!(collect_properties(&Vec::new()).is_empty());
}
