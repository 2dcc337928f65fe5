use fory_envelope::registration::EnvelopeType;
use fory_envelope::wire_id::fory_wire_id;

#[test]
fn wire_id_of_the_empty_name_is_the_start_value() {
    assert_eq!(fory_wire_id(""), 0x811c9dc5);
}

#[test]
fn wire_id_has_the_high_bit() {
    // FNV-1a of "a" is 0xe40c292c, of "foobar" 0xbf9cf968, of "b" 0xe70c2de5.
    assert_eq!(fory_wire_id("a"), 0xe40c292c);
    assert_eq!(fory_wire_id("b"), 0xe70c2de5);
    assert_eq!(fory_wire_id("foobar"), 0xbf9cf968);
    // FNV-1a of "fooba" is 0x39aaa18a: the high bit is put in.
    assert_eq!(fory_wire_id("fooba"), 0xb9aaa18a);
}

#[test]
fn wire_id_hashes_utf8_bytes() {
    assert_ne!(fory_wire_id("\u{e9}"), fory_wire_id("e"));
    let mut hash: u32 = 2166136261;
    for b in [0xc3u8, 0xa9] {
        hash = (hash ^ b as u32).wrapping_mul(16777619);
    }
    assert_eq!(fory_wire_id("\u{e9}"), hash | 0x8000_0000);
}

#[test]
fn wire_id_is_no_envelope_id() {
    let id = fory_wire_id("greeter::HelloRequest");
    assert!(id >= 0x8000_0000);
    assert_ne!(id, EnvelopeType::TraceContext.type_id());
    assert_ne!(id, EnvelopeType::ClientMessage.type_id());
}
