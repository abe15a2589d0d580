use debug_callback::flags::{
    MessageSeverity, MessageType, SEVERITY_ERROR_BIT, SEVERITY_INFO_BIT, SEVERITY_KNOWN_BITS,
    SEVERITY_VERBOSE_BIT, SEVERITY_WARNING_BIT, TYPE_GENERAL_BIT, TYPE_KNOWN_BITS,
    TYPE_PERFORMANCE_BIT, TYPE_VALIDATION_BIT,
};

fn every_severity() -> Vec<MessageSeverity> {
    let mut all = Vec::new();
    for n in 0u32..16 {
        all.push(MessageSeverity {
            error: n & 1 != 0,
            warning: n & 2 != 0,
            information: n & 4 != 0,
            verbose: n & 8 != 0,
        });
    }
    all
}

fn every_type() -> Vec<MessageType> {
    let mut all = Vec::new();
    for n in 0u32..8 {
        all.push(MessageType {
            general: n & 1 != 0,
            validation: n & 2 != 0,
            performance: n & 4 != 0,
        });
    }
    all
}

#[test]
fn severity_bits_have_the_native_values() {
    assert_eq!(SEVERITY_VERBOSE_BIT, 0x0000_0001);
    assert_eq!(SEVERITY_INFO_BIT, 0x0000_0010);
    assert_eq!(SEVERITY_WARNING_BIT, 0x0000_0100);
    assert_eq!(SEVERITY_ERROR_BIT, 0x0000_1000);
    assert_eq!(SEVERITY_KNOWN_BITS, 0x0000_1111);
}

#[test]
fn type_bits_have_the_native_values() {
    assert_eq!(TYPE_GENERAL_BIT, 0x1);
    assert_eq!(TYPE_VALIDATION_BIT, 0x2);
    assert_eq!(TYPE_PERFORMANCE_BIT, 0x4);
    assert_eq!(TYPE_KNOWN_BITS, 0x7);
}

#[test]
fn severity_presets() {
    assert_eq!(
        MessageSeverity::errors(),
        MessageSeverity { error: true, warning: false, information: false, verbose: false }
    );
    assert_eq!(
        MessageSeverity::errors_and_warnings(),
        MessageSeverity { error: true, warning: true, information: false, verbose: false }
    );
    assert_eq!(
        MessageSeverity::none(),
        MessageSeverity { error: false, warning: false, information: false, verbose: false }
    );
}

#[test]
fn type_presets() {
    assert_eq!(
        MessageType::general(),
        MessageType { general: true, validation: false, performance: false }
    );
    assert_eq!(
        MessageType::all(),
        MessageType { general: true, validation: true, performance: true }
    );
    assert_eq!(
        MessageType::none(),
        MessageType { general: false, validation: false, performance: false }
    );
}

#[test]
fn severity_encodes_to_exact_masks() {
    assert_eq!(MessageSeverity::none().encode(), 0);
    assert_eq!(MessageSeverity::errors().encode(), 0x1000);
    assert_eq!(MessageSeverity::errors_and_warnings().encode(), 0x1100);
    let information_only =
        MessageSeverity { error: false, warning: false, information: true, verbose: false };
    assert_eq!(information_only.encode(), 0x0010);
    let verbose_only =
        MessageSeverity { error: false, warning: false, information: false, verbose: true };
    assert_eq!(verbose_only.encode(), 0x0001);
    let everything =
        MessageSeverity { error: true, warning: true, information: true, verbose: true };
    assert_eq!(everything.encode(), 0x1111);
}

#[test]
fn type_encodes_to_exact_masks() {
    assert_eq!(MessageType::none().encode(), 0);
    assert_eq!(MessageType::general().encode(), 0x1);
    assert_eq!(MessageType::all().encode(), 0x7);
    let validation_only = MessageType { general: false, validation: true, performance: false };
    assert_eq!(validation_only.encode(), 0x2);
    let performance_only = MessageType { general: false, validation: false, performance: true };
    assert_eq!(performance_only.encode(), 0x4);
}

#[test]
fn severity_round_trips_for_every_selection() {
    for s in every_severity() {
        assert_eq!(MessageSeverity::decode(s.encode()), s);
    }
}

#[test]
fn type_round_trips_for_every_selection() {
    for t in every_type() {
        assert_eq!(MessageType::decode(t.encode()), t);
    }
}

#[test]
fn distinct_selections_encode_differently() {
    let all = every_severity();
    for a in &all {
        for b in &all {
            assert_eq!(a.encode() == b.encode(), a == b);
        }
    }
    let all = every_type();
    for a in &all {
        for b in &all {
            assert_eq!(a.encode() == b.encode(), a == b);
        }
    }
}

#[test]
fn empty_selection_is_the_zero_mask() {
    assert_eq!(MessageSeverity::none().encode(), 0);
    assert_eq!(MessageType::none().encode(), 0);
    assert_eq!(MessageSeverity::decode(0), MessageSeverity::none());
    assert_eq!(MessageType::decode(0), MessageType::none());
    for s in every_severity() {
        assert_eq!(s.encode() == 0, s == MessageSeverity::none());
    }
    for t in every_type() {
        assert_eq!(t.encode() == 0, t == MessageType::none());
    }
}

#[test]
fn encoding_never_sets_an_unknown_bit() {
    for s in every_severity() {
        assert_eq!(s.encode() & !SEVERITY_KNOWN_BITS, 0);
    }
    for t in every_type() {
        assert_eq!(t.encode() & !TYPE_KNOWN_BITS, 0);
    }
}

#[test]
fn severity_decodes_each_bit_alone() {
    assert_eq!(
        MessageSeverity::decode(0x0100),
        MessageSeverity { error: false, warning: true, information: false, verbose: false }
    );
    assert_eq!(MessageSeverity::decode(0x1000), MessageSeverity::errors());
    assert_eq!(
        MessageSeverity::decode(0x0010),
        MessageSeverity { error: false, warning: false, information: true, verbose: false }
    );
    assert_eq!(
        MessageSeverity::decode(0x0001),
        MessageSeverity { error: false, warning: false, information: false, verbose: true }
    );
}

#[test]
fn decoding_ignores_unknown_bits() {
    assert_eq!(MessageSeverity::decode(0xffff_eeee), MessageSeverity::none());
    assert_eq!(MessageSeverity::decode(0x8000_1102), MessageSeverity::errors_and_warnings());
    assert_eq!(
        MessageSeverity::decode(0xffff_ffff),
        MessageSeverity { error: true, warning: true, information: true, verbose: true }
    );
    assert_eq!(MessageType::decode(0xffff_fff8), MessageType::none());
    assert_eq!(MessageType::decode(0x0000_0109), MessageType::general());
    assert_eq!(MessageType::decode(0xffff_ffff), MessageType::all());
}

#[test]
fn encoding_what_was_decoded_keeps_the_known_bits() {
    let masks = [0u32, 1, 0x10, 0x1234_5678, 0xdead_beef, 0xffff_ffff, 0x0000_1111, 0x8000_0000];
    for bits in masks {
        assert_eq!(MessageSeverity::decode(bits).encode(), bits & 0x1111);
        assert_eq!(MessageType::decode(bits).encode(), bits & 0x7);
    }
}
