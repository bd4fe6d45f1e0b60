use vault_core::derive_event_id;
use vault_core::DeriveEventIdParam;

#[test]
fn event_id_of_zero_is_all_zero_bytes() {
    assert_eq!(derive_event_id(0), [0u8; 8]);
}

#[test]
fn event_id_of_one_is_little_endian() {
    assert_eq!(derive_event_id(1), [1, 0, 0, 0, 0, 0, 0, 0]);
}

#[test]
fn event_id_encodes_every_byte_position() {
    let id = derive_event_id(0x0807060504030201);
    assert_eq!(id, [1, 2, 3, 4, 5, 6, 7, 8]);
}

#[test]
fn event_id_of_max_counter() {
    assert_eq!(derive_event_id(u64::MAX), [0xff; 8]);
}

#[test]
fn distinct_counters_give_distinct_event_ids() {
    let counters: [u64; 6] = [0, 1, 2, 255, 256, u64::MAX];
    for (i, a) in counters.iter().enumerate() {
        for (j, b) in counters.iter().enumerate() {
            if i != j {
                assert_ne!(derive_event_id(*a), derive_event_id(*b));
            }
        }
    }
}

#[test]
fn param_struct_encodes_like_the_function() {
    let param = DeriveEventIdParam { event_id: 0x1122334455667788 };
    assert_eq!(param.to_bytes(), derive_event_id(0x1122334455667788));
    assert_eq!(param.to_bytes(), [0x88, 0x77, 0x66, 0x55, 0x44, 0x33, 0x22, 0x11]);
}
