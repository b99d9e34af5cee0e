use chance_registry::codec::{
    decode_business_key, decode_config, decode_instance, decode_instruction, decode_record,
    decode_release, encode_business_key, encode_config, encode_instance, encode_instruction,
    encode_record, encode_release,
};
use chance_registry::wire::{
    BusinessKey, Config, Instance, Instruction, Record, Release, CONFIG_TAG, INSTANCE_TAG, KEY_TAG,
    RECORD_TAG, RELEASE_TAG,
};

fn config() -> Config {
    Config {
        tag: CONFIG_TAG,
        schema: 1,
        authority: [3; 32],
        guardian: [4; 32],
        activation_delay: 60,
        release_count: 2,
        record_count: 0x0102_0304_0506_0708,
        instance_count: u64::MAX,
    }
}

fn release() -> Release {
    Release {
        tag: RELEASE_TAG,
        registry: [1; 32],
        program: [2; 32],
        domain: 2,
        series: [3; 32],
        source_hash: [4; 32],
        executable_hash: [5; 32],
        sequence: 7,
        registered_slot: 99,
        eligible_at: -5,
        status: 3,
        successor: [6; 32],
    }
}

#[test]
fn config_layout_matches_borsh() {
    let c = config();
    let bytes = encode_config(&c);
    let expected = borsh::to_vec(&(
        c.tag,
        c.schema,
        c.authority,
        c.guardian,
        c.activation_delay,
        c.release_count,
        c.record_count,
        c.instance_count,
    ))
    .unwrap();
    assert_eq!(bytes, expected);
    assert_eq!(bytes.len(), 102);
    assert_eq!(decode_config(&bytes), Some(c));
    assert_eq!(decode_config(&bytes[..101]), None);
    let mut longer = bytes.clone();
    longer.push(0);
    assert_eq!(decode_config(&longer), None);
}

#[test]
fn release_layout_matches_borsh() {
    let x = release();
    let bytes = encode_release(&x);
    let expected = borsh::to_vec(&(
        (x.tag, x.registry, x.program, x.domain, x.series, x.source_hash),
        (x.executable_hash, x.sequence, x.registered_slot, x.eligible_at, x.status, x.successor),
    ))
    .unwrap();
    assert_eq!(bytes, expected);
    assert_eq!(bytes.len(), 226);
    assert_eq!(decode_release(&bytes), Some(x));
}

#[test]
fn record_layout_matches_borsh() {
    let x = Record {
        tag: RECORD_TAG,
        registry: [1; 32],
        sequence: 3,
        release: [2; 32],
        actor: [3; 32],
        slot: 4,
        timestamp: -1,
        status: 4,
        successor: [0; 32],
        reason: "supersedé".to_string(),
    };
    let bytes = encode_record(&x).unwrap();
    let expected = borsh::to_vec(&(
        (x.tag, x.registry, x.sequence, x.release, x.actor),
        (x.slot, x.timestamp, x.status, x.successor, x.reason.clone()),
    ))
    .unwrap();
    assert_eq!(bytes, expected);
    assert_eq!(bytes.len(), 161 + 4 + "supersedé".len());
    assert_eq!(decode_record(&bytes), Some(x));
    let mut bad = bytes.clone();
    let n = bad.len();
    bad[n - 1] = 0xff;
    assert_eq!(decode_record(&bad), None);
    assert_eq!(decode_record(&bytes[..bytes.len() - 1]), None);
}

#[test]
fn instance_and_business_key_layouts_match_borsh() {
    let i = Instance {
        tag: INSTANCE_TAG,
        registry: [1; 32],
        sequence: 1,
        release: [2; 32],
        owner_program: [3; 32],
        instance: [4; 32],
        creator: [5; 32],
        business_key: [6; 32],
        rules_hash: [7; 32],
        created_slot: 8,
    };
    let bytes = encode_instance(&i);
    let expected = borsh::to_vec(&(
        (i.tag, i.registry, i.sequence, i.release, i.owner_program),
        (i.instance, i.creator, i.business_key, i.rules_hash, i.created_slot),
    ))
    .unwrap();
    assert_eq!(bytes, expected);
    assert_eq!(decode_instance(&bytes), Some(i));
    let k = BusinessKey { tag: KEY_TAG, entry: [9; 32] };
    let bytes = encode_business_key(&k);
    assert_eq!(bytes, borsh::to_vec(&(k.tag, k.entry)).unwrap());
    assert_eq!(decode_business_key(&bytes), Some(k));
}

#[test]
fn instruction_layouts_match_borsh() {
    let cases: Vec<(Instruction, Vec<u8>)> = vec![
        (
            Instruction::Initialize { guardian: [1; 32], activation_delay: 60 },
            borsh::to_vec(&(0u8, [1u8; 32], 60u32)).unwrap(),
        ),
        (
            Instruction::Register {
                domain: 1,
                series: [1; 32],
                source_hash: [2; 32],
                executable_hash: [3; 32],
            },
            borsh::to_vec(&(1u8, 1u8, [1u8; 32], [2u8; 32], [3u8; 32])).unwrap(),
        ),
        (
            Instruction::Activate { reason: "checked release".into() },
            borsh::to_vec(&(2u8, "checked release".to_string())).unwrap(),
        ),
        (
            Instruction::Pause { reason: "review".into() },
            borsh::to_vec(&(3u8, "review".to_string())).unwrap(),
        ),
        (
            Instruction::Discontinue { reason: "".into() },
            borsh::to_vec(&(4u8, String::new())).unwrap(),
        ),
        (
            Instruction::SetSuccessor { reason: "ok".into() },
            borsh::to_vec(&(5u8, "ok".to_string())).unwrap(),
        ),
        (
            Instruction::RecordInstance { day_or_nonce: 19_000, rules_hash: [9; 32] },
            borsh::to_vec(&(6u8, 19_000u64, [9u8; 32])).unwrap(),
        ),
    ];
    for (ix, expected) in cases {
        let bytes = encode_instruction(&ix).unwrap();
        assert_eq!(bytes, expected);
        assert_eq!(decode_instruction(&bytes), Some(ix));
    }
}

#[test]
fn malformed_instructions_are_refused() {
    assert_eq!(decode_instruction(&[]), None);
    assert_eq!(decode_instruction(&[7]), None);
    assert_eq!(decode_instruction(&[0; 36]), None);
    assert_eq!(decode_instruction(&[2, 3, 0, 0, 0, b'a', b'b']), None);
    assert_eq!(decode_instruction(&[2, 2, 0, 0, 0, 0xc3, 0x28]), None);
    assert_eq!(
        decode_instruction(&[2, 2, 0, 0, 0, 0xc3, 0xa9]),
        Some(Instruction::Activate { reason: "é".into() })
    );
    assert_eq!(decode_instruction(&[6; 40]), None);
}
