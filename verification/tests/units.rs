use chance_registry::bytes::{eq32, is_zero32, starts_with};
use chance_registry::daily;
use chance_registry::giveaway;
use chance_registry::giveaway::begin_upload_phase::BeginUploadPhase;
use chance_registry::giveaway::error::GiveawayError;
use chance_registry::giveaway::extend_active_deadline::ExtendActiveDeadline;
use chance_registry::giveaway::state::GiveawayView;
use chance_registry::loader::{executable_hash, require_immutable, trimmed_len};
use chance_registry::pda::key;
use chance_registry::processor::{business_key, validate_reason};
use chance_registry::registry::{
    checked_next, funding, require, AccountView, Error, Funding, BPF_LOADER_UPGRADEABLE,
    SYSTEM_PROGRAM,
};
use chance_registry::text::{is_whitespace, not_blank};
use chance_registry::wire::{Release, DAILY, GIVEAWAY, RELEASE_TAG};
use solana_program::pubkey::Pubkey;

fn release(domain: u8) -> Release {
    Release {
        tag: RELEASE_TAG,
        registry: [1; 32],
        program: [2; 32],
        domain,
        series: [7; 32],
        source_hash: [4; 32],
        executable_hash: [5; 32],
        sequence: 1,
        registered_slot: 1,
        eligible_at: 0,
        status: 2,
        successor: [0; 32],
    }
}

#[test]
fn counters_stop_at_the_top() {
    assert_eq!(checked_next(0), Ok(1));
    assert_eq!(checked_next(41), Ok(42));
    assert_eq!(checked_next(u64::MAX), Err(Error::Overflow));
    assert_eq!(require(true, Error::Delay), Ok(()));
    assert_eq!(require(false, Error::Delay), Err(Error::Delay));
}

#[test]
fn error_codes_count_from_one() {
    let all = [
        Error::Invalid,
        Error::Unauthorized,
        Error::WrongState,
        Error::Duplicate,
        Error::MutableProgram,
        Error::Delay,
        Error::Overflow,
    ];
    for (i, e) in all.iter().enumerate() {
        assert_eq!(e.code(), i as u32 + 1);
    }
}

#[test]
fn funding_tops_up_prefunded_accounts() {
    assert_eq!(funding(0, 500), Funding::CreateAccount { lamports: 500 });
    assert_eq!(funding(100, 500), Funding::TopUp { transfer: 400 });
    assert_eq!(funding(900, 500), Funding::TopUp { transfer: 0 });
}

#[test]
fn daily_business_key_hashes_series_and_day() {
    let rel = release(DAILY);
    let day = 19_723u64;
    let expected =
        solana_sha256_hasher::hashv(&[b"chance-daily-key-v1", &[7; 32], &day.to_le_bytes()])
            .to_bytes();
    assert_eq!(business_key(&rel, &[9; 32], day), expected);
    assert_eq!(business_key(&rel, &[1; 32], day), expected);
    assert_ne!(business_key(&rel, &[9; 32], day + 1), expected);
}

#[test]
fn giveaway_business_key_hashes_creator_and_nonce() {
    let rel = release(GIVEAWAY);
    let expected =
        solana_sha256_hasher::hashv(&[b"chance-giveaway-key-v1", &[9; 32], &5u64.to_le_bytes()])
            .to_bytes();
    assert_eq!(business_key(&rel, &[9; 32], 5), expected);
    assert_ne!(business_key(&rel, &[8; 32], 5), expected);
}

#[test]
fn reasons_need_content_and_at_most_384_bytes() {
    assert_eq!(validate_reason("review"), Ok(()));
    assert_eq!(validate_reason(""), Err(Error::Invalid));
    assert_eq!(validate_reason(" \t\r\n\u{0B}\u{0C}"), Err(Error::Invalid));
    assert_eq!(validate_reason("\u{00A0}\u{1680}\u{2000}\u{200A}\u{2028}\u{2029}\u{202F}\u{205F}\u{3000}\u{0085}"), Err(Error::Invalid));
    assert_eq!(validate_reason("\u{200B}"), Ok(()));
    assert_eq!(validate_reason(&"a".repeat(384)), Ok(()));
    assert_eq!(validate_reason(&"a".repeat(385)), Err(Error::Invalid));
    // 128 three-byte characters are 384 bytes; one more is too long.
    assert_eq!(validate_reason(&"€".repeat(128)), Ok(()));
    assert_eq!(validate_reason(&("€".repeat(128) + "a")), Err(Error::Invalid));
}

#[test]
fn whitespace_is_the_unicode_property() {
    for c in ['\t', '\n', ' ', '\u{85}', '\u{A0}', '\u{1680}', '\u{2005}', '\u{3000}'] {
        assert!(is_whitespace(c));
        assert_eq!(is_whitespace(c), c.is_whitespace());
    }
    for c in ['a', '\u{200B}', '\u{180E}', '\u{FEFF}', '0'] {
        assert!(!is_whitespace(c));
        assert_eq!(is_whitespace(c), c.is_whitespace());
    }
    assert!(not_blank(" x "));
    assert!(!not_blank("  "));
}

#[test]
fn byte_helpers() {
    assert!(eq32(&[3; 32], &[3; 32]));
    assert!(!eq32(&[3; 32], &[4; 32]));
    assert!(is_zero32(&[0; 32]));
    let mut k = [0u8; 32];
    k[31] = 1;
    assert!(!is_zero32(&k));
    assert!(starts_with(b"CHREL001rest", b"CHREL001"));
    assert!(!starts_with(b"CHREL00", b"CHREL001"));
}

#[test]
fn executable_digest_strips_metadata_and_padding() {
    let mut data = vec![3u8; 45];
    data.extend_from_slice(b"elf bytes\0\0");
    data.extend_from_slice(&[0u8; 20]);
    assert_eq!(trimmed_len(&data[45..]), 9);
    assert_eq!(
        executable_hash(&data),
        solana_sha256_hasher::hash(b"elf bytes").to_bytes()
    );
    let mut zeros = vec![3u8; 45];
    zeros.extend_from_slice(&[0u8; 8]);
    assert_eq!(executable_hash(&zeros), solana_sha256_hasher::hash(b"").to_bytes());
}

fn loader_accounts(program: [u8; 32], authority: Option<[u8; 32]>) -> (AccountView, AccountView) {
    let data_key = Pubkey::find_program_address(
        &[&program],
        &Pubkey::new_from_array(BPF_LOADER_UPGRADEABLE),
    )
    .0
    .to_bytes();
    let mut p = vec![2, 0, 0, 0];
    p.extend_from_slice(&data_key);
    let mut d = vec![3, 0, 0, 0];
    d.extend_from_slice(&1u64.to_le_bytes());
    match authority {
        None => {
            d.push(0);
            d.extend_from_slice(&[0; 32]);
        }
        Some(a) => {
            d.push(1);
            d.extend_from_slice(&a);
        }
    }
    d.extend_from_slice(b"code");
    let view = |key, executable, data| AccountView {
        key,
        owner: BPF_LOADER_UPGRADEABLE,
        lamports: 1,
        is_signer: false,
        is_writable: false,
        executable,
        data,
    };
    (view(program, true, p), view(data_key, false, d))
}

#[test]
fn only_immutable_upgradeable_programs_pass() {
    let (p, d) = loader_accounts([8; 32], None);
    assert_eq!(require_immutable(&p, &d), Ok(()));
    let (p2, d2) = loader_accounts([8; 32], Some([1; 32]));
    assert_eq!(require_immutable(&p2, &d2), Err(Error::MutableProgram));
    let mut not_exec = p.clone();
    not_exec.executable = false;
    assert_eq!(require_immutable(&not_exec, &d), Err(Error::MutableProgram));
    let mut other_owner = d.clone();
    other_owner.owner = SYSTEM_PROGRAM;
    assert_eq!(require_immutable(&p, &other_owner), Err(Error::MutableProgram));
    let mut spoofed = d.clone();
    spoofed.key = [6; 32];
    assert_eq!(require_immutable(&p, &spoofed), Err(Error::MutableProgram));
    let mut p3 = p.clone();
    p3.data[4..].copy_from_slice(&[6; 32]);
    let mut d3 = d.clone();
    d3.key = [6; 32];
    assert_eq!(require_immutable(&p3, &d3), Err(Error::Invalid));
    let mut short = d.clone();
    short.data.truncate(45);
    assert_eq!(require_immutable(&p, &short), Err(Error::MutableProgram));
}

#[test]
fn derived_addresses_are_checked() {
    let program = [5u8; 32];
    let seeds = vec![b"registry".to_vec(), vec![2u8; 32]];
    let (addr, bump) = Pubkey::find_program_address(
        &[b"registry", &[2u8; 32]],
        &Pubkey::new_from_array(program),
    );
    assert_eq!(key(&program, &addr.to_bytes(), &seeds), Ok(bump));
    assert_eq!(key(&program, &[2u8; 32], &seeds), Err(Error::Invalid));
}

#[test]
fn retired_timing_instructions_always_fail() {
    assert_eq!(
        daily::begin_reveal_phase::process(&[1; 32], 10, 20),
        Err(daily::error::Error::InvalidPhaseTransition)
    );
    let upload = BeginUploadPhase {
        config_authority: [1; 32],
        giveaway: GiveawayView { creator: [2; 32], settled: false },
        authority: [1; 32],
    };
    assert_eq!(upload.validate(), Ok(()));
    assert_eq!(
        giveaway::begin_upload_phase::process(&upload),
        Err(GiveawayError::InvalidInstruction)
    );
    let wrong = BeginUploadPhase { authority: [3; 32], ..upload };
    assert_eq!(wrong.validate(), Err(GiveawayError::Unauthorized));
    let settled = BeginUploadPhase {
        giveaway: GiveawayView { creator: [2; 32], settled: true },
        ..wrong
    };
    assert_eq!(settled.validate(), Err(GiveawayError::GiveawayAlreadySettled));
    let extend = ExtendActiveDeadline {
        giveaway: GiveawayView { creator: [2; 32], settled: false },
        creator: [2; 32],
    };
    assert_eq!(extend.validate(), Ok(()));
    assert_eq!(
        giveaway::extend_active_deadline::process(&extend, 1_900_000_000),
        Err(GiveawayError::InvalidInstruction)
    );
    let stranger = ExtendActiveDeadline { creator: [9; 32], ..extend };
    assert_eq!(stranger.validate(), Err(GiveawayError::CreatorMismatch));
}

#[test]
fn whitespace_agrees_with_std_on_every_char() {
    for u in 0u32..=0x10FFFF {
        if let Some(c) = char::from_u32(u) {
            assert_eq!(is_whitespace(c), c.is_whitespace(), "U+{:04X}", u);
        }
    }
}

#[test]
fn blank_reasons_are_those_that_trim_to_nothing() {
    for s in ["", " ", "\u{3000}x", "x\u{A0}", "\u{2028}\u{2029}", "\u{FEFF}", "a b", "\t\t"] {
        assert_eq!(not_blank(s), !s.trim().is_empty());
    }
}
