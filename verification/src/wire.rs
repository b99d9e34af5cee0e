//! Versioned registry wire types. Every address is 32 raw bytes, so programs built on
//! different SDK generations share one byte-level schema.
use vstd::prelude::*;

verus! {

/// Schema version stored in the registry configuration.
pub const SCHEMA: u16 = 1;

/// Release domain of daily lotteries.
pub const DAILY: u8 = 1;

/// Release domain of giveaways.
pub const GIVEAWAY: u8 = 2;

/// Release status: registered, waiting for activation.
pub const REGISTERED: u8 = 1;

/// Release status: active, instances may be recorded.
pub const ACTIVE: u8 = 2;

/// Release status: paused by governance or guardian.
pub const PAUSED: u8 = 3;

/// Release status: discontinued; terminal.
pub const DISCONTINUED: u8 = 4;

/// Account tag `CHREG001` of the registry configuration.
pub const CONFIG_TAG: [u8; 8] = [67, 72, 82, 69, 71, 48, 48, 49];

/// Account tag `CHREL001` of a release.
pub const RELEASE_TAG: [u8; 8] = [67, 72, 82, 69, 76, 48, 48, 49];

/// Account tag `CHREC001` of a lifecycle record.
pub const RECORD_TAG: [u8; 8] = [67, 72, 82, 69, 67, 48, 48, 49];

/// Account tag `CHINS001` of an inventory entry.
pub const INSTANCE_TAG: [u8; 8] = [67, 72, 73, 78, 83, 48, 48, 49];

/// Account tag `CHKEY001` of a business-key account.
pub const KEY_TAG: [u8; 8] = [67, 72, 75, 69, 89, 48, 48, 49];

/// Longest lifecycle reason, in UTF-8 bytes.
pub const MAX_REASON: usize = 384;

/// A registry instruction.
#[derive(Clone, Debug, PartialEq, Eq)]
pub enum Instruction {
    Initialize { guardian: [u8; 32], activation_delay: u32 },
    Register { domain: u8, series: [u8; 32], source_hash: [u8; 32], executable_hash: [u8; 32] },
    Activate { reason: String },
    Pause { reason: String },
    Discontinue { reason: String },
    SetSuccessor { reason: String },
    RecordInstance { day_or_nonce: u64, rules_hash: [u8; 32] },
}

/// The registry configuration of one governance namespace.
#[derive(Clone, Copy, Debug, PartialEq, Eq)]
pub struct Config {
    pub tag: [u8; 8],
    pub schema: u16,
    pub authority: [u8; 32],
    pub guardian: [u8; 32],
    pub activation_delay: u32,
    pub release_count: u64,
    pub record_count: u64,
    pub instance_count: u64,
}

/// A registered program release.
#[derive(Clone, Copy, Debug, PartialEq, Eq)]
pub struct Release {
    pub tag: [u8; 8],
    pub registry: [u8; 32],
    pub program: [u8; 32],
    pub domain: u8,
    pub series: [u8; 32],
    pub source_hash: [u8; 32],
    /// SHA-256 of the deployed ELF after trailing-zero trimming.
    /// Activation checks this against immutable ProgramData; source match is separate.
    pub executable_hash: [u8; 32],
    pub sequence: u64,
    pub registered_slot: u64,
    pub eligible_at: i64,
    pub status: u8,
    pub successor: [u8; 32],
}

/// A permanent lifecycle record.
#[derive(Clone, Debug, PartialEq, Eq)]
pub struct Record {
    pub tag: [u8; 8],
    pub registry: [u8; 32],
    pub sequence: u64,
    pub release: [u8; 32],
    pub actor: [u8; 32],
    pub slot: u64,
    pub timestamp: i64,
    pub status: u8,
    pub successor: [u8; 32],
    pub reason: String,
}

/// A permanent inventory entry of one created instance.
#[derive(Clone, Copy, Debug, PartialEq, Eq)]
pub struct Instance {
    pub tag: [u8; 8],
    pub registry: [u8; 32],
    pub sequence: u64,
    pub release: [u8; 32],
    pub owner_program: [u8; 32],
    pub instance: [u8; 32],
    pub creator: [u8; 32],
    pub business_key: [u8; 32],
    pub rules_hash: [u8; 32],
    pub created_slot: u64,
}

/// The canonical business-key account; points to its inventory entry.
#[derive(Clone, Copy, Debug, PartialEq, Eq)]
pub struct BusinessKey {
    pub tag: [u8; 8],
    pub entry: [u8; 32],
}

/// An instruction as a mathematical value: the reason is its sequence of characters.
pub enum InstructionModel {
    Initialize { guardian: [u8; 32], activation_delay: u32 },
    Register { domain: u8, series: [u8; 32], source_hash: [u8; 32], executable_hash: [u8; 32] },
    Activate { reason: Seq<char> },
    Pause { reason: Seq<char> },
    Discontinue { reason: Seq<char> },
    SetSuccessor { reason: Seq<char> },
    RecordInstance { day_or_nonce: u64, rules_hash: [u8; 32] },
}

impl View for Instruction {
    type V = InstructionModel;

    open spec fn view(&self) -> InstructionModel {
        match self {
            Instruction::Initialize { guardian, activation_delay } => InstructionModel::Initialize {
                guardian: *guardian,
                activation_delay: *activation_delay,
            },
            Instruction::Register { domain, series, source_hash, executable_hash } =>
                InstructionModel::Register {
                domain: *domain,
                series: *series,
                source_hash: *source_hash,
                executable_hash: *executable_hash,
            },
            Instruction::Activate { reason } => InstructionModel::Activate { reason: reason@ },
            Instruction::Pause { reason } => InstructionModel::Pause { reason: reason@ },
            Instruction::Discontinue { reason } => InstructionModel::Discontinue { reason: reason@ },
            Instruction::SetSuccessor { reason } => InstructionModel::SetSuccessor { reason: reason@ },
            Instruction::RecordInstance { day_or_nonce, rules_hash } =>
                InstructionModel::RecordInstance { day_or_nonce: *day_or_nonce, rules_hash: *rules_hash },
        }
    }
}

/// A lifecycle record as a mathematical value.
pub struct RecordModel {
    pub tag: [u8; 8],
    pub registry: [u8; 32],
    pub sequence: u64,
    pub release: [u8; 32],
    pub actor: [u8; 32],
    pub slot: u64,
    pub timestamp: i64,
    pub status: u8,
    pub successor: [u8; 32],
    pub reason: Seq<char>,
}

impl View for Record {
    type V = RecordModel;

    open spec fn view(&self) -> RecordModel {
        RecordModel {
            tag: self.tag,
            registry: self.registry,
            sequence: self.sequence,
            release: self.release,
            actor: self.actor,
            slot: self.slot,
            timestamp: self.timestamp,
            status: self.status,
            successor: self.successor,
            reason: self.reason@,
        }
    }
}

} // verus!
