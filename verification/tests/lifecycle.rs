use chance_registry::codec::{decode_config, decode_record, decode_release, encode_instruction};
use chance_registry::processor::process_instruction;
use chance_registry::registry::{
    funding, AccountView, Clock, Effect, Error, Fault, Funding, BPF_LOADER_UPGRADEABLE,
    SYSTEM_PROGRAM,
};
use chance_registry::wire::{Config, Instruction, Release, DAILY, DISCONTINUED, REGISTERED};
use solana_program::pubkey::Pubkey;
use chance_registry::daily::registry::bind as daily_bind;
use chance_registry::daily::state::RegistryBinding as DailyBinding;
use chance_registry::giveaway::error::{AccountError, GiveawayError};
use chance_registry::giveaway::registry::{bind as giveaway_bind, record, BindRegistry};
use chance_registry::giveaway::state::RegistryBinding as GiveawayBinding;
use chance_registry::wire::GIVEAWAY;
use std::collections::HashMap;

type Key = [u8; 32];

fn pda(seeds: &[&[u8]], program: &Key) -> Key {
    Pubkey::find_program_address(seeds, &Pubkey::new_from_array(*program))
        .0
        .to_bytes()
}

fn key_of(n: u8) -> Key {
    let mut k = [0u8; 32];
    k[0] = 0xAB;
    k[1] = n;
    k[31] = 7;
    k
}

fn rent(len: usize) -> u64 {
    (128 + len as u64) * 6_960
}

/// A small in-memory bank that runs the registry and applies what it decides.
struct Fixture {
    accounts: HashMap<Key, AccountView>,
    program: Key,
    admin: Key,
    guardian: Key,
    cfg: Key,
    clock: Clock,
}

struct Meta {
    key: Key,
    signer: bool,
    writable: bool,
}

fn m(key: Key, signer: bool) -> Meta {
    Meta { key, signer, writable: true }
}

fn r(key: Key) -> Meta {
    Meta { key, signer: false, writable: false }
}

impl Fixture {
    fn empty(key: Key) -> AccountView {
        AccountView {
            key,
            owner: SYSTEM_PROGRAM,
            lamports: 0,
            is_signer: false,
            is_writable: false,
            executable: false,
            data: vec![],
        }
    }

    fn new() -> Self {
        let program = key_of(1);
        let admin = key_of(2);
        let guardian = key_of(3);
        let cfg = pda(&[b"registry", &admin], &program);
        let mut f = Fixture {
            accounts: HashMap::new(),
            program,
            admin,
            guardian,
            cfg,
            clock: Clock { slot: 10, unix_timestamp: 1_700_000_000 },
        };
        for k in [admin, guardian] {
            let mut a = Self::empty(k);
            a.lamports = 10_000_000_000;
            f.accounts.insert(k, a);
        }
        f.deploy(program, b"registry executable");
        f.send(
            Instruction::Initialize { guardian, activation_delay: 60 },
            vec![m(cfg, false), m(admin, true), r(SYSTEM_PROGRAM)],
        )
        .unwrap();
        f
    }

    /// An immutable upgradeable-loader program holding `elf`, zero-padded.
    fn deploy(&mut self, program: Key, elf: &[u8]) {
        let data_key = pda(&[&program], &BPF_LOADER_UPGRADEABLE);
        let mut p = vec![2, 0, 0, 0];
        p.extend_from_slice(&data_key);
        let mut d = vec![3, 0, 0, 0];
        d.extend_from_slice(&5u64.to_le_bytes());
        d.push(0);
        d.extend_from_slice(&[0u8; 32]);
        d.extend_from_slice(elf);
        d.extend_from_slice(&[0u8; 16]);
        self.accounts.insert(
            program,
            AccountView {
                key: program,
                owner: BPF_LOADER_UPGRADEABLE,
                lamports: 1,
                is_signer: false,
                is_writable: false,
                executable: true,
                data: p,
            },
        );
        self.accounts.insert(
            data_key,
            AccountView {
                key: data_key,
                owner: BPF_LOADER_UPGRADEABLE,
                lamports: 1,
                is_signer: false,
                is_writable: false,
                executable: false,
                data: d,
            },
        );
    }

    fn deployed_hash(&self, target: Key) -> Key {
        let data_key = pda(&[&target], &BPF_LOADER_UPGRADEABLE);
        let bytes = &self.accounts[&data_key].data;
        let code = &bytes[45..];
        let end = code.iter().rposition(|b| *b != 0).unwrap() + 1;
        solana_sha256_hasher::hash(&code[..end]).to_bytes()
    }

    fn send(&mut self, ix: Instruction, metas: Vec<Meta>) -> Result<(), Fault> {
        let input = encode_instruction(&ix).unwrap();
        let views: Vec<AccountView> = metas
            .iter()
            .map(|meta| {
                let mut a = self.accounts.get(&meta.key).cloned().unwrap_or(Self::empty(meta.key));
                a.is_signer = meta.signer;
                a.is_writable = meta.writable;
                a
            })
            .collect();
        let effects = process_instruction(&self.program, &views, &input, &self.clock)?;
        for effect in effects {
            match effect {
                Effect::Create { account, payer, data, .. } => {
                    let target = views[account].key;
                    let need = rent(data.len());
                    let mut a = self.accounts.get(&target).cloned().unwrap_or(Self::empty(target));
                    let paid = match funding(a.lamports, need) {
                        Funding::CreateAccount { lamports } => lamports,
                        Funding::TopUp { transfer } => transfer,
                    };
                    let payer_key = views[payer].key;
                    self.accounts.get_mut(&payer_key).unwrap().lamports -= paid;
                    a.lamports += paid;
                    a.owner = self.program;
                    a.data = data;
                    self.accounts.insert(target, a);
                }
                Effect::Write { account, data } => {
                    let target = views[account].key;
                    let a = self.accounts.get_mut(&target).unwrap();
                    a.data[..data.len()].copy_from_slice(&data);
                }
                Effect::Log { .. } => {}
            }
        }
        self.clock.slot += 1;
        Ok(())
    }

    fn state(&self) -> Config {
        decode_config(&self.accounts[&self.cfg].data).unwrap()
    }

    fn register(&mut self, target: Key) -> Key {
        let rel = pda(&[b"release", &self.cfg, &target], &self.program);
        let executable_hash = self.deployed_hash(target);
        self.send(
            Instruction::Register {
                domain: DAILY,
                series: [1; 32],
                source_hash: [2; 32],
                executable_hash,
            },
            vec![m(self.cfg, false), m(rel, false), m(self.admin, true), r(SYSTEM_PROGRAM), r(target)],
        )
        .unwrap();
        rel
    }

    fn lifecycle(
        &mut self,
        rel: Key,
        ix: Instruction,
        extra: Vec<Meta>,
        guardian: bool,
    ) -> Result<(), Fault> {
        let seq = self.state().record_count + 1;
        let record = pda(&[b"record", &self.cfg, &seq.to_le_bytes()], &self.program);
        let actor = if guardian { self.guardian } else { self.admin };
        let mut metas = vec![
            m(self.cfg, false),
            m(rel, false),
            m(actor, true),
            r(SYSTEM_PROGRAM),
            m(record, false),
        ];
        metas.extend(extra);
        self.send(ix, metas)
    }

    fn activation_accounts(&self, target: Key) -> Vec<Meta> {
        vec![
            r(target),
            r(pda(&[&target], &BPF_LOADER_UPGRADEABLE)),
            r(self.program),
            r(pda(&[&self.program], &BPF_LOADER_UPGRADEABLE)),
        ]
    }

    fn advance(&mut self) {
        self.clock.unix_timestamp += 61;
    }

    fn release_state(&self, rel: Key) -> Release {
        decode_release(&self.accounts[&rel].data).unwrap()
    }
}

fn activate(reason: &str) -> Instruction {
    Instruction::Activate { reason: reason.to_string() }
}

#[test]
fn delayed_activation_terminal_discontinuation_and_append_only_successor_history() {
    let mut f = Fixture::new();
    let rel = f.register(f.program);
    assert!(f
        .lifecycle(rel, activate("checked release"), f.activation_accounts(f.program), false)
        .is_err());
    assert_eq!(f.state().record_count, 0);
    f.advance();
    // Guardian may stop creation but cannot activate releases.
    assert!(f
        .lifecycle(rel, activate("guardian"), f.activation_accounts(f.program), true)
        .is_err());
    f.lifecycle(rel, activate("checked release"), f.activation_accounts(f.program), false)
        .unwrap();
    f.lifecycle(rel, Instruction::Pause { reason: "review".into() }, vec![], true)
        .unwrap();
    assert!(f
        .lifecycle(rel, activate("resume"), f.activation_accounts(f.program), false)
        .is_err());
    f.advance();
    f.lifecycle(rel, activate("resume"), f.activation_accounts(f.program), false)
        .unwrap();
    f.lifecycle(rel, Instruction::Discontinue { reason: "superseded".into() }, vec![], true)
        .unwrap();
    assert!(f
        .lifecycle(rel, activate("revive"), f.activation_accounts(f.program), false)
        .is_err());
    let next_program = key_of(9);
    f.deploy(next_program, b"registry executable");
    let next = f.register(next_program);
    f.lifecycle(
        rel,
        Instruction::SetSuccessor { reason: "reviewed replacement".into() },
        vec![r(next)],
        false,
    )
    .unwrap();
    f.lifecycle(next, Instruction::Discontinue { reason: "also retired".into() }, vec![], false)
        .unwrap();
    assert!(f
        .lifecycle(next, Instruction::SetSuccessor { reason: "cycle".into() }, vec![r(rel)], false)
        .is_err());
    assert_eq!(f.state().record_count, 6);
    for seq in 1u64..=6 {
        let key = pda(&[b"record", &f.cfg, &seq.to_le_bytes()], &f.program);
        let record = decode_record(&f.accounts[&key].data).unwrap();
        assert_eq!(record.sequence, seq);
        assert!(!record.reason.is_empty());
    }
    assert_eq!(f.release_state(rel).successor, next);
    assert_eq!(f.release_state(rel).status, DISCONTINUED);
}

#[test]
fn mutable_or_spoofed_programdata_cannot_activate() {
    let mut f = Fixture::new();
    let rel = f.register(f.program);
    f.advance();
    let args = f.activation_accounts(f.program);
    let data_key = args[1].key;
    let admin = f.admin;
    let data = f.accounts.get_mut(&data_key).unwrap();
    data.data[12] = 1;
    data.data[13..45].copy_from_slice(&admin);
    assert!(f.lifecycle(rel, activate("mutable"), args, false).is_err());
    assert_eq!(f.state().record_count, 0);
    assert_eq!(f.release_state(rel).status, REGISTERED);
}

#[test]
fn activation_errors_name_the_failed_gate() {
    let mut f = Fixture::new();
    let rel = f.register(f.program);
    assert_eq!(
        f.lifecycle(rel, activate("early"), f.activation_accounts(f.program), false),
        Err(Fault::Program(Error::Delay))
    );
    f.advance();
    assert_eq!(
        f.lifecycle(rel, activate("guardian"), f.activation_accounts(f.program), true),
        Err(Fault::Program(Error::Unauthorized))
    );
    assert_eq!(
        f.lifecycle(rel, activate("   \t\n"), f.activation_accounts(f.program), false),
        Err(Fault::Program(Error::Invalid))
    );
    assert_eq!(
        f.lifecycle(rel, activate(&"x".repeat(385)), f.activation_accounts(f.program), false),
        Err(Fault::Program(Error::Invalid))
    );
    f.lifecycle(rel, activate(&"x".repeat(384)), f.activation_accounts(f.program), false)
        .unwrap();
    assert_eq!(
        f.lifecycle(rel, activate("again"), f.activation_accounts(f.program), false),
        Err(Fault::Program(Error::WrongState))
    );
    let args = f.activation_accounts(f.program);
    assert_eq!(
        f.lifecycle(rel, Instruction::Pause { reason: "p".into() }, vec![], true),
        Ok(())
    );
    assert_eq!(
        f.lifecycle(rel, Instruction::SetSuccessor { reason: "s".into() }, vec![], false),
        Err(Fault::Program(Error::WrongState))
    );
    assert_eq!(f.lifecycle(rel, activate("short"), args[..2].iter().map(|a| r(a.key)).collect(), false),
        Err(Fault::Program(Error::Delay)));
    f.advance();
    assert_eq!(
        f.lifecycle(rel, activate("short"), args[..2].iter().map(|a| r(a.key)).collect(), false),
        Err(Fault::MissingAccount)
    );
    assert_eq!(f.state().record_count, 2);
}

#[test]
fn pause_moves_eligibility_a_full_delay_ahead() {
    let mut f = Fixture::new();
    let rel = f.register(f.program);
    let registered_at = f.clock.unix_timestamp;
    assert_eq!(f.release_state(rel).eligible_at, registered_at + 60);
    f.advance();
    f.lifecycle(rel, activate("go"), f.activation_accounts(f.program), false)
        .unwrap();
    let paused_at = f.clock.unix_timestamp;
    f.lifecycle(rel, Instruction::Pause { reason: "hold".into() }, vec![], true)
        .unwrap();
    assert_eq!(f.release_state(rel).eligible_at, paused_at + 60);
}

#[test]
fn initialize_twice_and_bad_parameters_are_refused() {
    let mut f = Fixture::new();
    let (cfg, admin) = (f.cfg, f.admin);
    assert_eq!(
        f.send(
            Instruction::Initialize { guardian: [5; 32], activation_delay: 60 },
            vec![m(cfg, false), m(admin, true), r(SYSTEM_PROGRAM)],
        ),
        Err(Fault::Program(Error::Duplicate))
    );
    let other = key_of(40);
    f.accounts.insert(other, {
        let mut a = Fixture::empty(other);
        a.lamports = 1_000_000_000;
        a
    });
    let cfg2 = pda(&[b"registry", &other], &f.program);
    assert_eq!(
        f.send(
            Instruction::Initialize { guardian: [0; 32], activation_delay: 60 },
            vec![m(cfg2, false), m(other, true), r(SYSTEM_PROGRAM)],
        ),
        Err(Fault::Program(Error::Invalid))
    );
    assert_eq!(
        f.send(
            Instruction::Initialize { guardian: [5; 32], activation_delay: 0 },
            vec![m(cfg2, false), m(other, true), r(SYSTEM_PROGRAM)],
        ),
        Err(Fault::Program(Error::Invalid))
    );
    assert_eq!(
        f.send(
            Instruction::Initialize { guardian: [5; 32], activation_delay: 1 },
            vec![m(cfg2, false), m(other, true)],
        ),
        Err(Fault::MissingAccount)
    );
    f.send(
        Instruction::Initialize { guardian: [5; 32], activation_delay: 1 },
        vec![m(cfg2, false), m(other, true), r(SYSTEM_PROGRAM)],
    )
    .unwrap();
    let state = decode_config(&f.accounts[&cfg2].data).unwrap();
    assert_eq!(state.authority, other);
    assert_eq!(state.release_count + state.record_count + state.instance_count, 0);
}

impl Fixture {
    fn view(&self, key: Key) -> AccountView {
        self.accounts.get(&key).cloned().unwrap_or(Self::empty(key))
    }

    fn activate_release(&mut self, rel: Key, target: Key) {
        let args = self.activation_accounts(target);
        self.lifecycle(rel, activate("runtime test immutable program"), args, false)
            .unwrap();
    }

    fn run_call(&mut self, call: &chance_registry::binding::RecordCall) -> Result<(), Fault> {
        let metas = call
            .accounts
            .iter()
            .map(|a| Meta { key: a.key, signer: a.is_signer, writable: a.is_writable })
            .collect();
        let ix = chance_registry::codec::decode_instruction(&call.data).unwrap();
        self.send(ix, metas)
    }

    /// A program-owned, non-empty instance account of `owner`.
    fn instance(&mut self, owner: Key, n: u8) -> Key {
        let k = key_of(100 + n);
        let mut a = Self::empty(k);
        a.owner = owner;
        a.lamports = 1;
        a.data = vec![1, 2, 3, n];
        self.accounts.insert(k, a);
        k
    }

    fn daily_record(
        &self,
        target: Key,
        binding: &chance_registry::daily::state::RegistryBinding,
        rel: Key,
        lottery: Key,
        start: i64,
    ) -> Result<chance_registry::binding::RecordCall, chance_registry::daily::error::Error> {
        let seq = (self.state().instance_count + 1).to_le_bytes();
        let day = (start as u64 / 86_400).to_le_bytes();
        let key = solana_sha256_hasher::hashv(&[b"chance-daily-key-v1", &[1; 32], &day]).to_bytes();
        let accounts = vec![
            self.view(self.program),
            self.view(self.cfg),
            self.view(rel),
            Self::empty(pda(&[b"chance-release", &self.cfg], &target)),
            Self::empty(pda(&[b"instance", &self.cfg, &seq], &self.program)),
            Self::empty(pda(&[b"business", &self.cfg, &[DAILY], &key], &self.program)),
        ];
        chance_registry::daily::registry::record(
            &target,
            binding,
            &lottery,
            &self.admin,
            &SYSTEM_PROGRAM,
            &accounts,
            b"lottery state at creation",
            start,
        )
    }
}

#[test]
fn actual_daily_programs_share_uniqueness_and_survive_discontinuation() {
    let mut f = Fixture::new();
    let (a, b) = (key_of(20), key_of(21));
    f.deploy(a, b"daily lottery a");
    f.deploy(b, b"daily lottery b");
    let ra = f.register(a);
    let rb = f.register(b);
    f.advance();
    f.activate_release(ra, a);
    f.activate_release(rb, b);
    let unbound = DailyBinding {
        authority: f.admin,
        registry_program: [0; 32],
        registry_config: [0; 32],
        lottery_count: 0,
    };
    let mut authority = f.view(f.admin);
    authority.is_signer = true;
    let config_account = |program: Key| {
        let mut c = Fixture::empty(pda(&[b"config"], &program));
        c.owner = program;
        c.is_writable = true;
        c
    };
    let bind_accounts = |target: Key, rel: Key, f: &Fixture, authority: &AccountView| {
        vec![config_account(target), authority.clone(), f.view(f.program), f.view(f.cfg), f.view(rel)]
    };
    // The configuration must be the program's own `[config]` account.
    let mut elsewhere = bind_accounts(a, ra, &f, &authority);
    elsewhere[0] = Fixture::empty(key_of(60));
    elsewhere[0].owner = a;
    assert_eq!(
        daily_bind(&a, &elsewhere, &unbound),
        Err(chance_registry::daily::error::Error::InvalidSeeds)
    );
    let mut foreign = bind_accounts(a, ra, &f, &authority);
    foreign[0].owner = b;
    assert_eq!(
        daily_bind(&a, &foreign, &unbound),
        Err(chance_registry::daily::error::Error::IncorrectOwner)
    );
    // Only the configuration's authority binds, and only as a signer.
    let mut unsigned = bind_accounts(a, ra, &f, &authority);
    unsigned[1].is_signer = false;
    assert_eq!(
        daily_bind(&a, &unsigned, &unbound),
        Err(chance_registry::daily::error::Error::Unauthorized)
    );
    // A release of another program does not bind.
    assert_eq!(
        daily_bind(&a, &bind_accounts(a, rb, &f, &authority), &unbound),
        Err(chance_registry::daily::error::Error::InvalidAccountData)
    );
    let bound_a = daily_bind(&a, &bind_accounts(a, ra, &f, &authority), &unbound).unwrap();
    assert_eq!(bound_a.registry_program, f.program);
    assert_eq!(bound_a.registry_config, f.cfg);
    // Binding happens once.
    assert_eq!(
        daily_bind(&a, &bind_accounts(a, ra, &f, &authority), &bound_a),
        Err(chance_registry::daily::error::Error::Unauthorized)
    );
    let bound_b = daily_bind(&b, &bind_accounts(b, rb, &f, &authority), &unbound).unwrap();

    let start = 1_700_006_400i64;
    let lottery_a = f.instance(a, 1);
    // A creation that carries only the legacy accounts records nothing.
    let legacy = vec![
        f.view(f.program),
        f.view(f.cfg),
        f.view(ra),
        Fixture::empty(pda(&[b"chance-release", &f.cfg], &a)),
        Fixture::empty(pda(&[b"instance", &f.cfg, &1u64.to_le_bytes()], &f.program)),
    ];
    assert_eq!(
        chance_registry::daily::registry::record(
            &a,
            &bound_a,
            &lottery_a,
            &f.admin,
            &SYSTEM_PROGRAM,
            &legacy,
            b"lottery state at creation",
            start,
        )
        .err(),
        Some(chance_registry::daily::error::Error::MissingAccount)
    );
    let call = f.daily_record(a, &bound_a, ra, lottery_a, start).unwrap();
    assert_eq!(call.program, f.program);
    let found = Pubkey::find_program_address(&[b"chance-release", &f.cfg], &Pubkey::new_from_array(a));
    assert_eq!(call.signer_seeds, vec![b"chance-release".to_vec(), f.cfg.to_vec(), vec![found.1]]);
    assert_eq!(call.accounts[2].key, found.0.to_bytes());
    let mut bypass = call.clone();
    bypass.accounts.truncate(5);
    assert!(f.run_call(&bypass).is_err());
    assert_eq!(f.state().instance_count, 0);
    // Dust at a predictable address cannot deny the canonical creation.
    let day = (start as u64 / 86_400).to_le_bytes();
    let business = solana_sha256_hasher::hashv(&[b"chance-daily-key-v1", &[1; 32], &day]).to_bytes();
    let business_pda = pda(&[b"business", &f.cfg, &[DAILY], &business], &f.program);
    let mut dust = Fixture::empty(business_pda);
    dust.lamports = 1;
    f.accounts.insert(business_pda, dust);
    f.accounts.get_mut(&f.admin).unwrap().lamports -= 1;
    f.run_call(&call).unwrap();
    assert_eq!(f.state().instance_count, 1);
    let entry = pda(&[b"instance", &f.cfg, &1u64.to_le_bytes()], &f.program);
    let recorded = chance_registry::codec::decode_instance(&f.accounts[&entry].data).unwrap();
    assert_eq!(recorded.sequence, 1);
    assert_eq!(recorded.owner_program, a);
    assert_eq!(recorded.instance, lottery_a);
    assert_eq!(
        recorded.rules_hash,
        solana_sha256_hasher::hash(b"lottery state at creation").to_bytes()
    );

    // The other release of the same series cannot record the same day again.
    let lottery_b = f.instance(b, 2);
    let call = f.daily_record(b, &bound_b, rb, lottery_b, start + 3_601).unwrap();
    assert_eq!(f.run_call(&call), Err(Fault::Program(Error::Duplicate)));
    assert_eq!(f.state().instance_count, 1);
    // A new day is free.
    let call = f.daily_record(b, &bound_b, rb, lottery_b, start + 86_400).unwrap();
    f.run_call(&call).unwrap();
    assert_eq!(f.state().instance_count, 2);

    // A discontinued release records nothing more.
    f.lifecycle(ra, Instruction::Discontinue { reason: "new release".into() }, vec![], false)
        .unwrap();
    let call = f.daily_record(a, &bound_a, ra, lottery_a, start + 2 * 86_400).unwrap();
    assert_eq!(f.run_call(&call), Err(Fault::Program(Error::WrongState)));
    // Negative starts have no day.
    assert_eq!(
        f.daily_record(a, &bound_a, ra, lottery_a, -1).err(),
        Some(chance_registry::daily::error::Error::InvalidInstruction)
    );
}

#[test]
fn giveaway_nonces_are_unique_per_creator() {
    let mut f = Fixture::new();
    let g = key_of(30);
    f.deploy(g, b"giveaways");
    let rel = pda(&[b"release", &f.cfg, &g], &f.program);
    let executable_hash = f.deployed_hash(g);
    f.send(
        Instruction::Register { domain: GIVEAWAY, series: [3; 32], source_hash: [2; 32], executable_hash },
        vec![m(f.cfg, false), m(rel, false), m(f.admin, true), r(SYSTEM_PROGRAM), r(g)],
    )
    .unwrap();
    f.advance();
    f.activate_release(rel, g);
    let mut config_account = Fixture::empty(pda(&[b"config"], &g));
    config_account.owner = g;
    config_account.is_writable = true;
    let mut authority = f.view(f.admin);
    authority.is_signer = true;
    let ctx = BindRegistry {
        config_account,
        config: GiveawayBinding {
            authority: f.admin,
            registry_program: [0; 32],
            registry_config: [0; 32],
            next_giveaway_id: 1,
        },
        authority,
        registry_program: f.view(f.program),
        registry_config: f.view(f.cfg),
        release: f.view(rel),
    };
    assert_eq!(ctx.validate(&g), Ok(()));
    let mut foreign = ctx.clone();
    foreign.config_account.owner = f.program;
    assert_eq!(foreign.validate(&g), Err(AccountError::AccountOwnedByWrongProgram));
    let mut unsigned = ctx.clone();
    unsigned.authority.is_signer = false;
    assert_eq!(unsigned.validate(&g), Err(AccountError::AccountNotSigner));
    let mut elsewhere = ctx.clone();
    elsewhere.config_account.key = key_of(61);
    assert_eq!(elsewhere.validate(&g), Err(AccountError::ConstraintSeeds));
    let mut read_only = ctx.clone();
    read_only.config_account.is_writable = false;
    assert_eq!(read_only.validate(&g), Err(AccountError::ConstraintMut));
    let mut stranger = ctx.clone();
    stranger.authority = f.view(f.guardian);
    stranger.authority.is_signer = true;
    assert_eq!(stranger.validate(&g), Err(AccountError::ConstraintHasOne));
    let bound = giveaway_bind(&g, &ctx).unwrap();
    let late = BindRegistry { config: GiveawayBinding { next_giveaway_id: 2, ..ctx.config }, ..ctx.clone() };
    assert_eq!(giveaway_bind(&g, &late), Err(GiveawayError::InvalidInstruction));

    let signer = pda(&[b"chance-release", &f.cfg], &g);
    let state: &[u8] = b"giveaway state";
    let call_for = |f: &Fixture, giveaway: Key, nonce: u64| {
        let seq = (f.state().instance_count + 1).to_le_bytes();
        let key = solana_sha256_hasher::hashv(&[b"chance-giveaway-key-v1", &f.admin, &nonce.to_le_bytes()]).to_bytes();
        record(
            &g,
            &bound,
            &giveaway,
            &f.admin,
            &SYSTEM_PROGRAM,
            &f.view(f.program),
            &f.view(f.cfg),
            &f.view(rel),
            &signer,
            &pda(&[b"instance", &f.cfg, &seq], &f.program),
            &pda(&[b"business", &f.cfg, &[GIVEAWAY], &key], &f.program),
            state,
            nonce,
        )
    };
    let first = f.instance(g, 1);
    let call = call_for(&f, first, 7).unwrap();
    assert_eq!(call.program, f.program);
    assert_eq!(call.signer_seeds, vec![b"chance-release".to_vec(), f.cfg.to_vec(), vec![call.signer_bump]]);
    let found = Pubkey::find_program_address(&[b"chance-release", &f.cfg], &Pubkey::new_from_array(g));
    assert_eq!(call.signer_bump, found.1);
    f.run_call(&call).unwrap();
    let entry = pda(&[b"instance", &f.cfg, &1u64.to_le_bytes()], &f.program);
    let recorded = chance_registry::codec::decode_instance(&f.accounts[&entry].data).unwrap();
    let digest: [u8; 32] = {
        <sha2::Sha256 as sha2::Digest>::digest(state).into()
    };
    assert_eq!(recorded.rules_hash, digest);
    let second = f.instance(g, 2);
    let call = call_for(&f, second, 7).unwrap();
    assert_eq!(f.run_call(&call), Err(Fault::Program(Error::Duplicate)));
    let call = call_for(&f, second, 8).unwrap();
    f.run_call(&call).unwrap();
    assert_eq!(f.state().instance_count, 2);
    // A spoofed release signer is refused before any call.
    assert_eq!(
        record(
            &g, &bound, &second, &f.admin, &SYSTEM_PROGRAM, &f.view(f.program), &f.view(f.cfg),
            &f.view(rel), &[4; 32], &[5; 32], &[6; 32], state, 9,
        )
        .err(),
        Some(GiveawayError::InvalidInstruction)
    );
}

#[test]
fn prefunded_release_address_is_still_registered_and_identity_is_kept() {
    let mut f = Fixture::new();
    let target = f.program;
    let rel_key = pda(&[b"release", &f.cfg, &target], &f.program);
    let mut donated = Fixture::empty(rel_key);
    donated.lamports = 5;
    f.accounts.insert(rel_key, donated);
    let rel = f.register(target);
    assert_eq!(rel, rel_key);
    assert_eq!(f.accounts[&rel].lamports, rent(226));
    let before = f.release_state(rel);
    assert_eq!(before.sequence, 1);
    assert_eq!(before.status, REGISTERED);
    assert_eq!(f.state().release_count, 1);
    f.advance();
    f.activate_release(rel, target);
    f.lifecycle(rel, Instruction::Pause { reason: "hold".into() }, vec![], true)
        .unwrap();
    f.lifecycle(rel, Instruction::Discontinue { reason: "end".into() }, vec![], false)
        .unwrap();
    let after = f.release_state(rel);
    assert_eq!(after.sequence, before.sequence);
    assert_eq!(after.series, before.series);
    assert_eq!(after.program, before.program);
    assert_eq!(after.executable_hash, before.executable_hash);
    assert_eq!(after.status, DISCONTINUED);
    assert_eq!(f.state().record_count, 3);
    assert_eq!(f.state().release_count, 1);
    // A second registration of the same program is a duplicate.
    let admin = f.admin;
    let cfg = f.cfg;
    assert_eq!(
        f.send(
            Instruction::Register { domain: DAILY, series: [1; 32], source_hash: [2; 32], executable_hash: [3; 32] },
            vec![m(cfg, false), m(rel, false), m(admin, true), r(SYSTEM_PROGRAM), r(target)],
        ),
        Err(Fault::Program(Error::Duplicate))
    );
    // Unknown domains and zero hashes are refused.
    let other = key_of(50);
    f.deploy(other, b"other");
    let rel2 = pda(&[b"release", &cfg, &other], &f.program);
    assert_eq!(
        f.send(
            Instruction::Register { domain: 3, series: [1; 32], source_hash: [2; 32], executable_hash: [3; 32] },
            vec![m(cfg, false), m(rel2, false), m(admin, true), r(SYSTEM_PROGRAM), r(other)],
        ),
        Err(Fault::Program(Error::Invalid))
    );
    assert_eq!(
        f.send(
            Instruction::Register { domain: DAILY, series: [1; 32], source_hash: [0; 32], executable_hash: [3; 32] },
            vec![m(cfg, false), m(rel2, false), m(admin, true), r(SYSTEM_PROGRAM), r(other)],
        ),
        Err(Fault::Program(Error::Invalid))
    );
    let guardian = f.guardian;
    assert_eq!(
        f.send(
            Instruction::Register { domain: DAILY, series: [1; 32], source_hash: [2; 32], executable_hash: [3; 32] },
            vec![m(cfg, false), m(rel2, false), m(guardian, true), r(SYSTEM_PROGRAM), r(other)],
        ),
        Err(Fault::Program(Error::Unauthorized))
    );
}
