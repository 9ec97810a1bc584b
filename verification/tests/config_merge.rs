use vg_engine::config::{
    combine_config, parse_address, validate_concern, DEFAULT_MAX_DELAY, DEFAULT_WARN_DELAY,
};
use vg_engine::{
    Address, ConfigError, ConfigItem, Configuration, EnvCLIConfiguration, FileConfiguration,
    FullConcern,
};

fn empty_cli() -> EnvCLIConfiguration {
    EnvCLIConfiguration {
        config_path: None,
        url: None,
        testing: None,
        max_delay: None,
        warn_delay: None,
        main_concern_contract: None,
        main_concern_user: None,
        main_concern_abi: None,
        working_path: None,
    }
}

fn full_concern(contract: u64, user: u64, abi: &str) -> FullConcern {
    FullConcern {
        contract_address: Address { hi: 0, mid: 0, lo: contract },
        user_address: Address { hi: 0, mid: 0, lo: user },
        abi: abi.to_string(),
    }
}

fn base_file() -> FileConfiguration {
    FileConfiguration {
        url: Some("file-url".to_string()),
        testing: None,
        max_delay: None,
        warn_delay: None,
        main_concern: Some(full_concern(1, 2, "main.json")),
        concerns: vec![],
        working_path: Some("/work".to_string()),
    }
}

fn resolve(
    cli: EnvCLIConfiguration,
    env: EnvCLIConfiguration,
    file: FileConfiguration,
) -> Result<Configuration, ConfigError> {
    Configuration::from_sources(cli, env, file)
}

#[test]
fn parse_address_reads_forty_hex_digits() {
    let a = parse_address("00000000000000000000000000000000000000ff").unwrap();
    assert_eq!(a, Address { hi: 0, mid: 0, lo: 0xff });
    let b = parse_address("0102030405060708090a0b0c0d0e0f1011121314").unwrap();
    assert_eq!(
        b,
        Address { hi: 0x01020304, mid: 0x05060708090a0b0c, lo: 0x0d0e0f1011121314 }
    );
    let c = parse_address("ABCDEF0000000000000000000000000000000000").unwrap();
    assert_eq!(c.hi, 0xabcdef00);
}

#[test]
fn parse_address_rejects_bad_input() {
    assert_eq!(parse_address(""), None);
    assert_eq!(parse_address("123"), None);
    assert_eq!(parse_address("zz000000000000000000000000000000000000ff"), None);
    assert_eq!(parse_address("00000000000000000000000000000000000000f"), None);
    assert_eq!(parse_address("00000000000000000000000000000000000000ff0"), None);
}

#[test]
fn validate_concern_accepts_all_or_nothing() {
    assert_eq!(validate_concern(None, None, None), Ok(None));
    let fc = validate_concern(
        Some("0x00000000000000000000000000000000000000aa".to_string()),
        Some("0x00000000000000000000000000000000000000bb".to_string()),
        Some("abi.json".to_string()),
    )
    .unwrap()
    .unwrap();
    assert_eq!(fc.contract_address, Address { hi: 0, mid: 0, lo: 0xaa });
    assert_eq!(fc.user_address, Address { hi: 0, mid: 0, lo: 0xbb });
    assert_eq!(fc.abi, "abi.json");
}

#[test]
fn validate_concern_rejects_partial_and_bad_input() {
    assert_eq!(
        validate_concern(None, Some("0xbb".to_string()), None),
        Err(ConfigError::IncompleteConcern(ConfigItem::ConcernContract))
    );
    assert_eq!(
        validate_concern(
            Some("nonsense".to_string()),
            Some("0xbb".to_string()),
            Some("a".to_string())
        ),
        Err(ConfigError::BadAddress(ConfigItem::ConcernContract))
    );
    assert_eq!(
        validate_concern(
            Some("0x00000000000000000000000000000000000000aa".to_string()),
            None,
            Some("a".to_string())
        ),
        Err(ConfigError::IncompleteConcern(ConfigItem::ConcernUser))
    );
    assert_eq!(
        validate_concern(
            Some("0x00000000000000000000000000000000000000aa".to_string()),
            Some("0xshort".to_string()),
            Some("a".to_string())
        ),
        Err(ConfigError::BadAddress(ConfigItem::ConcernUser))
    );
    assert_eq!(
        validate_concern(
            Some("0x00000000000000000000000000000000000000aa".to_string()),
            Some("0x00000000000000000000000000000000000000bb".to_string()),
            None
        ),
        Err(ConfigError::IncompleteConcern(ConfigItem::ConcernAbi))
    );
}

#[test]
fn url_is_required_from_some_source() {
    let mut file = base_file();
    file.url = None;
    assert_eq!(
        resolve(empty_cli(), empty_cli(), file),
        Err(ConfigError::Missing(ConfigItem::Url))
    );
}

#[test]
fn working_path_is_required_from_some_source() {
    let mut file = base_file();
    file.working_path = None;
    assert_eq!(
        resolve(empty_cli(), empty_cli(), file),
        Err(ConfigError::Missing(ConfigItem::WorkingPath))
    );
}

#[test]
fn main_concern_is_required_from_some_source() {
    let mut file = base_file();
    file.main_concern = None;
    assert_eq!(
        resolve(empty_cli(), empty_cli(), file),
        Err(ConfigError::Missing(ConfigItem::MainConcern))
    );
}

#[test]
fn cli_takes_precedence_over_env_and_file() {
    let mut cli = empty_cli();
    cli.url = Some("cli-url".to_string());
    cli.max_delay = Some(900);
    let mut env = empty_cli();
    env.url = Some("env-url".to_string());
    env.testing = Some(true);
    let config = resolve(cli, env, base_file()).unwrap();
    assert_eq!(config.url, "cli-url");
    assert!(config.testing);
    assert_eq!(config.max_delay, 900);
    assert_eq!(config.warn_delay, DEFAULT_WARN_DELAY);
    assert_eq!(config.working_path, "/work");
}

#[test]
fn defaults_apply_when_no_source_gives_a_value() {
    let config = resolve(empty_cli(), empty_cli(), base_file()).unwrap();
    assert_eq!(config.url, "file-url");
    assert!(!config.testing);
    assert_eq!(config.max_delay, DEFAULT_MAX_DELAY);
    assert_eq!(config.warn_delay, DEFAULT_WARN_DELAY);
}

#[test]
fn cli_main_concern_wins_over_file() {
    let mut cli = empty_cli();
    cli.main_concern_contract = Some("0x00000000000000000000000000000000000000cc".to_string());
    cli.main_concern_user = Some("0x00000000000000000000000000000000000000dd".to_string());
    cli.main_concern_abi = Some("cli.json".to_string());
    let config = resolve(cli, empty_cli(), base_file()).unwrap();
    assert_eq!(config.main_concern.contract_address, Address { hi: 0, mid: 0, lo: 0xcc });
    assert_eq!(config.main_concern.user_address, Address { hi: 0, mid: 0, lo: 0xdd });
}

#[test]
fn concerns_list_is_file_concerns_then_main() {
    let mut file = base_file();
    file.concerns = vec![full_concern(10, 11, "a.json"), full_concern(12, 13, "b.json")];
    let config = resolve(empty_cli(), empty_cli(), file).unwrap();
    assert_eq!(config.concerns.len(), 3);
    assert_eq!(config.concerns[0].contract_address.lo, 10);
    assert_eq!(config.concerns[1].contract_address.lo, 12);
    assert_eq!(config.concerns[2].contract_address.lo, 1);
    assert_eq!(config.abis.len(), 3);
    assert_eq!(config.abis[0].1.abi, "a.json");
    assert_eq!(config.abis[2].1.abi, "main.json");
}

#[test]
fn abi_table_keeps_one_entry_per_concern_with_the_last_path() {
    let mut file = base_file();
    // the same concern twice, then once more as the main concern
    file.concerns = vec![full_concern(1, 2, "old.json"), full_concern(1, 2, "new.json")];
    let config = resolve(empty_cli(), empty_cli(), file).unwrap();
    // three insertions of one key leave a single entry, in first position,
    // with the path of the last insertion (the main concern's)
    assert_eq!(config.abis.len(), 1);
    assert_eq!(config.abis[0].1.abi, "main.json");
    // the concern list itself keeps every insertion
    assert_eq!(config.concerns.len(), 3);
}

#[test]
fn delays_must_be_compatible() {
    let mut cli = empty_cli();
    cli.max_delay = Some(50);
    cli.warn_delay = Some(100);
    assert_eq!(
        resolve(cli, empty_cli(), base_file()),
        Err(ConfigError::DelayMismatch)
    );
    let mut cli2 = empty_cli();
    cli2.max_delay = Some(100);
    cli2.warn_delay = Some(100);
    assert!(resolve(cli2, empty_cli(), base_file()).is_ok());
}

#[test]
fn combine_config_itself_skips_the_delay_check() {
    let mut cli = empty_cli();
    cli.max_delay = Some(50);
    cli.warn_delay = Some(100);
    let config = combine_config(cli, empty_cli(), base_file()).unwrap();
    assert_eq!(config.max_delay, 50);
    assert_eq!(config.warn_delay, 100);
}
