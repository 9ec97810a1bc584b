//! The pure core of configuration handling: validating a concern given as
//! strings, and merging the command-line, environment and file
//! configurations by precedence.  Reading those three sources is I/O and
//! stays outside the library; this module decides what they mean.

use vstd::prelude::*;
use vstd::string::StrSliceExecFns;
use crate::values::{Address, Concern, address_bytes, u32_from_be, u64_from_be};

verus! {

/// Default for the maximal acceptable node delay, in seconds.
pub const DEFAULT_MAX_DELAY: u64 = 500;

/// Default for the node delay that should trigger warnings, in seconds.
pub const DEFAULT_WARN_DELAY: u64 = 100;

/// A concern together with the path of the contract's ABI file.
#[derive(Clone, Debug, PartialEq, Eq)]
pub struct FullConcern {
    pub contract_address: Address,
    pub user_address: Address,
    pub abi: String,
}

/// Ghost form of a full concern.
pub struct FullConcernView {
    pub contract_address: Address,
    pub user_address: Address,
    pub abi: Seq<char>,
}

impl View for FullConcern {
    type V = FullConcernView;

    open spec fn view(&self) -> FullConcernView {
        FullConcernView {
            contract_address: self.contract_address,
            user_address: self.user_address,
            abi: self.abi@,
        }
    }
}

/// The concern a full concern names.
pub open spec fn concern_of(fc: FullConcernView) -> Concern {
    Concern { contract_address: fc.contract_address, user_address: fc.user_address }
}

impl FullConcern {
    /// Drops the ABI path, keeping the concern itself.
    pub fn to_concern(&self) -> (r: Concern)
        ensures
            r == concern_of(self@),
    {
        Concern { contract_address: self.contract_address, user_address: self.user_address }
    }
}

/// Path of a contract's ABI file.
#[derive(Clone, Debug, PartialEq, Eq)]
pub struct ConcernAbi {
    pub abi: String,
}

/// Configuration as parsed from CLI arguments or from the environment;
/// every item optional, addresses still in their string form.
#[derive(Clone, Debug)]
pub struct EnvCLIConfiguration {
    pub config_path: Option<String>,
    pub url: Option<String>,
    pub testing: Option<bool>,
    pub max_delay: Option<u64>,
    pub warn_delay: Option<u64>,
    pub main_concern_contract: Option<String>,
    pub main_concern_user: Option<String>,
    pub main_concern_abi: Option<String>,
    pub working_path: Option<String>,
}

/// Configuration as parsed from the configuration file.
#[derive(Clone, Debug)]
pub struct FileConfiguration {
    pub url: Option<String>,
    pub testing: Option<bool>,
    pub max_delay: Option<u64>,
    pub warn_delay: Option<u64>,
    pub main_concern: Option<FullConcern>,
    pub concerns: Vec<FullConcern>,
    pub working_path: Option<String>,
}

/// Configuration after merging; delays are in seconds.
#[derive(Clone, Debug, PartialEq, Eq)]
pub struct Configuration {
    pub url: String,
    pub testing: bool,
    pub max_delay: u64,
    pub warn_delay: u64,
    pub main_concern: Concern,
    pub concerns: Vec<Concern>,
    pub working_path: String,
    /// The ABI path of each concern; keys unique, first insertion keeps its
    /// place, a later insertion for the same concern replaces the path.
    pub abis: Vec<(Concern, ConcernAbi)>,
}

/// Ghost form of a merged configuration.
pub struct ConfigurationView {
    pub url: Seq<char>,
    pub testing: bool,
    pub max_delay: u64,
    pub warn_delay: u64,
    pub main_concern: Concern,
    pub concerns: Seq<Concern>,
    pub working_path: Seq<char>,
    pub abis: Seq<(Concern, Seq<char>)>,
}

/// Ghost form of an ABI table.
pub open spec fn abis_view(s: Seq<(Concern, ConcernAbi)>) -> Seq<(Concern, Seq<char>)> {
    s.map_values(|p: (Concern, ConcernAbi)| (p.0, p.1.abi@))
}

impl View for Configuration {
    type V = ConfigurationView;

    open spec fn view(&self) -> ConfigurationView {
        ConfigurationView {
            url: self.url@,
            testing: self.testing,
            max_delay: self.max_delay,
            warn_delay: self.warn_delay,
            main_concern: self.main_concern,
            concerns: self.concerns@,
            working_path: self.working_path@,
            abis: abis_view(self.abis@),
        }
    }
}

/// Which configuration item a fault concerns.
#[derive(Clone, Copy, Debug, PartialEq, Eq, Structural)]
pub enum ConfigItem {
    Url,
    WorkingPath,
    MainConcern,
    ConcernContract,
    ConcernUser,
    ConcernAbi,
}

/// An invalid or incomplete configuration.
#[derive(Clone, Copy, Debug, PartialEq, Eq, Structural)]
pub enum ConfigError {
    /// A required item was provided by no source.
    Missing(ConfigItem),
    /// A concern was given some of its parts, but not this one.
    IncompleteConcern(ConfigItem),
    /// This item's address string is not a valid address.
    BadAddress(ConfigItem),
    /// The maximal delay should be no smaller than the warning delay.
    DelayMismatch,
}

/// The value of a hexadecimal digit, if the character is one.
pub open spec fn hex_val(c: char) -> Option<u8> {
    let v = c as u32;
    if 48 <= v && v <= 57 {
        Some((v - 48) as u8)
    } else if 97 <= v && v <= 102 {
        Some((v - 87) as u8)
    } else if 65 <= v && v <= 70 {
        Some((v - 55) as u8)
    } else {
        None
    }
}

/// The value of a hexadecimal digit.
fn hex_digit(c: char) -> (r: Option<u8>)
    ensures
        r == hex_val(c),
{
    let v = c as u32;
    if 48 <= v && v <= 57 {
        Some((v - 48) as u8)
    } else if 97 <= v && v <= 102 {
        Some((v - 87) as u8)
    } else if 65 <= v && v <= 70 {
        Some((v - 55) as u8)
    } else {
        None
    }
}

/// Whether the tag is exactly 40 hexadecimal digits.
pub open spec fn address_hex_valid(s: Seq<char>) -> bool {
    s.len() == 40 && forall|i: int| 0 <= i < 40 ==> #[trigger] hex_val(s[i]) is Some
}

/// The 20 bytes named by 40 hexadecimal digits, two digits a byte.
pub open spec fn address_hex_bytes(s: Seq<char>) -> Seq<u8> {
    Seq::new(20, |i: int| ((hex_val(s[2 * i]).unwrap() * 16 + hex_val(s[2 * i + 1]).unwrap()) as u8))
}

/// The address the digits of a stripped tag name, as a ghost value.
pub open spec fn address_of_hex(s: Seq<char>) -> Address {
    let b = address_hex_bytes(s);
    Address {
        hi: u32_from_be(b[0], b[1], b[2], b[3]),
        mid: u64_from_be(b[4], b[5], b[6], b[7], b[8], b[9], b[10], b[11]),
        lo: u64_from_be(b[12], b[13], b[14], b[15], b[16], b[17], b[18], b[19]),
    }
}

/// The string with every leading `0x` removed, as address strings commonly
/// carry one.
pub open spec fn strip0x(s: Seq<char>) -> Seq<char>
    decreases s.len(),
{
    if s.len() >= 2 && s[0] == '0' && s[1] == 'x' {
        strip0x(s.skip(2))
    } else {
        s
    }
}

/// Removes every leading `0x` from the string.
fn strip_hex_prefix(s: &str) -> (r: &str)
    ensures
        r@ == strip0x(s@),
{
    let mut t: &str = s;
    loop
        invariant
            strip0x(t@) == strip0x(s@),
        decreases t@.len(),
    {
        let n = t.unicode_len();
        if n >= 2 && t.get_char(0) == '0' && t.get_char(1) == 'x' {
            let rest = t.substring_char(2, n);
            proof {
                assert(rest@ =~= t@.skip(2));
            }
            t = rest;
        } else {
            return t;
        }
    }
}

/// Parses exactly 40 hexadecimal digits into an address: the unique address
/// whose 20 big-endian bytes the digits name.  Anything else is rejected.
#[verifier::rlimit(100)]
pub fn parse_address(s: &str) -> (r: Option<Address>)
    ensures
        r is Some <==> address_hex_valid(s@),
        r is Some ==> r.unwrap() == address_of_hex(s@),
        r is Some ==> address_bytes(r.unwrap()) == address_hex_bytes(s@),
{
    let n = s.unicode_len();
    if n != 40 {
        return None;
    }
    let mut bytes: Vec<u8> = Vec::new();
    let mut i: usize = 0;
    while i < 20
        invariant
            s@.len() == 40,
            i <= 20,
            bytes@.len() == i,
            forall|j: int| 0 <= j < 2 * i ==> #[trigger] hex_val(s@[j]) is Some,
            forall|j: int| 0 <= j < i ==> bytes@[j] == address_hex_bytes(s@)[j],
        decreases 20 - i,
    {
        let hc = s.get_char(2 * i);
        let lc = s.get_char(2 * i + 1);
        let h = match hex_digit(hc) {
            Some(h) => h,
            None => {
                proof {
                    assert(hex_val(s@[2 * i]) is None);
                }
                return None;
            },
        };
        let l = match hex_digit(lc) {
            Some(l) => l,
            None => {
                proof {
                    assert(hex_val(s@[2 * i + 1]) is None);
                }
                return None;
            },
        };
        let b = ((h as u32) * 16 + (l as u32)) as u8;
        proof {
            assert(address_hex_bytes(s@)[i as int] == ((hex_val(s@[2 * i]).unwrap() * 16 + hex_val(
                s@[2 * i + 1],
            ).unwrap()) as u8));
        }
        bytes.push(b);
        i += 1;
    }
    let slice = bytes.as_slice();
    proof {
        assert(slice@ =~= address_hex_bytes(s@));
    }
    let r = Address {
        hi: crate::values::read_u32_be(slice, 0),
        mid: crate::values::read_u64_be(slice, 4),
        lo: crate::values::read_u64_be(slice, 12),
    };
    proof {
        crate::values::lemma_u32_be_roundtrip(slice@[0], slice@[1], slice@[2], slice@[3]);
        crate::values::lemma_u64_be_roundtrip(slice@[4], slice@[5], slice@[6], slice@[7],
            slice@[8], slice@[9], slice@[10], slice@[11]);
        crate::values::lemma_u64_be_roundtrip(slice@[12], slice@[13], slice@[14], slice@[15],
            slice@[16], slice@[17], slice@[18], slice@[19]);
        assert(address_bytes(r) =~= address_hex_bytes(s@));
    }
    Some(r)
}

/// Ghost description of concern validation: all three parts absent means no
/// concern, any part present demands all of them, the two addresses must
/// parse after their `0x` prefix is removed.  Faults are reported in
/// reading order: the contract's presence and parse first, then the
/// user's, then the ABI's presence.
pub open spec fn validate_concern_spec(
    contract: Option<String>,
    user: Option<String>,
    abi: Option<String>,
) -> Result<Option<FullConcernView>, ConfigError> {
    if contract is None && user is None && abi is None {
        Ok(None)
    } else if contract is None {
        Err(ConfigError::IncompleteConcern(ConfigItem::ConcernContract))
    } else if !address_hex_valid(strip0x(contract.unwrap()@)) {
        Err(ConfigError::BadAddress(ConfigItem::ConcernContract))
    } else if user is None {
        Err(ConfigError::IncompleteConcern(ConfigItem::ConcernUser))
    } else if !address_hex_valid(strip0x(user.unwrap()@)) {
        Err(ConfigError::BadAddress(ConfigItem::ConcernUser))
    } else if abi is None {
        Err(ConfigError::IncompleteConcern(ConfigItem::ConcernAbi))
    } else {
        Ok(Some(FullConcernView {
            contract_address: address_of_hex(strip0x(contract.unwrap()@)),
            user_address: address_of_hex(strip0x(user.unwrap()@)),
            abi: abi.unwrap()@,
        }))
    }
}

/// Checks that a concern given as strings is well formed: either all three
/// parts are present and the addresses parse, or none is given.
pub fn validate_concern(contract: Option<String>, user: Option<String>, abi: Option<String>) -> (r:
    Result<Option<FullConcern>, ConfigError>)
    ensures
        match (r, validate_concern_spec(contract, user, abi)) {
            (Ok(None), Ok(fv)) => fv is None,
            (Ok(Some(fc)), Ok(fv)) => fv is Some && fc@ == fv.unwrap(),
            (Err(e), Err(ev)) => e == ev,
            _ => false,
        },
{
    if contract.is_none() && user.is_none() && abi.is_none() {
        return Ok(None);
    }
    let contract_s = match contract {
        Some(c) => c,
        None => {
            return Err(ConfigError::IncompleteConcern(ConfigItem::ConcernContract));
        },
    };
    let contract_address = match parse_address(strip_hex_prefix(contract_s.as_str())) {
        Some(a) => a,
        None => {
            return Err(ConfigError::BadAddress(ConfigItem::ConcernContract));
        },
    };
    let user_s = match user {
        Some(u) => u,
        None => {
            return Err(ConfigError::IncompleteConcern(ConfigItem::ConcernUser));
        },
    };
    let user_address = match parse_address(strip_hex_prefix(user_s.as_str())) {
        Some(a) => a,
        None => {
            return Err(ConfigError::BadAddress(ConfigItem::ConcernUser));
        },
    };
    let abi_s = match abi {
        Some(a) => a,
        None => {
            return Err(ConfigError::IncompleteConcern(ConfigItem::ConcernAbi));
        },
    };
    Ok(Some(FullConcern { contract_address, user_address, abi: abi_s }))
}

/// The first given value among up to three sources, in precedence order.
pub open spec fn first_of<T>(a: Option<T>, b: Option<T>, c: Option<T>) -> Option<T> {
    if a is Some {
        a
    } else if b is Some {
        b
    } else {
        c
    }
}

/// An ABI table with this concern bound to this path: a present key keeps
/// its place and gets the new path, an absent one is appended.
pub open spec fn insert_abi(s: Seq<(Concern, Seq<char>)>, c: Concern, a: Seq<char>) -> Seq<
    (Concern, Seq<char>),
>
    decreases s.len(),
{
    if s.len() == 0 {
        seq![(c, a)]
    } else if s[0].0 == c {
        seq![(c, a)] + s.skip(1)
    } else {
        seq![s[0]] + insert_abi(s.skip(1), c, a)
    }
}

/// The ABI table the file's concern list builds up, insertion by insertion.
pub open spec fn abis_of(fulls: Seq<FullConcernView>) -> Seq<(Concern, Seq<char>)>
    decreases fulls.len(),
{
    if fulls.len() == 0 {
        Seq::empty()
    } else {
        insert_abi(abis_of(fulls.drop_last()), concern_of(fulls.last()), fulls.last().abi)
    }
}

proof fn lemma_insert_abi_at(s: Seq<(Concern, Seq<char>)>, c: Concern, a: Seq<char>, j: int)
    requires
        0 <= j < s.len(),
        s[j].0 == c,
        forall|k: int| 0 <= k < j ==> (#[trigger] s[k]).0 != c,
    ensures
        insert_abi(s, c, a) == s.update(j, (c, a)),
    decreases j,
{
    if j == 0 {
        assert(insert_abi(s, c, a) =~= s.update(0, (c, a)));
    } else {
        lemma_insert_abi_at(s.skip(1), c, a, j - 1);
        assert(insert_abi(s, c, a) =~= s.update(j, (c, a)));
    }
}

proof fn lemma_insert_abi_missing(s: Seq<(Concern, Seq<char>)>, c: Concern, a: Seq<char>)
    requires
        forall|k: int| 0 <= k < s.len() ==> (#[trigger] s[k]).0 != c,
    ensures
        insert_abi(s, c, a) == s.push((c, a)),
    decreases s.len(),
{
    if s.len() == 0 {
        assert(insert_abi(s, c, a) =~= s.push((c, a)));
    } else {
        lemma_insert_abi_missing(s.skip(1), c, a);
        assert(insert_abi(s, c, a) =~= s.push((c, a)));
    }
}

/// Binds a concern to an ABI path in the table, replacing the path of a
/// concern already present.
fn insert_abi_entry(v: &mut Vec<(Concern, ConcernAbi)>, c: Concern, a: ConcernAbi)
    ensures
        abis_view(final(v)@) == insert_abi(abis_view(old(v)@), c, a.abi@),
{
    let ghost orig = old(v)@;
    let mut j: usize = 0;
    #[verifier::loop_isolation(false)]
    while j < v.len()
        invariant
            v@ == orig,
            j <= orig.len(),
            forall|k: int| 0 <= k < j ==> (#[trigger] orig[k]).0 != c,
        decreases orig.len() - j,
    {
        if v[j].0 == c {
            let ghost ga = a.abi@;
            v.set(j, (c, a));
            proof {
                assert forall|k: int| 0 <= k < j implies (#[trigger] abis_view(orig)[k]).0 != c by {
                    assert(abis_view(orig)[k] == (orig[k].0, orig[k].1.abi@));
                }
                lemma_insert_abi_at(abis_view(orig), c, ga, j as int);
                assert(abis_view(v@) =~= abis_view(orig).update(j as int, (c, ga)));
                assert(abis_view(v@) == insert_abi(abis_view(orig), c, ga));
            }
            return;
        }
        j += 1;
    }
    let ghost ga = a.abi@;
    v.push((c, a));
    proof {
        assert forall|k: int| 0 <= k < orig.len() implies (#[trigger] abis_view(orig)[k]).0 != c by {
            assert(abis_view(orig)[k] == (orig[k].0, orig[k].1.abi@));
        }
        lemma_insert_abi_missing(abis_view(orig), c, ga);
        assert(abis_view(v@) =~= abis_view(orig).push((c, ga)));
    }
}

/// The ghost forms of a list of full concerns.
pub open spec fn views_of_concerns(s: Seq<FullConcern>) -> Seq<FullConcernView> {
    s.map_values(|fc: FullConcern| fc@)
}

/// The concerns a list of full concerns names, in order.
pub open spec fn concerns_of(s: Seq<FullConcernView>) -> Seq<Concern> {
    s.map_values(|fv: FullConcernView| concern_of(fv))
}

/// The file's main-concern option, as a ghost value.
pub open spec fn main_concern_view(m: Option<FullConcern>) -> Option<FullConcernView> {
    match m {
        Some(fc) => Some(fc@),
        None => None,
    }
}

/// Ghost description of merging the three configuration sources, in
/// precedence order CLI, then environment, then file.  `url` and the
/// working path are required from some source; `testing` defaults to off
/// and the delays to their named defaults; the main concern is taken from
/// the CLI triple, else the environment triple, else the file, and is
/// required; the concern list is the file's list with the main concern
/// appended; the ABI table binds each of those concerns, in order, to its
/// ABI path, the main concern bound last.
pub open spec fn combine_config_spec(
    cli: EnvCLIConfiguration,
    env: EnvCLIConfiguration,
    file: FileConfiguration,
) -> Result<ConfigurationView, ConfigError> {
    if first_of(cli.url, env.url, file.url) is None {
        Err(ConfigError::Missing(ConfigItem::Url))
    } else if first_of(cli.working_path, env.working_path, file.working_path) is None {
        Err(ConfigError::Missing(ConfigItem::WorkingPath))
    } else {
        match validate_concern_spec(cli.main_concern_contract, cli.main_concern_user, cli.main_concern_abi) {
            Err(e) => Err(e),
            Ok(cli_main) => match validate_concern_spec(
                env.main_concern_contract,
                env.main_concern_user,
                env.main_concern_abi,
            ) {
                Err(e) => Err(e),
                Ok(env_main) => {
                    if first_of(cli_main, env_main, main_concern_view(file.main_concern)) is None {
                        Err(ConfigError::Missing(ConfigItem::MainConcern))
                    } else {
                        let main = first_of(cli_main, env_main, main_concern_view(file.main_concern)).unwrap();
                        let fulls = views_of_concerns(file.concerns@);
                        Ok(ConfigurationView {
                            url: first_of(cli.url, env.url, file.url).unwrap()@,
                            testing: match first_of(cli.testing, env.testing, file.testing) {
                                Some(t) => t,
                                None => false,
                            },
                            max_delay: match first_of(cli.max_delay, env.max_delay, file.max_delay) {
                                Some(d) => d,
                                None => DEFAULT_MAX_DELAY,
                            },
                            warn_delay: match first_of(cli.warn_delay, env.warn_delay, file.warn_delay) {
                                Some(d) => d,
                                None => DEFAULT_WARN_DELAY,
                            },
                            main_concern: concern_of(main),
                            concerns: concerns_of(fulls).push(concern_of(main)),
                            working_path: first_of(cli.working_path, env.working_path, file.working_path).unwrap()@,
                            abis: insert_abi(abis_of(fulls), concern_of(main), main.abi),
                        })
                    }
                },
            },
        }
    }
}

/// Relates an executable configuration result to its ghost description.
pub open spec fn config_matches(r: Result<Configuration, ConfigError>, m: Result<
    ConfigurationView,
    ConfigError,
>) -> bool {
    match (r, m) {
        (Ok(c), Ok(v)) => c@ == v,
        (Err(e), Err(ev)) => e == ev,
        _ => false,
    }
}

/// Merges the three configuration sources by precedence: CLI, then
/// environment, then file.
pub fn combine_config(
    cli: EnvCLIConfiguration,
    env: EnvCLIConfiguration,
    file: FileConfiguration,
) -> (r: Result<Configuration, ConfigError>)
    ensures
        config_matches(r, combine_config_spec(cli, env, file)),
{
    let ghost gcli = cli;
    let ghost genv = env;
    let ghost gfile = file;
    let url = match first_of_string(cli.url, env.url, file.url) {
        Some(u) => u,
        None => {
            return Err(ConfigError::Missing(ConfigItem::Url));
        },
    };
    let working_path = match first_of_string(cli.working_path, env.working_path, file.working_path) {
        Some(w) => w,
        None => {
            return Err(ConfigError::Missing(ConfigItem::WorkingPath));
        },
    };
    let cli_main = match validate_concern(
        cli.main_concern_contract,
        cli.main_concern_user,
        cli.main_concern_abi,
    ) {
        Ok(m) => m,
        Err(e) => {
            return Err(e);
        },
    };
    let env_main = match validate_concern(
        env.main_concern_contract,
        env.main_concern_user,
        env.main_concern_abi,
    ) {
        Ok(m) => m,
        Err(e) => {
            return Err(e);
        },
    };
    let main = match first_of_concern(cli_main, env_main, file.main_concern) {
        Some(m) => m,
        None => {
            return Err(ConfigError::Missing(ConfigItem::MainConcern));
        },
    };
    let testing = match first_of_bool(cli.testing, env.testing, file.testing) {
        Some(t) => t,
        None => false,
    };
    let max_delay = match first_of_u64(cli.max_delay, env.max_delay, file.max_delay) {
        Some(d) => d,
        None => DEFAULT_MAX_DELAY,
    };
    let warn_delay = match first_of_u64(cli.warn_delay, env.warn_delay, file.warn_delay) {
        Some(d) => d,
        None => DEFAULT_WARN_DELAY,
    };
    let ghost fulls = views_of_concerns(gfile.concerns@);
    let mut concerns: Vec<Concern> = Vec::new();
    let mut abis: Vec<(Concern, ConcernAbi)> = Vec::new();
    let file_concerns = file.concerns;
    let mut i: usize = 0;
    while i < file_concerns.len()
        invariant
            file_concerns@ == gfile.concerns@,
            fulls == views_of_concerns(gfile.concerns@),
            i <= file_concerns@.len(),
            concerns@ == concerns_of(fulls.subrange(0, i as int)),
            abis_view(abis@) == abis_of(fulls.subrange(0, i as int)),
        decreases file_concerns@.len() - i,
    {
        let fc = &file_concerns[i];
        concerns.push(fc.to_concern());
        insert_abi_entry(&mut abis, fc.to_concern(), ConcernAbi { abi: fc.abi.clone() });
        proof {
            assert(fulls.subrange(0, i + 1).drop_last() =~= fulls.subrange(0, i as int));
            assert(fulls.subrange(0, i + 1).last() == gfile.concerns@[i as int]@);
            assert(concerns@ =~= concerns_of(fulls.subrange(0, i + 1)));
        }
        i += 1;
    }
    concerns.push(main.to_concern());
    insert_abi_entry(&mut abis, main.to_concern(), ConcernAbi { abi: main.abi.clone() });
    let r = Configuration {
        url,
        testing,
        max_delay,
        warn_delay,
        main_concern: main.to_concern(),
        concerns,
        working_path,
        abis,
    };
    proof {
        assert(fulls.subrange(0, fulls.len() as int) =~= fulls);
        assert(r@.concerns =~= concerns_of(fulls).push(concern_of(main@)));
    }
    Ok(r)
}

/// The delays are compatible when warnings come no later than the maximum.
pub open spec fn delays_compatible(v: ConfigurationView) -> bool {
    v.max_delay >= v.warn_delay
}

/// Ghost description of full configuration resolution: the merge of the
/// three sources, rejected when the maximal delay is smaller than the
/// warning delay.
pub open spec fn resolve_config_spec(
    cli: EnvCLIConfiguration,
    env: EnvCLIConfiguration,
    file: FileConfiguration,
) -> Result<ConfigurationView, ConfigError> {
    match combine_config_spec(cli, env, file) {
        Err(e) => Err(e),
        Ok(v) => if !delays_compatible(v) {
            Err(ConfigError::DelayMismatch)
        } else {
            Ok(v)
        },
    }
}

impl Configuration {
    /// The pure part of configuration start-up: merges the already-read
    /// sources and checks that the delays are compatible.  Reading the CLI,
    /// the environment and the file is the caller's I/O.
    pub fn from_sources(
        cli: EnvCLIConfiguration,
        env: EnvCLIConfiguration,
        file: FileConfiguration,
    ) -> (r: Result<Configuration, ConfigError>)
        ensures
            config_matches(r, resolve_config_spec(cli, env, file)),
    {
        let c = match combine_config(cli, env, file) {
            Ok(c) => c,
            Err(e) => {
                return Err(e);
            },
        };
        if c.max_delay < c.warn_delay {
            return Err(ConfigError::DelayMismatch);
        }
        Ok(c)
    }
}

/// The first given string among up to three sources.
fn first_of_string(a: Option<String>, b: Option<String>, c: Option<String>) -> (r: Option<String>)
    ensures
        r == first_of(a, b, c),
{
    match a {
        Some(v) => Some(v),
        None => match b {
            Some(v) => Some(v),
            None => c,
        },
    }
}

/// The first given flag among up to three sources.
fn first_of_bool(a: Option<bool>, b: Option<bool>, c: Option<bool>) -> (r: Option<bool>)
    ensures
        r == first_of(a, b, c),
{
    match a {
        Some(v) => Some(v),
        None => match b {
            Some(v) => Some(v),
            None => c,
        },
    }
}

/// The first given number among up to three sources.
fn first_of_u64(a: Option<u64>, b: Option<u64>, c: Option<u64>) -> (r: Option<u64>)
    ensures
        r == first_of(a, b, c),
{
    match a {
        Some(v) => Some(v),
        None => match b {
            Some(v) => Some(v),
            None => c,
        },
    }
}

/// The first given concern among the CLI's, the environment's and the
/// file's, as full concerns.
fn first_of_concern(a: Option<FullConcern>, b: Option<FullConcern>, c: Option<FullConcern>) -> (r:
    Option<FullConcern>)
    ensures
        match r {
            Some(fc) => first_of(main_concern_view(a), main_concern_view(b), main_concern_view(c))
                == Some(fc@),
            None => first_of(main_concern_view(a), main_concern_view(b), main_concern_view(c))
                is None,
        },
{
    match a {
        Some(v) => Some(v),
        None => match b {
            Some(v) => Some(v),
            None => c,
        },
    }
}

} // verus!
