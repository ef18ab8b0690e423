//! Where a maker's `config.toml` lives, which of its fields the file holds,
//! and how makers are found under the dashboard data directory.
use vstd::prelude::*;
use vstd::string::StrSliceExecFns;
use vstd::string::StringExecFns;

use crate::maker_manager::{F64Bits, MakerConfig, MakerConfigView};
use crate::text::{concat2, concat3, joined_path, path_join, str_eq};

verus! {

/// Path of a maker's core config file: `<data_dir>/config.toml`.
pub fn maker_config_toml_path(data_dir: &str) -> (r: String)
    ensures
        r@ == joined_path(data_dir@, "config.toml"@),
{
    path_join(data_dir, "config.toml")
}

/// The thirteen static fields core's `config.toml` holds for a maker.
#[derive(Debug)]
pub struct CoreConfigFields {
    pub network_port: u16,
    pub rpc_port: u16,
    pub socks_port: u16,
    pub control_port: u16,
    pub tor_auth_password: String,
    pub min_swap_amount: u64,
    pub fidelity_amount: u64,
    pub fidelity_timelock: u32,
    pub fidelity_feerate: F64Bits,
    pub base_fee: u64,
    pub amount_relative_fee_pct: F64Bits,
    pub time_relative_fee_pct: F64Bits,
    pub required_confirms: u32,
}

pub struct CoreConfigFieldsView {
    pub network_port: u16,
    pub rpc_port: u16,
    pub socks_port: u16,
    pub control_port: u16,
    pub tor_auth_password: Seq<char>,
    pub min_swap_amount: u64,
    pub fidelity_amount: u64,
    pub fidelity_timelock: u32,
    pub fidelity_feerate: u64,
    pub base_fee: u64,
    pub amount_relative_fee_pct: u64,
    pub time_relative_fee_pct: u64,
    pub required_confirms: u32,
}

impl View for CoreConfigFields {
    type V = CoreConfigFieldsView;

    open spec fn view(&self) -> CoreConfigFieldsView {
        CoreConfigFieldsView {
            network_port: self.network_port,
            rpc_port: self.rpc_port,
            socks_port: self.socks_port,
            control_port: self.control_port,
            tor_auth_password: self.tor_auth_password@,
            min_swap_amount: self.min_swap_amount,
            fidelity_amount: self.fidelity_amount,
            fidelity_timelock: self.fidelity_timelock,
            fidelity_feerate: self.fidelity_feerate.bits,
            base_fee: self.base_fee,
            amount_relative_fee_pct: self.amount_relative_fee_pct.bits,
            time_relative_fee_pct: self.time_relative_fee_pct.bits,
            required_confirms: self.required_confirms,
        }
    }
}

/// The file fields of a maker configuration; an absent Tor password is
/// written as the empty text.
pub open spec fn core_fields_of(c: MakerConfigView) -> CoreConfigFieldsView {
    CoreConfigFieldsView {
        network_port: c.network_port,
        rpc_port: c.rpc_port,
        socks_port: c.socks_port,
        control_port: c.control_port,
        tor_auth_password: match c.tor_auth {
            Some(t) => t,
            None => Seq::empty(),
        },
        min_swap_amount: c.min_swap_amount,
        fidelity_amount: c.fidelity_amount,
        fidelity_timelock: c.fidelity_timelock,
        fidelity_feerate: c.fidelity_feerate,
        base_fee: c.base_fee,
        amount_relative_fee_pct: c.amount_relative_fee_pct,
        time_relative_fee_pct: c.time_relative_fee_pct,
        required_confirms: c.required_confirms,
    }
}

/// The maker configuration read back from file fields, for a maker whose
/// data directory is `data_dir` and whose wallet is `wallet_name`; an empty
/// Tor password means none.
pub open spec fn config_of_core_fields(
    f: CoreConfigFieldsView,
    data_dir: Seq<char>,
    wallet_name: Seq<char>,
) -> MakerConfigView {
    MakerConfigView {
        data_directory: Some(data_dir),
        tor_auth: if f.tor_auth_password.len() == 0 {
            None
        } else {
            Some(f.tor_auth_password)
        },
        wallet_name: Some(wallet_name),
        network_port: f.network_port,
        rpc_port: f.rpc_port,
        socks_port: f.socks_port,
        control_port: f.control_port,
        min_swap_amount: f.min_swap_amount,
        fidelity_amount: f.fidelity_amount,
        fidelity_timelock: f.fidelity_timelock,
        fidelity_feerate: f.fidelity_feerate,
        required_confirms: f.required_confirms,
        base_fee: f.base_fee,
        amount_relative_fee_pct: f.amount_relative_fee_pct,
        time_relative_fee_pct: f.time_relative_fee_pct,
    }
}

/// The file fields of a maker configuration.
pub fn core_fields(config: &MakerConfig) -> (r: CoreConfigFields)
    ensures
        r@ == core_fields_of(config@),
{
    CoreConfigFields {
        network_port: config.network_port,
        rpc_port: config.rpc_port,
        socks_port: config.socks_port,
        control_port: config.control_port,
        tor_auth_password: match &config.tor_auth {
            Some(t) => t.clone(),
            None => String::new(),
        },
        min_swap_amount: config.min_swap_amount,
        fidelity_amount: config.fidelity_amount,
        fidelity_timelock: config.fidelity_timelock,
        fidelity_feerate: config.fidelity_feerate,
        base_fee: config.base_fee,
        amount_relative_fee_pct: config.amount_relative_fee_pct,
        time_relative_fee_pct: config.time_relative_fee_pct,
        required_confirms: config.required_confirms,
    }
}

/// The maker configuration read back from file fields.
pub fn config_from_core_fields(fields: CoreConfigFields, data_dir: String, wallet_name: String) -> (r:
    MakerConfig)
    ensures
        r@ == config_of_core_fields(fields@, data_dir@, wallet_name@),
{
    let tor_auth = if fields.tor_auth_password.as_str().unicode_len() == 0 {
        None
    } else {
        Some(fields.tor_auth_password)
    };
    MakerConfig {
        data_directory: Some(data_dir),
        tor_auth,
        wallet_name: Some(wallet_name),
        network_port: fields.network_port,
        rpc_port: fields.rpc_port,
        socks_port: fields.socks_port,
        control_port: fields.control_port,
        min_swap_amount: fields.min_swap_amount,
        fidelity_amount: fields.fidelity_amount,
        fidelity_timelock: fields.fidelity_timelock,
        fidelity_feerate: fields.fidelity_feerate,
        required_confirms: fields.required_confirms,
        base_fee: fields.base_fee,
        amount_relative_fee_pct: fields.amount_relative_fee_pct,
        time_relative_fee_pct: fields.time_relative_fee_pct,
    }
}

/// Writing a configuration and reading it back gives the configuration
/// again, with the data directory and wallet name of the maker it was read
/// for, and an empty Tor password read as none.
pub proof fn lemma_config_file_round_trip(
    c: MakerConfigView,
    data_dir: Seq<char>,
    wallet_name: Seq<char>,
)
    ensures
        config_of_core_fields(core_fields_of(c), data_dir, wallet_name) == (MakerConfigView {
            data_directory: Some(data_dir),
            wallet_name: Some(wallet_name),
            tor_auth: match c.tor_auth {
                Some(t) => if t.len() == 0 {
                    None
                } else {
                    Some(t)
                },
                None => None,
            },
            ..c
        }),
{
}

/// Reading a file's fields and writing them back writes the same fields.
pub proof fn lemma_core_fields_round_trip(
    f: CoreConfigFieldsView,
    data_dir: Seq<char>,
    wallet_name: Seq<char>,
)
    ensures
        core_fields_of(config_of_core_fields(f, data_dir, wallet_name)) == f,
{
    if f.tor_auth_password.len() == 0 {
        assert(f.tor_auth_password =~= Seq::<char>::empty());
    }
}

/// Each `config.toml` field is the configuration field of the same name,
/// when writing and when reading back; only the Tor password changes form
/// (an absent one is the empty text), and reading gives the maker's data
/// directory and wallet name.
pub proof fn lemma_config_file_fields_by_name(
    c: MakerConfigView,
    f: CoreConfigFieldsView,
    data_dir: Seq<char>,
    wallet_name: Seq<char>,
)
    ensures
        ({
            let w = core_fields_of(c);
            &&& w.network_port == c.network_port
            &&& w.rpc_port == c.rpc_port
            &&& w.socks_port == c.socks_port
            &&& w.control_port == c.control_port
            &&& w.min_swap_amount == c.min_swap_amount
            &&& w.fidelity_amount == c.fidelity_amount
            &&& w.fidelity_timelock == c.fidelity_timelock
            &&& w.fidelity_feerate == c.fidelity_feerate
            &&& w.base_fee == c.base_fee
            &&& w.amount_relative_fee_pct == c.amount_relative_fee_pct
            &&& w.time_relative_fee_pct == c.time_relative_fee_pct
            &&& w.required_confirms == c.required_confirms
            &&& c.tor_auth matches Some(t) ==> w.tor_auth_password == t
            &&& c.tor_auth is None ==> w.tor_auth_password.len() == 0
        }),
        ({
            let r = config_of_core_fields(f, data_dir, wallet_name);
            &&& r.network_port == f.network_port
            &&& r.rpc_port == f.rpc_port
            &&& r.socks_port == f.socks_port
            &&& r.control_port == f.control_port
            &&& r.min_swap_amount == f.min_swap_amount
            &&& r.fidelity_amount == f.fidelity_amount
            &&& r.fidelity_timelock == f.fidelity_timelock
            &&& r.fidelity_feerate == f.fidelity_feerate
            &&& r.base_fee == f.base_fee
            &&& r.amount_relative_fee_pct == f.amount_relative_fee_pct
            &&& r.time_relative_fee_pct == f.time_relative_fee_pct
            &&& r.required_confirms == f.required_confirms
            &&& r.data_directory == Some(data_dir)
            &&& r.wallet_name == Some(wallet_name)
            &&& f.tor_auth_password.len() > 0 ==> r.tor_auth == Some(f.tor_auth_password)
            &&& f.tor_auth_password.len() == 0 ==> r.tor_auth is None
        }),
{
}

/// Writes a maker's static fields to `<data_dir>/config.toml` through
/// `write`; a maker without a data directory writes nothing (`write` need
/// take nothing then), and only the maker's own fields are ever written.
pub fn write_maker_toml<W: Fn(String, CoreConfigFields) -> Result<(), String>>(
    config: &MakerConfig,
    write: &W,
) -> (r: Result<(), String>)
    requires
        forall|p: String, f: CoreConfigFields|
            #![trigger call_requires(*write, (p, f))]
            config.data_directory is Some && f@ == core_fields_of(config@) ==> call_requires(
                *write,
                (p, f),
            ),
    ensures
        config.data_directory is None ==> r is Ok,
        config.data_directory matches Some(d) ==> {
            let path = joined_path(d@, "config.toml"@);
            &&& r is Ok ==> exists|p: String, f: CoreConfigFields|
                #![trigger call_ensures(*write, (p, f), Ok::<(), String>(()))]
                p@ == path && f@ == core_fields_of(config@) && call_ensures(
                    *write,
                    (p, f),
                    Ok::<(), String>(()),
                )
            &&& r matches Err(e) ==> e@ == "Failed to write maker config file: "@ + path && exists|
                p: String,
                f: CoreConfigFields,
                we: String,
            |
                #![trigger call_ensures(*write, (p, f), Err::<(), String>(we))]
                p@ == path && f@ == core_fields_of(config@) && call_ensures(
                    *write,
                    (p, f),
                    Err::<(), String>(we),
                )
        },
{
    match &config.data_directory {
        None => Ok(()),
        Some(data_dir) => {
            let path = maker_config_toml_path(data_dir.as_str());
            let fields = core_fields(config);
            let ghost pv = path;
            let ghost fv = fields;
            let written = write(path.clone(), fields);
            match written {
                Ok(u) => {
                    assert(call_ensures(*write, (pv, fv), Ok::<(), String>(())));
                    Ok(())
                },
                Err(we) => {
                    let ghost wev = we;
                    assert(call_ensures(*write, (pv, fv), Err::<(), String>(wev)));
                    Err(concat2("Failed to write maker config file: ", path.as_str()))
                },
            }
        },
    }
}

/// The wallet name found in the maker's `wallets/` directory, or the maker
/// id when there is none yet.
pub fn resolve_wallet_name(first_wallet_entry: Option<String>, id: &String) -> (r: String)
    ensures
        r@ == match first_wallet_entry {
            Some(w) => w@,
            None => id@,
        },
{
    match first_wallet_entry {
        Some(w) => w,
        None => id.clone(),
    }
}

/// Loads a maker's configuration from `<data_dir>/config.toml` through
/// `read`, with the wallet name from its `wallets/` directory.
pub fn read_maker_toml<R: Fn(String) -> Result<CoreConfigFields, String>>(
    id: &String,
    data_dir: &str,
    first_wallet_entry: Option<String>,
    read: &R,
) -> (r: Result<MakerConfig, String>)
    requires
        forall|p: String| call_requires(*read, (p,)),
    ensures
        ({
            let path = joined_path(data_dir@, "config.toml"@);
            let wallet = match first_wallet_entry {
                Some(w) => w@,
                None => id@,
            };
            &&& r matches Ok(c) ==> exists|p: String, f: CoreConfigFields|
                #![trigger call_ensures(*read, (p,), Ok::<CoreConfigFields, String>(f))]
                p@ == path && call_ensures(*read, (p,), Ok::<CoreConfigFields, String>(f)) && c@
                    == config_of_core_fields(f@, data_dir@, wallet)
            &&& r matches Err(m) ==> exists|p: String, e: String|
                #![trigger call_ensures(*read, (p,), Err::<CoreConfigFields, String>(e))]
                p@ == path && call_ensures(*read, (p,), Err::<CoreConfigFields, String>(e)) && m@
                    == "Failed to parse "@ + path + ": "@ + e@
        }),
{
    let path = maker_config_toml_path(data_dir);
    let ghost pv = path;
    let loaded = read(path.clone());
    match loaded {
        Ok(fields) => {
            let ghost fv = fields;
            assert(call_ensures(*read, (pv,), Ok::<CoreConfigFields, String>(fv)));
            let wallet = resolve_wallet_name(first_wallet_entry, id);
            Ok(config_from_core_fields(fields, String::from_str(data_dir), wallet))
        },
        Err(e) => {
            let ghost ev = e;
            assert(call_ensures(*read, (pv,), Err::<CoreConfigFields, String>(ev)));
            let head = concat3("Failed to parse ", path.as_str(), ": ");
            Err(concat2(head.as_str(), e.as_str()))
        },
    }
}

/// One entry of the dashboard data directory as listed: its name when it
/// could be read as UTF-8 text (and its type could be read), whether it is
/// a directory, and whether it holds a `config.toml`.
#[derive(Debug)]
pub struct ScannedEntry {
    pub name: Option<String>,
    pub is_dir: bool,
    pub has_config_toml: bool,
}

/// Names of directories under the dashboard data dir that are never makers:
/// hidden ones, `tor` and `taker`.
pub open spec fn reserved_dir_name(name: Seq<char>) -> bool {
    (name.len() > 0 && name[0] == '.') || name == "tor"@ || name == "taker"@
}

/// A listed entry that is a maker's data directory.
pub open spec fn is_maker_entry(e: ScannedEntry) -> bool {
    &&& e.name is Some
    &&& e.is_dir
    &&& !reserved_dir_name(e.name.unwrap()@)
    &&& e.has_config_toml
}

/// Whether a directory name is one of the dashboard's own.
pub fn is_reserved_dir_name(name: &str) -> (r: bool)
    ensures
        r == reserved_dir_name(name@),
{
    (name.unicode_len() > 0 && name.get_char(0) == '.') || str_eq(name, "tor") || str_eq(name, "taker")
}

/// Discovers makers and loads their `config.toml` files under the dashboard
/// data dir.
pub struct PersistenceManager {
    pub config_dir: String,
}

impl PersistenceManager {
    /// Makes sure the dashboard data directory exists (through
    /// `create_dir`) and manages it.
    pub fn new<E: Fn(String) -> Result<(), String>>(config_dir: String, create_dir: &E) -> (r: Result<
        Self,
        String,
    >)
        requires
            call_requires(*create_dir, (config_dir,)),
        ensures
            r matches Ok(pm) ==> pm.config_dir == config_dir && call_ensures(
                *create_dir,
                (config_dir,),
                Ok::<(), String>(()),
            ),
            r matches Err(m) ==> m@ == "Failed to create dashboard data directory: "@ + config_dir@
                && exists|e: String| #[trigger] call_ensures(*create_dir, (config_dir,), Err::<(), String>(e)),
    {
        let ghost cd = config_dir;
        let created = create_dir(config_dir.clone());
        match created {
            Ok(u) => {
                assert(created == Ok::<(), String>(()));
                assert(call_ensures(*create_dir, (cd,), Ok::<(), String>(())));
                Ok(PersistenceManager { config_dir })
            },
            Err(e) => {
                let ghost ev = e;
                assert(call_ensures(*create_dir, (cd,), Err::<(), String>(ev)));
                Err(concat2("Failed to create dashboard data directory: ", config_dir.as_str()))
            },
        }
    }

    /// The makers found among the listed entries: every entry that is a
    /// maker's data directory and whose configuration `load` reads; entries
    /// that fail to load are skipped.
    pub fn discover_makers<L: Fn(String, String) -> Result<MakerConfig, String>>(
        &self,
        entries: &Vec<ScannedEntry>,
        load: &L,
    ) -> (r: Vec<(String, MakerConfig)>)
        requires
            forall|id: String, dir: String|
                #![trigger call_requires(*load, (id, dir))]
                listed_maker_entry(entries@, id) ==> call_requires(*load, (id, dir)),
        ensures
            r@.len() <= entries@.len(),
            forall|j: int|
                0 <= j < r@.len() ==> listed_maker_entry(entries@, #[trigger] r@[j].0) && load_gave(
                    *load,
                    r@[j].0,
                    joined_path(self.config_dir@, r@[j].0@),
                    r@[j].1,
                ),
            forall|i: int|
                0 <= i < entries@.len() && #[trigger] is_maker_entry(entries@[i]) ==> discovered(
                    r@,
                    entries@[i].name.unwrap(),
                ) || load_failed(
                    *load,
                    entries@[i].name.unwrap(),
                    joined_path(self.config_dir@, entries@[i].name.unwrap()@),
                ),
            found_in_order(entries@, r@),
            names_distinct(entries@) ==> forall|a: int, b: int|
                0 <= a < b < r@.len() ==> #[trigger] r@[a].0@ != #[trigger] r@[b].0@,
    {
        let mut makers: Vec<(String, MakerConfig)> = Vec::new();
        let ghost mut pos: Seq<int> = Seq::empty();
        let mut i: usize = 0;
        while i < entries.len()
            invariant
                i <= entries@.len(),
                makers@.len() <= i,
                forall|id: String, dir: String|
                    #![trigger call_requires(*load, (id, dir))]
                    listed_maker_entry(entries@, id) ==> call_requires(*load, (id, dir)),
                forall|j: int|
                    0 <= j < makers@.len() ==> listed_maker_entry(entries@, #[trigger] makers@[j].0)
                        && load_gave(
                        *load,
                        makers@[j].0,
                        joined_path(self.config_dir@, makers@[j].0@),
                        makers@[j].1,
                    ),
                forall|k: int|
                    0 <= k < i && #[trigger] is_maker_entry(entries@[k]) ==> discovered(
                        makers@,
                        entries@[k].name.unwrap(),
                    ) || load_failed(
                        *load,
                        entries@[k].name.unwrap(),
                        joined_path(self.config_dir@, entries@[k].name.unwrap()@),
                    ),
                positions_of(entries@, makers@, pos, i as int),
            decreases entries@.len() - i,
        {
            let entry = &entries[i];
            let ghost old_makers = makers@;
            match &entry.name {
                Some(name) => {
                    if entry.is_dir && !is_reserved_dir_name(name.as_str())
                        && entry.has_config_toml {
                        let data_dir = path_join(self.config_dir.as_str(), name.as_str());
                        let ghost dv = data_dir;
                        let ghost idv = *name;
                        assert(entries@[i as int] == *entry);
                        assert(listed_maker_entry(entries@, idv));
                        let loaded = load(name.clone(), data_dir);
                        match loaded {
                            Ok(config) => {
                                let ghost cv = config;
                                assert(call_ensures(*load, (idv, dv), Ok::<MakerConfig, String>(cv)));
                                assert(load_gave(*load, idv, dv@, cv));
                                makers.push((name.clone(), config));
                                proof {
                                    pos = pos.push(i as int);
                                }
                                assert(makers@[makers@.len() - 1].0 == idv);
                                assert(discovered(makers@, idv));
                            },
                            Err(e) => {
                                let ghost ev = e;
                                assert(call_ensures(*load, (idv, dv), Err::<MakerConfig, String>(ev)));
                                assert(load_failed(*load, idv, dv@));
                            },
                        }
                    }
                },
                None => {},
            }
            assert forall|j: int| 0 <= j < makers@.len() implies listed_maker_entry(
                entries@,
                #[trigger] makers@[j].0,
            ) && load_gave(
                *load,
                makers@[j].0,
                joined_path(self.config_dir@, makers@[j].0@),
                makers@[j].1,
            ) by {
                if j < old_makers.len() {
                    assert(makers@[j] == old_makers[j]);
                }
            }
            assert forall|k: int| 0 <= k < i + 1 && #[trigger] is_maker_entry(entries@[k]) implies discovered(
                makers@,
                entries@[k].name.unwrap(),
            ) || load_failed(
                *load,
                entries@[k].name.unwrap(),
                joined_path(self.config_dir@, entries@[k].name.unwrap()@),
            ) by {
                if k < i && discovered(old_makers, entries@[k].name.unwrap()) {
                    let j = choose|j: int|
                        0 <= j < old_makers.len() && old_makers[j].0 == entries@[k].name.unwrap();
                    assert(makers@[j] == old_makers[j]);
                }
            }
            assert forall|j: int| 0 <= j < pos.len() implies 0 <= #[trigger] pos[j] < i + 1
                && is_maker_entry(entries@[pos[j]]) && entries@[pos[j]].name == Some(makers@[j].0) by {
                if j < old_makers.len() {
                    assert(makers@[j] == old_makers[j]);
                }
            }
            i = i + 1;
        }
        proof {
            assert(found_in_order(entries@, makers@));
            if names_distinct(entries@) {
                assert forall|a: int, b: int| 0 <= a < b < makers@.len() implies #[trigger] makers@[a].0@
                    != #[trigger] makers@[b].0@ by {
                    assert(pos[a] < pos[b]);
                    assert(entries@[pos[a]].name == Some(makers@[a].0));
                    assert(entries@[pos[b]].name == Some(makers@[b].0));
                }
            }
        }
        makers
    }
}

/// `pos` gives, for each maker found so far, the position of its entry
/// among the first `upto` listed entries, in increasing order.
pub open spec fn positions_of(
    entries: Seq<ScannedEntry>,
    found: Seq<(String, MakerConfig)>,
    pos: Seq<int>,
    upto: int,
) -> bool {
    &&& pos.len() == found.len()
    &&& forall|j: int|
        0 <= j < pos.len() ==> 0 <= #[trigger] pos[j] < upto && is_maker_entry(entries[pos[j]])
            && entries[pos[j]].name == Some(found[j].0)
    &&& forall|a: int, b: int| 0 <= a < b < pos.len() ==> #[trigger] pos[a] < #[trigger] pos[b]
}

/// `found` lists makers from `entries` in listing order: each one comes
/// from a maker's data directory listed after that of the one before it.
pub open spec fn found_in_order(entries: Seq<ScannedEntry>, found: Seq<(String, MakerConfig)>) -> bool {
    exists|pos: Seq<int>| #[trigger] positions_of(entries, found, pos, entries.len() as int)
}

/// No two listed entries carry the same name.
pub open spec fn names_distinct(entries: Seq<ScannedEntry>) -> bool {
    forall|a: int, b: int|
        0 <= a < b < entries.len() && #[trigger] entries[a].name is Some && #[trigger] entries[b].name is Some
            ==> entries[a].name.unwrap()@ != entries[b].name.unwrap()@
}

/// Some listed entry that is a maker's data directory is named `id`.
pub open spec fn listed_maker_entry(entries: Seq<ScannedEntry>, id: String) -> bool {
    exists|i: int| 0 <= i < entries.len() && is_maker_entry(entries[i]) && entries[i].name == Some(id)
}

/// `load` may give configuration `c` for maker `id` in directory `dir`.
pub open spec fn load_gave<L: Fn(String, String) -> Result<MakerConfig, String>>(
    load: L,
    id: String,
    dir: Seq<char>,
    c: MakerConfig,
) -> bool {
    exists|d: String| #[trigger] d@ == dir && call_ensures(load, (id, d), Ok::<MakerConfig, String>(c))
}

/// `load` may fail for maker `id` in directory `dir`.
pub open spec fn load_failed<L: Fn(String, String) -> Result<MakerConfig, String>>(
    load: L,
    id: String,
    dir: Seq<char>,
) -> bool {
    exists|d: String, e: String|
        #![trigger call_ensures(load, (id, d), Err::<MakerConfig, String>(e))]
        d@ == dir && call_ensures(load, (id, d), Err::<MakerConfig, String>(e))
}

/// Maker `id` is among the discovered ones.
pub open spec fn discovered(found: Seq<(String, MakerConfig)>, id: String) -> bool {
    exists|j: int| 0 <= j < found.len() && found[j].0 == id
}

} // verus!
