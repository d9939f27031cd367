//! `coding-agent`: the checks and the edits of coding-agent configurations,
//! decided before anything is read from or written to the settings.
use vstd::prelude::*;
use crate::text::{
    after_char, before_char, chars_of, decimal, is_ascii_alpha, is_ascii_digit, owned,
    push_decimal, split_once_char, string_of, trim, trim_ws, views, append_str, append_chars,
};

verus! {

broadcast use vstd::string::group_string_axioms;

/// Color of a custom agent when none is given.
pub const DEFAULT_CUSTOM_COLOR: &'static str = "#6366f1";

/// Seconds to wait for the running GUI by default.
pub const DEFAULT_CONFIRM_TIMEOUT_SECS: u64 = 30;

/// The arguments of `coding-agent`.
pub struct CodingAgentArgs {
    pub cmd: CodingAgentCmd,
}

/// The subcommands of `coding-agent`.
pub enum CodingAgentCmd {
    List,
    Show(ShowArgs),
    Catalog,
    Add(AddArgs),
    Update(UpdateArgs),
    Remove(RemoveArgs),
}

/// The arguments of `coding-agent show`.
pub struct ShowArgs {
    pub id: String,
}

/// The arguments of `coding-agent add`.
pub struct AddArgs {
    /// Catalog key to seed the agent from.
    pub from_catalog: Option<String>,
    pub id: Option<String>,
    pub label: Option<String>,
    pub command: Option<String>,
    /// `#RRGGBB`.
    pub color: Option<String>,
    /// `KEY=VALUE` rows.
    pub env: Vec<String>,
    pub isolated_home: Option<bool>,
    pub instructions_filename: Option<String>,
    pub config_seed_dest: Option<String>,
    pub config_seed_enabled: Option<bool>,
    pub confirm_timeout: u64,
}

/// The arguments of `coding-agent update`; absent flags leave fields as
/// they are.
pub struct UpdateArgs {
    pub id: String,
    pub label: Option<String>,
    pub command: Option<String>,
    pub color: Option<String>,
    /// `KEY=VALUE` rows that replace the whole list.
    pub env: Vec<String>,
    pub clear_envs: bool,
    pub isolated_home: Option<bool>,
    pub instructions_filename: Option<String>,
    pub clear_instructions_filename: bool,
    pub config_seed_dest: Option<String>,
    pub config_seed_enabled: Option<bool>,
    pub clear_config_seed: bool,
    pub confirm_timeout: u64,
}

/// The arguments of `coding-agent remove`.
pub struct RemoveArgs {
    pub id: String,
    pub confirm_timeout: u64,
}

/// Where an environment row comes from.
#[derive(PartialEq, Eq, Structural, Clone, Copy, Debug)]
pub enum CodingAgentEnvSource {
    User,
    System,
}

/// One environment row of an agent.
#[derive(Debug)]
pub struct CodingAgentEnv {
    pub key: String,
    pub value: String,
    pub source: CodingAgentEnvSource,
    pub enabled: bool,
}

/// The config-folder seed of an agent.
#[derive(Debug)]
pub struct ConfigSeedConfig {
    pub enabled: bool,
    pub dest: String,
}

/// A coding-agent configuration, as far as this verb edits it.
#[derive(Debug)]
pub struct AgentConfig {
    pub id: String,
    pub label: String,
    pub command: String,
    pub color: String,
    pub envs: Vec<CodingAgentEnv>,
    pub isolated_home: bool,
    pub instructions_filename: Option<String>,
    pub config_seed: Option<ConfigSeedConfig>,
}

/// A catalog entry an agent can be seeded from.
pub struct CodingAgentDefinition {
    pub key: String,
    pub label: String,
    pub command: String,
    pub color: String,
    pub envs: Vec<CodingAgentEnv>,
    pub isolated_home: bool,
    pub instructions_filename: Option<String>,
    pub config_seed: Option<ConfigSeedConfig>,
}

/// A partial update of an agent.
pub struct AgentPatch {
    pub label: Option<String>,
    pub command: Option<String>,
    pub color: Option<String>,
    pub envs: Option<Vec<CodingAgentEnv>>,
    pub isolated_home: Option<bool>,
    pub instructions_filename: Option<String>,
    pub clear_instructions_filename: bool,
    pub config_seed_dest: Option<String>,
    pub config_seed_enabled: Option<bool>,
    pub clear_config_seed: bool,
}

/// A change of the configured agents.
pub enum CodingAgentOp {
    Add { agent: AgentConfig },
    Update { id: String, patch: AgentPatch },
    Remove { id: String },
}

pub open spec fn opt_view(o: Option<String>) -> Option<Seq<char>> {
    match o {
        Some(s) => Some(s@),
        None => None,
    }
}

// ---------------------------------------------------------------------------
// Field checks.

pub open spec fn is_hex_digit(c: char) -> bool {
    ('0' <= c && c <= '9') || ('a' <= c && c <= 'f') || ('A' <= c && c <= 'F')
}

/// `#RRGGBB` with hex digits.
pub open spec fn color_ok(c: Seq<char>) -> bool {
    c.len() == 7 && c[0] == '#' && forall|i: int| 1 <= i < 7 ==> is_hex_digit(#[trigger] c[i])
}

pub const BAD_COLOR_ERROR: &'static str = "--color must be #RRGGBB";

/// Checks an agent color: `#RRGGBB`.
pub fn validate_agent_color(color: &str) -> (r: Result<(), String>)
    ensures
        r is Ok <==> color_ok(color@),
        r matches Err(e) ==> e@ == BAD_COLOR_ERROR@,
{
    let v = chars_of(color);
    if v.len() != 7 || v[0] != '#' {
        return Err(owned(BAD_COLOR_ERROR));
    }
    let mut i: usize = 1;
    while i < 7
        invariant
            1 <= i <= 7,
            v@.len() == 7,
            v@ == color@,
            forall|k: int| 1 <= k < i ==> is_hex_digit(#[trigger] v@[k]),
        decreases 7 - i,
    {
        let c = v[i];
        if !(('0' <= c && c <= '9') || ('a' <= c && c <= 'f') || ('A' <= c && c <= 'F')) {
            assert(!is_hex_digit(v@[i as int]));
            return Err(owned(BAD_COLOR_ERROR));
        }
        i = i + 1;
    }
    Ok(())
}

/// An environment variable name: a letter or `_`, then letters, digits or
/// `_`.
pub open spec fn env_key_ok(k: Seq<char>) -> bool {
    &&& k.len() > 0
    &&& (is_ascii_alpha(k[0]) || k[0] == '_')
    &&& forall|i: int|
        0 <= i < k.len() ==> (is_ascii_alpha(#[trigger] k[i]) || is_ascii_digit(k[i]) || k[i]
            == '_')
}

pub open spec fn bad_env_key_message(key: Seq<char>, flag: Seq<char>) -> Seq<char> {
    flag + " key '"@ + key + "' must start with a letter or '_' and contain only letters, digits and '_'"@
}

/// Checks the name of a user environment row given through `flag`.
pub fn validate_user_env_key(key: &[char], flag: &str) -> (r: Result<(), String>)
    ensures
        r is Ok <==> env_key_ok(key@),
        r matches Err(e) ==> e@ == bad_env_key_message(key@, flag@),
{
    let mut ok = key.len() > 0 && (('a' <= key[0] && key[0] <= 'z') || ('A' <= key[0] && key[0] <= 'Z')
        || key[0] == '_');
    let mut i: usize = 0;
    while i < key.len()
        invariant
            i <= key@.len(),
            ok == (key@.len() > 0 && (is_ascii_alpha(key@[0]) || key@[0] == '_') && forall|k: int|
                0 <= k < i ==> (is_ascii_alpha(#[trigger] key@[k]) || is_ascii_digit(key@[k])
                    || key@[k] == '_')),
        decreases key@.len() - i,
    {
        let c = key[i];
        let good = ('a' <= c && c <= 'z') || ('A' <= c && c <= 'Z') || ('0' <= c && c <= '9') || c
            == '_';
        ok = ok && good;
        i = i + 1;
    }
    if ok {
        Ok(())
    } else {
        let mut m: Vec<char> = Vec::new();
        append_str(&mut m, flag);
        append_str(&mut m, " key '");
        append_chars(&mut m, key);
        append_str(
            &mut m,
            "' must start with a letter or '_' and contain only letters, digits and '_'",
        );
        Err(string_of(&m))
    }
}

// ---------------------------------------------------------------------------
// Environment rows.

pub struct EnvView {
    pub key: Seq<char>,
    pub value: Seq<char>,
    pub source: CodingAgentEnvSource,
    pub enabled: bool,
}

impl View for CodingAgentEnv {
    type V = EnvView;

    open spec fn view(&self) -> EnvView {
        EnvView { key: self.key@, value: self.value@, source: self.source, enabled: self.enabled }
    }
}

pub open spec fn env_views(v: Seq<CodingAgentEnv>) -> Seq<EnvView> {
    v.map_values(|e: CodingAgentEnv| e@)
}

pub open spec fn missing_equals_message(item: Seq<char>) -> Seq<char> {
    "--env '"@ + item + "' must be KEY=VALUE"@
}

/// The row of `item`, split at its first `=`, or the error for it.
pub open spec fn env_row_spec(item: Seq<char>) -> Result<EnvView, Seq<char>> {
    if !item.contains('=') {
        Err(missing_equals_message(item))
    } else if !env_key_ok(before_char(item, '=')) {
        Err(bad_env_key_message(before_char(item, '='), "--env"@))
    } else {
        Ok(
            EnvView {
                key: before_char(item, '='),
                value: after_char(item, '='),
                source: CodingAgentEnvSource::User,
                enabled: true,
            },
        )
    }
}

/// The first item of `items` without a row, if any.
pub open spec fn first_bad_env(items: Seq<Seq<char>>) -> int
    decreases items.len(),
{
    if items.len() == 0 {
        -1
    } else {
        let p = first_bad_env(items.drop_last());
        if p >= 0 {
            p
        } else if env_row_spec(items.last()) is Err {
            items.len() - 1
        } else {
            -1
        }
    }
}

/// `--env` items as rows: each split at its first `=` into key and value,
/// from the user and enabled; the first item without `=` or with a bad key
/// is the error.
pub open spec fn env_rows_spec(items: Seq<Seq<char>>) -> Result<Seq<EnvView>, Seq<char>> {
    let p = first_bad_env(items);
    if p >= 0 {
        Err(env_row_spec(items[p])->Err_0)
    } else {
        Ok(items.map_values(|i: Seq<char>| env_row_spec(i)->Ok_0))
    }
}

/// Parses `--env` items (see [`env_rows_spec`]).
pub fn parse_env_flags(raw: &[String]) -> (r: Result<Vec<CodingAgentEnv>, String>)
    ensures
        match r {
            Ok(v) => env_rows_spec(views(raw@)) == Ok::<Seq<EnvView>, Seq<char>>(env_views(v@)),
            Err(e) => env_rows_spec(views(raw@)) == Err::<Seq<EnvView>, Seq<char>>(e@),
        },
{
    let ghost items = views(raw@);
    let mut out: Vec<CodingAgentEnv> = Vec::new();
    let mut i: usize = 0;
    while i < raw.len()
        invariant
            i <= raw@.len(),
            items == views(raw@),
            first_bad_env(items.take(i as int)) == -1,
            env_views(out@) == items.take(i as int).map_values(
                |x: Seq<char>| env_row_spec(x)->Ok_0,
            ),
        decreases raw@.len() - i,
    {
        let item = chars_of(raw[i].as_str());
        let ghost t = items.take(i + 1);
        assert(t.drop_last() =~= items.take(i as int));
        assert(t.last() == item@);
        match split_once_char(&item, '=') {
            None => {
                let mut m: Vec<char> = Vec::new();
                append_str(&mut m, "--env '");
                append_chars(&mut m, &item);
                append_str(&mut m, "' must be KEY=VALUE");
                proof {
                    lemma_first_bad_prefix(items, i as int);
                }
                return Err(string_of(&m));
            },
            Some((key, value)) => {
                match validate_user_env_key(&key, "--env") {
                    Err(e) => {
                        proof {
                            lemma_first_bad_prefix(items, i as int);
                        }
                        return Err(e);
                    },
                    Ok(()) => {},
                }
                let ghost before = env_views(out@);
                let row = CodingAgentEnv {
                    key: string_of(&key),
                    value: string_of(&value),
                    source: CodingAgentEnvSource::User,
                    enabled: true,
                };
                let ghost rv = row@;
                out.push(row);
                assert(env_views(out@) =~= before.push(rv));
                assert(t.map_values(|x: Seq<char>| env_row_spec(x)->Ok_0) =~= items.take(
                    i as int,
                ).map_values(|x: Seq<char>| env_row_spec(x)->Ok_0).push(rv));
            },
        }
        i = i + 1;
    }
    assert(items.take(i as int) =~= items);
    Ok(out)
}

proof fn lemma_first_bad_prefix(items: Seq<Seq<char>>, i: int)
    requires
        0 <= i < items.len(),
        first_bad_env(items.take(i)) == -1,
        env_row_spec(items[i]) is Err,
    ensures
        first_bad_env(items) == i,
    decreases items.len(),
{
    if items.len() == i + 1 {
        assert(items.drop_last() =~= items.take(i));
    } else {
        assert(items.drop_last().take(i) =~= items.take(i));
        lemma_first_bad_prefix(items.drop_last(), i);
    }
}

// ---------------------------------------------------------------------------
// Building an agent.

/// A custom agent before any flag: no id, label or command, the default
/// color, no rows, no isolated home, no instructions file, no seed.
pub fn blank_agent() -> (a: AgentConfig)
    ensures
        a.id@ == Seq::<char>::empty(),
        a.label@ == Seq::<char>::empty(),
        a.command@ == Seq::<char>::empty(),
        a.color@ == DEFAULT_CUSTOM_COLOR@,
        a.envs@.len() == 0,
        !a.isolated_home,
        a.instructions_filename.is_none(),
        a.config_seed.is_none(),
{
    AgentConfig {
        id: String::new(),
        label: String::new(),
        command: String::new(),
        color: owned(DEFAULT_CUSTOM_COLOR),
        envs: Vec::new(),
        isolated_home: false,
        instructions_filename: None,
        config_seed: None,
    }
}

fn clone_envs(v: &Vec<CodingAgentEnv>) -> (out: Vec<CodingAgentEnv>)
    ensures
        env_views(out@) == env_views(v@),
{
    let mut out: Vec<CodingAgentEnv> = Vec::new();
    let mut i: usize = 0;
    while i < v.len()
        invariant
            i <= v@.len(),
            env_views(out@) == env_views(v@).take(i as int),
        decreases v@.len() - i,
    {
        let e = &v[i];
        let c = CodingAgentEnv {
            key: e.key.clone(),
            value: e.value.clone(),
            source: e.source,
            enabled: e.enabled,
        };
        let ghost before = env_views(out@);
        let ghost cv = c@;
        out.push(c);
        assert(env_views(out@) =~= before.push(cv));
        assert(env_views(v@).take(i + 1) =~= env_views(v@).take(i as int).push(v@[i as int]@));
        i = i + 1;
    }
    assert(env_views(v@).take(i as int) =~= env_views(v@));
    out
}

fn clone_opt(o: &Option<String>) -> (r: Option<String>)
    ensures
        opt_view(r) == opt_view(*o),
{
    match o {
        Some(s) => Some(s.clone()),
        None => None,
    }
}

fn clone_seed(o: &Option<ConfigSeedConfig>) -> (r: Option<ConfigSeedConfig>)
    ensures
        r.is_some() == o.is_some(),
        r.is_some() ==> r->0.enabled == o->0.enabled && r->0.dest@ == o->0.dest@,
{
    match o {
        Some(s) => Some(ConfigSeedConfig { enabled: s.enabled, dest: s.dest.clone() }),
        None => None,
    }
}

/// An agent seeded from a catalog entry: its label, command, color, rows,
/// isolated home, instructions file and seed; no id.
pub fn definition_to_agent_seed(def: &CodingAgentDefinition) -> (a: AgentConfig)
    ensures
        a.id@ == Seq::<char>::empty(),
        a.label@ == def.label@,
        a.command@ == def.command@,
        a.color@ == def.color@,
        env_views(a.envs@) == env_views(def.envs@),
        a.isolated_home == def.isolated_home,
        opt_view(a.instructions_filename) == opt_view(def.instructions_filename),
        a.config_seed.is_some() == def.config_seed.is_some(),
        a.config_seed.is_some() ==> a.config_seed->0.enabled == def.config_seed->0.enabled
            && a.config_seed->0.dest@ == def.config_seed->0.dest@,
{
    AgentConfig {
        id: String::new(),
        label: def.label.clone(),
        command: def.command.clone(),
        color: def.color.clone(),
        envs: clone_envs(&def.envs),
        isolated_home: def.isolated_home,
        instructions_filename: clone_opt(&def.instructions_filename),
        config_seed: clone_seed(&def.config_seed),
    }
}

pub open spec fn seed_view(o: Option<ConfigSeedConfig>) -> Option<(bool, Seq<char>)> {
    match o {
        Some(s) => Some((s.enabled, s.dest@)),
        None => None,
    }
}

/// The seed flags applied to `agent`: without either flag nothing changes;
/// otherwise the seed (a new enabled one when there was none) takes the
/// given destination and the given enabled state. A destination alone thus
/// enables a new seed.
pub fn apply_seed_flags(agent: &mut AgentConfig, dest: Option<String>, enabled: Option<bool>)
    ensures
        dest.is_none() && enabled.is_none() ==> seed_view(final(agent).config_seed) == seed_view(
            old(agent).config_seed,
        ),
        !(dest.is_none() && enabled.is_none()) ==> {
            &&& final(agent).config_seed.is_some()
            &&& final(agent).config_seed->0.dest@ == match dest {
                Some(d) => d@,
                None => match old(agent).config_seed {
                    Some(s) => s.dest@,
                    None => Seq::<char>::empty(),
                },
            }
            &&& final(agent).config_seed->0.enabled == match enabled {
                Some(e) => e,
                None => match old(agent).config_seed {
                    Some(s) => s.enabled,
                    None => true,
                },
            }
        },
        final(agent).id@ == old(agent).id@,
        final(agent).label@ == old(agent).label@,
        final(agent).command@ == old(agent).command@,
        final(agent).color@ == old(agent).color@,
        env_views(final(agent).envs@) == env_views(old(agent).envs@),
        final(agent).isolated_home == old(agent).isolated_home,
        opt_view(final(agent).instructions_filename) == opt_view(old(agent).instructions_filename),
{
    if dest.is_none() && enabled.is_none() {
        return;
    }
    let mut seed = match &agent.config_seed {
        Some(s) => ConfigSeedConfig { enabled: s.enabled, dest: s.dest.clone() },
        None => ConfigSeedConfig { enabled: true, dest: String::new() },
    };
    if let Some(d) = dest {
        seed.dest = d;
    }
    if let Some(e) = enabled {
        seed.enabled = e;
    }
    agent.config_seed = Some(seed);
}

// ---------------------------------------------------------------------------
// The mutation verbs.

pub const EMPTY_LABEL_ERROR: &'static str = "--label must not be empty";

pub const ADD_NEEDS_LABEL_AND_COMMAND_ERROR: &'static str =
    "add requires --label and --command (or --from-catalog <key>)";

/// An agent to add, and its id: the one given, or none when one is to be
/// minted.
pub struct AddPlan {
    pub agent: AgentConfig,
    pub id: Option<String>,
}

/// Position of the catalog entry with key `k`, or -1.
pub open spec fn catalog_index(keys: Seq<Seq<char>>, k: Seq<char>) -> int
    decreases keys.len(),
{
    if keys.len() == 0 {
        -1
    } else if keys[0] == k {
        0
    } else {
        let r = catalog_index(keys.drop_first(), k);
        if r < 0 {
            -1
        } else {
            r + 1
        }
    }
}

pub open spec fn catalog_keys(c: Seq<CodingAgentDefinition>) -> Seq<Seq<char>> {
    c.map_values(|d: CodingAgentDefinition| d.key@)
}

fn find_catalog(catalog: &Vec<CodingAgentDefinition>, key: &str) -> (r: Option<usize>)
    ensures
        match r {
            Some(i) => i < catalog@.len() && i as int == catalog_index(catalog_keys(catalog@), key@),
            None => catalog_index(catalog_keys(catalog@), key@) == -1,
        },
{
    let ghost ks = catalog_keys(catalog@);
    let mut i: usize = 0;
    assert(ks.skip(0) =~= ks);
    while i < catalog.len()
        invariant
            i <= catalog@.len(),
            ks == catalog_keys(catalog@),
            catalog_index(ks, key@) == (if catalog_index(ks.skip(i as int), key@) < 0 {
                -1
            } else {
                catalog_index(ks.skip(i as int), key@) + i
            }),
        decreases catalog@.len() - i,
    {
        assert(ks.skip(i as int)[0] == catalog@[i as int].key@);
        if crate::text::str_eq(catalog[i].key.as_str(), key) {
            return Some(i);
        }
        assert(ks.skip(i as int).drop_first() =~= ks.skip(i + 1));
        i = i + 1;
    }
    None
}

fn catalog_key_strings(catalog: &Vec<CodingAgentDefinition>) -> (out: Vec<String>)
    ensures
        views(out@) == catalog_keys(catalog@),
{
    let mut out: Vec<String> = Vec::new();
    let mut i: usize = 0;
    while i < catalog.len()
        invariant
            i <= catalog@.len(),
            views(out@) == catalog_keys(catalog@).take(i as int),
        decreases catalog@.len() - i,
    {
        let ghost before = views(out@);
        out.push(catalog[i].key.clone());
        assert(views(out@) =~= before.push(catalog@[i as int].key@));
        assert(catalog_keys(catalog@).take(i + 1) =~= catalog_keys(catalog@).take(i as int).push(
            catalog@[i as int].key@,
        ));
        i = i + 1;
    }
    assert(catalog_keys(catalog@).take(i as int) =~= catalog_keys(catalog@));
    out
}

/// The fields of an agent configuration.
pub struct AgentView {
    pub id: Seq<char>,
    pub label: Seq<char>,
    pub command: Seq<char>,
    pub color: Seq<char>,
    pub envs: Seq<EnvView>,
    pub isolated_home: bool,
    pub instructions_filename: Option<Seq<char>>,
    pub config_seed: Option<(bool, Seq<char>)>,
}

pub open spec fn agent_view(a: AgentConfig) -> AgentView {
    AgentView {
        id: a.id@,
        label: a.label@,
        command: a.command@,
        color: a.color@,
        envs: env_views(a.envs@),
        isolated_home: a.isolated_home,
        instructions_filename: opt_view(a.instructions_filename),
        config_seed: seed_view(a.config_seed),
    }
}

/// The agent a catalog entry seeds (see [`definition_to_agent_seed`]).
pub open spec fn definition_view(d: CodingAgentDefinition) -> AgentView {
    AgentView {
        id: Seq::empty(),
        label: d.label@,
        command: d.command@,
        color: d.color@,
        envs: env_views(d.envs@),
        isolated_home: d.isolated_home,
        instructions_filename: opt_view(d.instructions_filename),
        config_seed: seed_view(d.config_seed),
    }
}

/// A blank custom agent (see [`blank_agent`]).
pub open spec fn blank_view() -> AgentView {
    AgentView {
        id: Seq::empty(),
        label: Seq::empty(),
        command: Seq::empty(),
        color: DEFAULT_CUSTOM_COLOR@,
        envs: Seq::empty(),
        isolated_home: false,
        instructions_filename: None,
        config_seed: None,
    }
}

/// The seed after the seed flags (see [`apply_seed_flags`]).
pub open spec fn seed_after(base: Option<(bool, Seq<char>)>, dest: Option<Seq<char>>, enabled: Option<bool>) -> Option<
    (bool, Seq<char>),
> {
    if dest is None && enabled is None {
        base
    } else {
        Some(
            (
                match enabled {
                    Some(e) => e,
                    None => match base {
                        Some(b) => b.0,
                        None => true,
                    },
                },
                match dest {
                    Some(d) => d,
                    None => match base {
                        Some(b) => b.1,
                        None => Seq::empty(),
                    },
                },
            ),
        )
    }
}

/// The agent `coding-agent add` starts from: the catalog entry named by
/// `--from-catalog`, or a blank custom agent.
pub open spec fn add_base(a: AddArgs, catalog: Seq<CodingAgentDefinition>) -> AgentView {
    match a.from_catalog {
        Some(k) => definition_view(catalog[catalog_index(catalog_keys(catalog), k@)]),
        None => blank_view(),
    }
}

/// The first refusal of `coding-agent add`, in order: a bad color, a blank
/// label, an unknown catalog key (listing the known ones), a bad `--env`
/// item, and a custom agent without a label or a command.
pub open spec fn add_refusal(a: AddArgs, catalog: Seq<CodingAgentDefinition>) -> Option<Seq<char>> {
    if a.color matches Some(c) && !color_ok(c@) {
        Some(BAD_COLOR_ERROR@)
    } else if a.label matches Some(l) && trim_ws(l@).len() == 0 {
        Some(EMPTY_LABEL_ERROR@)
    } else if a.from_catalog matches Some(k) && catalog_index(catalog_keys(catalog), k@) < 0 {
        Some(
            "catalog key '"@ + a.from_catalog->0@ + "' not found. Available: "@ + crate::text::join(
                catalog_keys(catalog),
                ", "@,
            ),
        )
    } else if a.env.len() > 0 && env_rows_spec(views(a.env@)) is Err {
        Some(env_rows_spec(views(a.env@))->Err_0)
    } else if a.from_catalog is None && (a.label is None || a.command is None || trim_ws(
        a.command->0@,
    ).len() == 0) {
        Some(ADD_NEEDS_LABEL_AND_COMMAND_ERROR@)
    } else {
        None
    }
}

/// The agent `coding-agent add` writes: each given flag over the starting
/// agent (see [`add_base`]), the label trimmed, the rows replaced, the seed
/// flags applied; no id yet.
pub open spec fn added_agent(a: AddArgs, catalog: Seq<CodingAgentDefinition>) -> AgentView {
    let b = add_base(a, catalog);
    AgentView {
        id: Seq::empty(),
        label: match a.label {
            Some(l) => trim_ws(l@),
            None => b.label,
        },
        command: match a.command {
            Some(c) => c@,
            None => b.command,
        },
        color: match a.color {
            Some(c) => c@,
            None => b.color,
        },
        envs: if a.env.len() > 0 {
            env_rows_spec(views(a.env@))->Ok_0
        } else {
            b.envs
        },
        isolated_home: match a.isolated_home {
            Some(h) => h,
            None => b.isolated_home,
        },
        instructions_filename: match a.instructions_filename {
            Some(n) => Some(n@),
            None => b.instructions_filename,
        },
        config_seed: seed_after(b.config_seed, opt_view(a.config_seed_dest), a.config_seed_enabled),
    }
}

/// What `coding-agent add` decides before writing (see [`add_refusal`] and
/// [`added_agent`]).
/// `catalog` is the catalog, read when `--from-catalog` is given.
pub fn cmd_add(a: AddArgs, catalog: &Vec<CodingAgentDefinition>) -> (r: Result<AddPlan, String>)
    ensures
        match add_refusal(a, catalog@) {
            Some(e) => r matches Err(m) && m@ == e,
            None => r matches Ok(plan) && agent_view(plan.agent) == added_agent(a, catalog@) && opt_view(
                plan.id,
            ) == opt_view(a.id),
        },
{
    if let Some(color) = &a.color {
        validate_agent_color(color.as_str())?;
    }
    if let Some(label) = &a.label {
        let lv = chars_of(label.as_str());
        if trim(&lv).len() == 0 {
            return Err(owned(EMPTY_LABEL_ERROR));
        }
    }
    let mut agent = match &a.from_catalog {
        Some(key) => match find_catalog(catalog, key.as_str()) {
            Some(i) => {
                let seeded = definition_to_agent_seed(&catalog[i]);
                assert(seed_view(seeded.config_seed) == seed_view(catalog@[i as int].config_seed));
                assert(agent_view(seeded) == definition_view(catalog@[i as int]));
                seeded
            },
            None => {
                let keys = catalog_key_strings(catalog);
                let kc = crate::text::chars_all(&keys);
                let sep = chars_of(", ");
                let joined = crate::text::join_chars(&kc, &sep);
                let mut m: Vec<char> = Vec::new();
                append_str(&mut m, "catalog key '");
                append_str(&mut m, key.as_str());
                append_str(&mut m, "' not found. Available: ");
                append_chars(&mut m, &joined);
                return Err(string_of(&m));
            },
        },
        None => {
            let blank = blank_agent();
            assert(env_views(blank.envs@) =~= Seq::<EnvView>::empty());
            assert(agent_view(blank) == blank_view());
            blank
        },
    };
    let ghost ga = a;
    let ghost base = add_base(ga, catalog@);
    assert(agent_view(agent) == base);
    let from_catalog = a.from_catalog.is_some();
    if let Some(label) = a.label {
        let lv = chars_of(label.as_str());
        let t = trim(&lv);
        proof {
            crate::text::lemma_trim_idempotent(lv@);
        }
        agent.label = string_of(&t);
    }
    if let Some(command) = a.command {
        agent.command = command;
    }
    if let Some(color) = a.color {
        agent.color = color;
    }
    if a.env.len() > 0 {
        agent.envs = parse_env_flags(a.env.as_slice())?;
    }
    if let Some(isolated) = a.isolated_home {
        agent.isolated_home = isolated;
    }
    if let Some(name) = a.instructions_filename {
        agent.instructions_filename = Some(name);
    }
    let ghost before_seed = seed_view(agent.config_seed);
    assert(before_seed == base.config_seed);
    apply_seed_flags(&mut agent, a.config_seed_dest, a.config_seed_enabled);
    assert(seed_view(agent.config_seed) == seed_after(base.config_seed, opt_view(ga.config_seed_dest), ga.config_seed_enabled));
    if !from_catalog {
        let lv = chars_of(agent.label.as_str());
        let cv = chars_of(agent.command.as_str());
        if trim(&lv).len() == 0 || trim(&cv).len() == 0 {
            return Err(owned(ADD_NEEDS_LABEL_AND_COMMAND_ERROR));
        }
    }
    assert(agent_view(agent) == added_agent(ga, catalog@));
    Ok(AddPlan { agent, id: a.id })
}

pub const CLEAR_ENVS_CONFLICT_ERROR: &'static str = "--clear-envs conflicts with --env";

pub const CLEAR_INSTRUCTIONS_CONFLICT_ERROR: &'static str =
    "--clear-instructions-filename conflicts with --instructions-filename";

pub const CLEAR_SEED_CONFLICT_ERROR: &'static str =
    "--clear-config-seed conflicts with --config-seed-dest / --config-seed-enabled";

/// The first refusal of `coding-agent update`, in order: conflicting clear
/// flags, a bad color, a blank label, a bad `--env` item.
pub open spec fn update_refusal(a: UpdateArgs) -> Option<Seq<char>> {
    if a.clear_envs && a.env.len() > 0 {
        Some(CLEAR_ENVS_CONFLICT_ERROR@)
    } else if a.clear_instructions_filename && a.instructions_filename.is_some() {
        Some(CLEAR_INSTRUCTIONS_CONFLICT_ERROR@)
    } else if a.clear_config_seed && (a.config_seed_dest.is_some() || a.config_seed_enabled.is_some()) {
        Some(CLEAR_SEED_CONFLICT_ERROR@)
    } else if a.color matches Some(c) && !color_ok(c@) {
        Some(BAD_COLOR_ERROR@)
    } else if a.label matches Some(l) && trim_ws(l@).len() == 0 {
        Some(EMPTY_LABEL_ERROR@)
    } else if !a.clear_envs && a.env.len() > 0 && env_rows_spec(views(a.env@)) is Err {
        Some(env_rows_spec(views(a.env@))->Err_0)
    } else {
        None
    }
}

/// The change `coding-agent update` requests, or its refusal (see
/// [`update_refusal`]). The patch carries each given flag: the label trimmed,
/// the rows cleared (`--clear-envs`) or replaced (`--env`), and the clear
/// flags.
pub fn cmd_update(a: UpdateArgs) -> (r: Result<CodingAgentOp, String>)
    ensures
        match update_refusal(a) {
            Some(e) => r matches Err(m) && m@ == e,
            None => r matches Ok(CodingAgentOp::Update { id, patch }) && {
                &&& id@ == a.id@
                &&& opt_view(patch.label) == match a.label {
                    Some(l) => Some(trim_ws(l@)),
                    None => None,
                }
                &&& opt_view(patch.command) == opt_view(a.command)
                &&& opt_view(patch.color) == opt_view(a.color)
                &&& (a.clear_envs ==> (patch.envs matches Some(v) && v@.len() == 0))
                &&& (!a.clear_envs && a.env.len() == 0 ==> patch.envs.is_none())
                &&& (!a.clear_envs && a.env.len() > 0 ==> (patch.envs matches Some(v)
                    && env_rows_spec(views(a.env@)) == Ok::<Seq<EnvView>, Seq<char>>(
                    env_views(v@),
                )))
                &&& patch.isolated_home == a.isolated_home
                &&& opt_view(patch.instructions_filename) == opt_view(a.instructions_filename)
                &&& patch.clear_instructions_filename == a.clear_instructions_filename
                &&& opt_view(patch.config_seed_dest) == opt_view(a.config_seed_dest)
                &&& patch.config_seed_enabled == a.config_seed_enabled
                &&& patch.clear_config_seed == a.clear_config_seed
            },
        },
{
    if a.clear_envs && a.env.len() > 0 {
        return Err(owned(CLEAR_ENVS_CONFLICT_ERROR));
    }
    if a.clear_instructions_filename && a.instructions_filename.is_some() {
        return Err(owned(CLEAR_INSTRUCTIONS_CONFLICT_ERROR));
    }
    if a.clear_config_seed && (a.config_seed_dest.is_some() || a.config_seed_enabled.is_some()) {
        return Err(owned(CLEAR_SEED_CONFLICT_ERROR));
    }
    if let Some(color) = &a.color {
        validate_agent_color(color.as_str())?;
    }
    if let Some(label) = &a.label {
        let lv = chars_of(label.as_str());
        if trim(&lv).len() == 0 {
            return Err(owned(EMPTY_LABEL_ERROR));
        }
    }
    let envs = if a.clear_envs {
        Some(Vec::new())
    } else if a.env.len() == 0 {
        None
    } else {
        Some(parse_env_flags(a.env.as_slice())?)
    };
    let label = match a.label {
        Some(l) => {
            let lv = chars_of(l.as_str());
            let t = trim(&lv);
            Some(string_of(&t))
        },
        None => None,
    };
    let patch = AgentPatch {
        label,
        command: a.command,
        color: a.color,
        envs,
        isolated_home: a.isolated_home,
        instructions_filename: a.instructions_filename,
        clear_instructions_filename: a.clear_instructions_filename,
        config_seed_dest: a.config_seed_dest,
        config_seed_enabled: a.config_seed_enabled,
        clear_config_seed: a.clear_config_seed,
    };
    Ok(CodingAgentOp::Update { id: a.id, patch })
}

/// The change `coding-agent remove` requests.
pub fn cmd_remove(a: RemoveArgs) -> (r: CodingAgentOp)
    ensures
        r matches CodingAgentOp::Remove { id } && id@ == a.id@,
{
    CodingAgentOp::Remove { id: a.id }
}

// ---------------------------------------------------------------------------
// The verb.

/// What `coding-agent` does once its arguments are decided.
pub enum CodingAgentPlan {
    /// Print the configured agents.
    List,
    /// Print the agent with this id.
    Show(String),
    /// Print the catalog.
    Catalog,
    /// Add this agent, with the given id or a minted one.
    Add { plan: AddPlan, confirm_timeout: u64 },
    /// Apply this change.
    Mutate { op: CodingAgentOp, confirm_timeout: u64 },
}

/// The decisions of `coding-agent` before settings are read or written: read
/// verbs pass through, mutations are checked and turned into a change (an
/// error exits with code 1). `catalog` is the catalog, read by the caller
/// when `add --from-catalog` is given.
pub fn execute(args: CodingAgentArgs, catalog: &Vec<CodingAgentDefinition>) -> (r: Result<
    CodingAgentPlan,
    String,
>)
    ensures
        args.cmd is List ==> r matches Ok(CodingAgentPlan::List),
        args.cmd is Catalog ==> r matches Ok(CodingAgentPlan::Catalog),
        args.cmd matches CodingAgentCmd::Show(s) ==> r matches Ok(CodingAgentPlan::Show(id))
            && id@ == s.id@,
        args.cmd matches CodingAgentCmd::Remove(ra) ==> r matches Ok(
            CodingAgentPlan::Mutate { op: CodingAgentOp::Remove { id }, confirm_timeout },
        ) && id@ == ra.id@ && confirm_timeout == ra.confirm_timeout,
        args.cmd matches CodingAgentCmd::Update(ua) ==> (match update_refusal(ua) {
            Some(e) => r matches Err(m) && m@ == e,
            None => r matches Ok(CodingAgentPlan::Mutate { op: CodingAgentOp::Update { id, .. }, confirm_timeout })
                && id@ == ua.id@ && confirm_timeout == ua.confirm_timeout,
        }),
        args.cmd matches CodingAgentCmd::Add(aa) ==> (match add_refusal(aa, catalog@) {
            Some(e) => r matches Err(m) && m@ == e,
            None => r matches Ok(CodingAgentPlan::Add { plan, confirm_timeout }) && agent_view(plan.agent)
                == added_agent(aa, catalog@) && opt_view(plan.id) == opt_view(aa.id) && confirm_timeout
                == aa.confirm_timeout,
        }),
{
    match args.cmd {
        CodingAgentCmd::List => Ok(CodingAgentPlan::List),
        CodingAgentCmd::Show(s) => Ok(CodingAgentPlan::Show(s.id)),
        CodingAgentCmd::Catalog => Ok(CodingAgentPlan::Catalog),
        CodingAgentCmd::Add(a) => {
            let confirm_timeout = a.confirm_timeout;
            let plan = cmd_add(a, catalog)?;
            Ok(CodingAgentPlan::Add { plan, confirm_timeout })
        },
        CodingAgentCmd::Update(a) => {
            let confirm_timeout = a.confirm_timeout;
            let op = cmd_update(a)?;
            Ok(CodingAgentPlan::Mutate { op, confirm_timeout })
        },
        CodingAgentCmd::Remove(a) => {
            let confirm_timeout = a.confirm_timeout;
            Ok(CodingAgentPlan::Mutate { op: cmd_remove(a), confirm_timeout })
        },
    }
}

/// The refusal after a GUI did not take a queued change in time.
pub fn cancelled_message(confirm_timeout: u64) -> (out: String)
    ensures
        out@ == "GUI did not process the request within "@ + decimal(confirm_timeout as nat)
            + "s; request cancelled (safe to retry)"@,
{
    let mut v: Vec<char> = Vec::new();
    append_str(&mut v, "GUI did not process the request within ");
    push_decimal(&mut v, confirm_timeout);
    append_str(&mut v, "s; request cancelled (safe to retry)");
    string_of(&v)
}


/// Each explicit flag of `coding-agent add` overrides the seeded value: an
/// added agent has the given color, command and isolated-home setting, the
/// given label trimmed, the given instructions file, and the parsed
/// environment rows when any are given.
pub proof fn lemma_add_flags_override(a: AddArgs, catalog: Seq<CodingAgentDefinition>)
    ensures
        a.color matches Some(c) ==> added_agent(a, catalog).color == c@,
        a.command matches Some(c) ==> added_agent(a, catalog).command == c@,
        a.label matches Some(l) ==> added_agent(a, catalog).label == trim_ws(l@),
        a.isolated_home matches Some(h) ==> added_agent(a, catalog).isolated_home == h,
        a.instructions_filename matches Some(n) ==> added_agent(a, catalog).instructions_filename == Some(n@),
        a.env.len() > 0 && env_rows_spec(views(a.env@)) is Ok ==> added_agent(a, catalog).envs == env_rows_spec(
            views(a.env@),
        )->Ok_0,
{
}

} // verus!
