//! The settings of the gateway, and how the environment changes them.

use crate::text;
use vstd::prelude::*;

verus! {

#[derive(Debug, Clone)]
pub struct ServerConfig {
    pub listen: String,
}

#[derive(Debug, Clone)]
pub struct CircuitBreakerConfig {
    pub failure_threshold: u32,
    pub cooldown_secs: u64,
    pub success_threshold: u32,
}

#[derive(Debug, Clone)]
pub struct RateLimitConfig {
    pub max_retries: u32,
    pub initial_backoff_ms: u64,
}

#[derive(Debug, Clone)]
pub struct ProviderConfig {
    pub base_url: String,
    pub keys: Vec<String>,
    pub models: Vec<String>,
}

/// The order in which providers are tried.
#[derive(Debug, Clone)]
pub struct ChainConfig {
    pub order: Vec<String>,
}

#[derive(Debug, Clone)]
pub struct Config {
    pub server: ServerConfig,
    pub circuit_breaker: CircuitBreakerConfig,
    pub rate_limit: RateLimitConfig,
    pub providers: ProviderTable,
    pub chain: ChainConfig,
}

/// What the settings of a provider are, as a mathematical value.
pub struct ProviderConfigModel {
    pub base_url: Seq<char>,
    pub keys: Seq<Seq<char>>,
    pub models: Seq<Seq<char>>,
}

impl View for ProviderConfig {
    type V = ProviderConfigModel;

    open spec fn view(&self) -> ProviderConfigModel {
        ProviderConfigModel {
            base_url: self.base_url@,
            keys: text::texts(self.keys@),
            models: text::texts(self.models@),
        }
    }
}

// ---------------------------------------------------------------------------
// The table of providers
// ---------------------------------------------------------------------------

/// A provider's settings under its name.
#[derive(Debug, Clone)]
struct Entry {
    name: String,
    config: ProviderConfig,
}

/// The settings of each provider by name. No name occurs twice.
#[derive(Debug, Clone)]
pub struct ProviderTable {
    entries: Vec<Entry>,
}

impl View for ProviderTable {
    type V = Seq<(Seq<char>, ProviderConfigModel)>;

    closed spec fn view(&self) -> Seq<(Seq<char>, ProviderConfigModel)> {
        Seq::new(
            self.entries@.len(),
            |i: int| (self.entries@[i].name@, self.entries@[i].config@),
        )
    }
}

/// Whether `name` occurs among the entries.
pub open spec fn has_name(entries: Seq<(Seq<char>, ProviderConfigModel)>, name: Seq<char>) -> bool {
    exists|i: int| 0 <= i < entries.len() && #[trigger] entries[i].0 == name
}

/// The settings under `name`.
pub open spec fn settings_of(
    entries: Seq<(Seq<char>, ProviderConfigModel)>,
    name: Seq<char>,
) -> ProviderConfigModel {
    entries[choose|i: int| 0 <= i < entries.len() && #[trigger] entries[i].0 == name].1
}

/// No name occurs twice.
pub open spec fn names_differ(entries: Seq<(Seq<char>, ProviderConfigModel)>) -> bool {
    forall|i: int, j: int|
        0 <= i < j < entries.len() ==> #[trigger] entries[i].0 != #[trigger] entries[j].0
}

impl ProviderTable {
    pub open spec fn wf(&self) -> bool {
        names_differ(self@)
    }

    /// A table without entries.
    pub fn new() -> (r: ProviderTable)
        ensures
            r.wf(),
            r@.len() == 0,
    {
        ProviderTable { entries: Vec::new() }
    }

    /// The number of entries.
    pub fn len(&self) -> (r: usize)
        ensures
            r == self@.len(),
    {
        self.entries.len()
    }

    /// The name of the entry at place `i`.
    pub fn name(&self, i: usize) -> (r: &String)
        requires
            i < self@.len(),
        ensures
            r@ == self@[i as int].0,
    {
        &self.entries[i].name
    }

    /// The settings of the entry at place `i`.
    pub fn settings(&self, i: usize) -> (r: &ProviderConfig)
        requires
            i < self@.len(),
        ensures
            r@ == self@[i as int].1,
    {
        &self.entries[i].config
    }

    /// The settings under `name`, if there are any.
    pub fn get(&self, name: &str) -> (r: Option<&ProviderConfig>)
        requires
            self.wf(),
        ensures
            r is Some <==> has_name(self@, name@),
            r matches Some(config) ==> config@ == settings_of(self@, name@),
    {
        for i in 0..self.entries.len()
            invariant
                self.wf(),
                forall|j: int| 0 <= j < i ==> (#[trigger] self@[j]).0 != name@,
        {
            if text::same_text(self.entries[i].name.as_str(), name) {
                assert(self@[i as int].0 == name@);
                return Some(&self.entries[i].config);
            }
        }
        None
    }

    /// Puts settings under a name, in place of those that were there.
    pub fn insert(&mut self, name: String, config: ProviderConfig)
        requires
            old(self).wf(),
        ensures
            final(self).wf(),
            has_name(old(self)@, name@) ==> exists|i: int|
                0 <= i < old(self)@.len() && #[trigger] old(self)@[i].0 == name@ && final(self)@
                    == old(self)@.update(i, (name@, config@)),
            !has_name(old(self)@, name@) ==> final(self)@ == old(self)@.push((name@, config@)),
    {
        let mut i: usize = 0;
        while i < self.entries.len()
            invariant
                self.wf(),
                *self == *old(self),
                i <= self.entries.len(),
                forall|j: int| 0 <= j < i ==> (#[trigger] self@[j]).0 != name@,
            decreases self.entries.len() - i,
        {
            if text::same_text(self.entries[i].name.as_str(), name.as_str()) {
                let ghost before = self@;
                let ghost entry = (name@, config@);
                assert(before[i as int].0 == name@);
                self.entries.set(i, Entry { name, config });
                assert(self@ =~= before.update(i as int, entry));
                return;
            }
            i = i + 1;
        }
        let ghost before = self@;
        let ghost entry = (name@, config@);
        self.entries.push(Entry { name, config });
        assert(self@ =~= before.push(entry));
    }

    /// Replaces the keys of the entry at place `i`.
    fn set_keys(&mut self, i: usize, keys: Vec<String>)
        requires
            i < old(self)@.len(),
        ensures
            final(self)@ == old(self)@.update(
                i as int,
                (
                    old(self)@[i as int].0,
                    ProviderConfigModel { keys: text::texts(keys@), ..old(self)@[i as int].1 },
                ),
            ),
    {
        let ghost before = self@;
        let name = self.entries[i].name.clone();
        let base_url = self.entries[i].config.base_url.clone();
        let models = text::clone_texts(&self.entries[i].config.models);
        self.entries.set(i, Entry { name, config: ProviderConfig { base_url, keys, models } });
        assert(self@ =~= before.update(
            i as int,
            (
                before[i as int].0,
                ProviderConfigModel { keys: text::texts(keys@), ..before[i as int].1 },
            ),
        ));
    }
}

// ---------------------------------------------------------------------------
// The environment
// ---------------------------------------------------------------------------

/// The upper-case text that `str::to_uppercase` gives for `s`.
pub uninterp spec fn upper_case(s: Seq<char>) -> Seq<char>;

/// Whether every character is an ASCII character.
pub open spec fn ascii(s: Seq<char>) -> bool {
    forall|i: int| 0 <= i < s.len() ==> (#[trigger] s[i]) as u32 <= 127
}

/// An ASCII character in upper case.
pub open spec fn ascii_upper(c: char) -> char {
    if 'a' <= c && c <= 'z' {
        (c as u32 - 32) as char
    } else {
        c
    }
}

/// Calls `str::to_uppercase`. Of ASCII text it is known that the letters `a` to
/// `z` become `A` to `Z` and that everything else stays.
#[verifier::external_body]
fn to_upper_case(s: &str) -> (r: String)
    ensures
        r@ == upper_case(s@),
        ascii(s@) ==> r@ == s@.map_values(|c: char| ascii_upper(c)),
{
    s.to_uppercase()
}

/// The variable with a list of keys for a provider.
pub open spec fn key_list_variable(name: Seq<char>) -> Seq<char> {
    "FLEET_GATEWAY__PROVIDERS__"@ + upper_case(name) + "__KEYS"@
}

/// The variable with a single key for a provider.
pub open spec fn single_key_variable(name: Seq<char>) -> Seq<char> {
    upper_case(name) + "_API_KEY"@
}

/// The value of a variable, if it is set.
pub open spec fn lookup(env: Seq<(String, String)>, variable: Seq<char>) -> Option<Seq<char>>
    decreases env.len(),
{
    if env.len() == 0 {
        None
    } else if env[0].0@ == variable {
        Some(env[0].1@)
    } else {
        lookup(env.skip(1), variable)
    }
}

/// The keys that a list in the environment gives: none where its first key is empty.
pub open spec fn listed_keys(list: Option<Seq<char>>) -> Seq<Seq<char>> {
    match list {
        Some(value) => {
            let listed = text::trimmed_pieces(value, ',');
            if listed.len() > 0 && listed[0].len() > 0 {
                listed
            } else {
                Seq::empty()
            }
        },
        None => Seq::empty(),
    }
}

/// The keys of a provider after the environment has been looked at: those of
/// the list where it gives some, else the single key where it is set and not
/// empty, else those of the file.
pub open spec fn keys_from_environment(
    keys: Seq<Seq<char>>,
    list: Option<Seq<char>>,
    single: Option<Seq<char>>,
) -> Seq<Seq<char>> {
    let listed = listed_keys(list);
    if listed.len() > 0 {
        listed
    } else {
        match single {
            Some(value) => if value.len() > 0 {
                seq![value]
            } else {
                keys
            },
            None => keys,
        }
    }
}

/// The name of the variable with a list of keys for the provider `name`.
pub fn key_list_variable_name(name: &str) -> (r: String)
    ensures
        r@ == key_list_variable(name@),
        ascii(name@) ==> r@ == "FLEET_GATEWAY__PROVIDERS__"@ + name@.map_values(
            |c: char| ascii_upper(c),
        ) + "__KEYS"@,
{
    let mut out = String::new();
    out.append("FLEET_GATEWAY__PROVIDERS__");
    out.append(to_upper_case(name).as_str());
    out.append("__KEYS");
    out
}

/// The name of the variable with a single key for the provider `name`.
pub fn single_key_variable_name(name: &str) -> (r: String)
    ensures
        r@ == single_key_variable(name@),
        ascii(name@) ==> r@ == name@.map_values(|c: char| ascii_upper(c)) + "_API_KEY"@,
{
    let mut out = String::new();
    out.append(to_upper_case(name).as_str());
    out.append("_API_KEY");
    out
}

/// The value of a variable, if it is set.
pub fn variable<'a>(env: &'a Vec<(String, String)>, name: &str) -> (r: Option<&'a String>)
    ensures
        r is Some <==> lookup(env@, name@) is Some,
        r matches Some(value) ==> lookup(env@, name@) == Some(value@),
{
    let mut i: usize = 0;
    assert(env@.skip(0) =~= env@);
    while i < env.len()
        invariant
            i <= env.len(),
            lookup(env@, name@) == lookup(env@.skip(i as int), name@),
        decreases env.len() - i,
    {
        assert(env@.skip(i as int)[0] == env@[i as int]);
        if text::same_text(env[i].0.as_str(), name) {
            return Some(&env[i].1);
        }
        assert(env@.skip(i as int).skip(1) =~= env@.skip(i + 1));
        i = i + 1;
    }
    None
}

/// The keys of a provider after the environment has been looked at.
pub fn override_keys(keys: &Vec<String>, list: Option<&String>, single: Option<&String>) -> (r: Vec<
    String,
>)
    ensures
        text::texts(r@) == keys_from_environment(
            text::texts(keys@),
            match list {
                Some(value) => Some(value@),
                None => None,
            },
            match single {
                Some(value) => Some(value@),
                None => None,
            },
        ),
{
    if let Some(value) = list {
        let listed = text::split_trimmed(value.as_str(), ',');
        assert(text::texts(listed@)[0] == listed@[0]@);
        if !listed[0].as_str().is_empty() {
            return listed;
        }
    }
    if let Some(value) = single {
        if !value.as_str().is_empty() {
            let mut out: Vec<String> = Vec::new();
            out.push(value.clone());
            assert(text::texts(out@) =~= seq![value@]);
            return out;
        }
    }
    text::clone_texts(keys)
}

impl Config {
    pub open spec fn wf(&self) -> bool {
        self.providers.wf()
    }

    /// Takes the keys that the environment provides. `env` lists the variables
    /// that are set.
    pub fn apply_environment(&mut self, env: &Vec<(String, String)>)
        requires
            old(self).wf(),
        ensures
            final(self).wf(),
            final(self).server == old(self).server,
            final(self).circuit_breaker == old(self).circuit_breaker,
            final(self).rate_limit == old(self).rate_limit,
            final(self).chain == old(self).chain,
            final(self).providers@ == with_environment(old(self).providers@, env@),
    {
        let n: usize = self.providers.len();
        let ghost before = self.providers@;
        for i in 0..n
            invariant
                n == before.len(),
                before == old(self).providers@,
                names_differ(before),
                self.server == old(self).server,
                self.circuit_breaker == old(self).circuit_breaker,
                self.rate_limit == old(self).rate_limit,
                self.chain == old(self).chain,
                self.providers@.len() == n,
                forall|j: int|
                    0 <= j < i ==> #[trigger] self.providers@[j] == entry_with_environment(
                        before[j],
                        env@,
                    ),
                forall|j: int| i <= j < n ==> #[trigger] self.providers@[j] == before[j],
        {
            let keys = {
                let name = self.providers.name(i).as_str();
                let list = variable(env, key_list_variable_name(name).as_str());
                let single = variable(env, single_key_variable_name(name).as_str());
                override_keys(&self.providers.settings(i).keys, list, single)
            };
            self.providers.set_keys(i, keys);
        }
        proof {
            assert(self.providers@ =~= with_environment(before, env@));
            assert forall|i: int, j: int|
                0 <= i < j < self.providers@.len() implies #[trigger] self.providers@[i].0
                != #[trigger] self.providers@[j].0 by {
                assert(before[i].0 != before[j].0);
            }
        }
    }
}

/// An entry with the keys that the environment provides.
pub open spec fn entry_with_environment(
    entry: (Seq<char>, ProviderConfigModel),
    env: Seq<(String, String)>,
) -> (Seq<char>, ProviderConfigModel) {
    (
        entry.0,
        ProviderConfigModel {
            keys: keys_from_environment(
                entry.1.keys,
                lookup(env, key_list_variable(entry.0)),
                lookup(env, single_key_variable(entry.0)),
            ),
            ..entry.1
        },
    )
}

/// Every entry with the keys that the environment provides.
pub open spec fn with_environment(
    entries: Seq<(Seq<char>, ProviderConfigModel)>,
    env: Seq<(String, String)>,
) -> Seq<(Seq<char>, ProviderConfigModel)> {
    Seq::new(entries.len(), |i: int| entry_with_environment(entries[i], env))
}

// ---------------------------------------------------------------------------
// The configuration file
// ---------------------------------------------------------------------------

/// The file to read the settings from: the one that the environment names,
/// else `fleet-gateway.toml` where it exists, else the one under `config/`.
pub fn config_path(named: Option<String>, local_exists: bool) -> (r: String)
    ensures
        r@ == match named {
            Some(path) => path@,
            None => if local_exists {
                "fleet-gateway.toml"@
            } else {
                "config/fleet-gateway.toml"@
            },
        },
{
    match named {
        Some(path) => path,
        None => if local_exists {
            "fleet-gateway.toml".to_string()
        } else {
            "config/fleet-gateway.toml".to_string()
        },
    }
}

// ---------------------------------------------------------------------------
// Laws
// ---------------------------------------------------------------------------

/// A list of keys in the environment replaces the keys of the file, and comes
/// before a single key, unless its first key is empty.
pub proof fn listed_keys_win(keys: Seq<Seq<char>>, list: Seq<char>, single: Option<Seq<char>>)
    requires
        text::trimmed_pieces(list, ',')[0].len() > 0,
    ensures
        keys_from_environment(keys, Some(list), single) == text::trimmed_pieces(list, ','),
{
    assert(text::pieces_from(list, ',', 0).len() > 0);
}

/// A single key in the environment replaces the keys of the file.
pub proof fn single_key_overrides_the_file(keys: Seq<Seq<char>>, single: Seq<char>)
    requires
        single.len() > 0,
    ensures
        keys_from_environment(keys, None, Some(single)) == seq![single],
{
}

/// Where the environment gives no key, those of the file stay.
pub proof fn file_counts_without_the_environment(keys: Seq<Seq<char>>)
    ensures
        keys_from_environment(keys, None, None) == keys,
{
}

/// The environment never takes the last key away.
pub proof fn environment_never_takes_keys_away(
    keys: Seq<Seq<char>>,
    list: Option<Seq<char>>,
    single: Option<Seq<char>>,
)
    requires
        keys.len() > 0,
    ensures
        keys_from_environment(keys, list, single).len() > 0,
{
}

/// A table finds exactly the names it holds, each with its own settings.
pub proof fn tables_find_their_entries(entries: Seq<(Seq<char>, ProviderConfigModel)>, i: int)
    requires
        names_differ(entries),
        0 <= i < entries.len(),
    ensures
        has_name(entries, entries[i].0),
        settings_of(entries, entries[i].0) == entries[i].1,
{
    let name = entries[i].0;
    let j = choose|j: int| 0 <= j < entries.len() && #[trigger] entries[j].0 == name;
    assert(entries[i].0 == name);
    assert(entries[j].0 == name);
}

/// A table does not find a name that it does not hold.
pub proof fn tables_find_nothing_else(
    entries: Seq<(Seq<char>, ProviderConfigModel)>,
    name: Seq<char>,
)
    requires
        forall|i: int| 0 <= i < entries.len() ==> #[trigger] entries[i].0 != name,
    ensures
        !has_name(entries, name),
{
}

/// The value of a variable is the one at its first place in the environment.
pub proof fn first_setting_counts(env: Seq<(String, String)>, name: Seq<char>, i: int)
    requires
        0 <= i < env.len(),
        env[i].0@ == name,
        forall|j: int| 0 <= j < i ==> (#[trigger] env[j]).0@ != name,
    ensures
        lookup(env, name) == Some(env[i].1@),
    decreases i,
{
    if i > 0 {
        assert(env[0].0@ != name);
        assert forall|j: int| 0 <= j < i - 1 implies (#[trigger] env.skip(1)[j]).0@ != name by {
            assert(env[j + 1].0@ != name);
        }
        first_setting_counts(env.skip(1), name, i - 1);
    }
}

/// A variable that is not in the environment has no value.
pub proof fn unset_variables_have_no_value(env: Seq<(String, String)>, name: Seq<char>)
    requires
        forall|j: int| 0 <= j < env.len() ==> (#[trigger] env[j]).0@ != name,
    ensures
        lookup(env, name) is None,
    decreases env.len(),
{
    if env.len() > 0 {
        assert(env[0].0@ != name);
        assert forall|j: int| 0 <= j < env.len() - 1 implies (#[trigger] env.skip(1)[j]).0@
            != name by {
            assert(env[j + 1].0@ != name);
        }
        unset_variables_have_no_value(env.skip(1), name);
    }
}

/// The environment changes nothing of a provider but its keys, and adds,
/// removes and moves none.
pub proof fn environment_changes_only_keys(
    entries: Seq<(Seq<char>, ProviderConfigModel)>,
    env: Seq<(String, String)>,
    i: int,
)
    requires
        0 <= i < entries.len(),
    ensures
        with_environment(entries, env).len() == entries.len(),
        with_environment(entries, env)[i].0 == entries[i].0,
        with_environment(entries, env)[i].1.base_url == entries[i].1.base_url,
        with_environment(entries, env)[i].1.models == entries[i].1.models,
{
}

/// A provider has the keys of its list in the environment, whatever keys the
/// file gives it and whatever else is set: the pieces between commas, trimmed,
/// where the first of them is not empty. `at` is where the list is first set.
pub proof fn provider_takes_its_list(
    entries: Seq<(Seq<char>, ProviderConfigModel)>,
    env: Seq<(String, String)>,
    i: int,
    at: int,
)
    requires
        0 <= i < entries.len(),
        0 <= at < env.len(),
        env[at].0@ == "FLEET_GATEWAY__PROVIDERS__"@ + upper_case(entries[i].0) + "__KEYS"@,
        forall|j: int| 0 <= j < at ==> (#[trigger] env[j]).0@ != env[at].0@,
        text::trimmed(text::pieces(env[at].1@, ',')[0]).len() > 0,
    ensures
        ({
            let keys = with_environment(entries, env)[i].1.keys;
            &&& keys.len() == text::pieces(env[at].1@, ',').len()
            &&& forall|k: int|
                0 <= k < keys.len() ==> #[trigger] keys[k] == text::trimmed(
                    text::pieces(env[at].1@, ',')[k],
                )
        }),
{
    first_setting_counts(env, env[at].0@, at);
    text::pieces_make_up_the_text(env[at].1@, ',');
    text::pieces_are_trimmed_one_by_one(env[at].1@, ',');
}

/// A provider without a list in the environment, or with one whose first key
/// is empty, has its single key there, whatever keys the file gives it, where
/// that is set and not empty.
pub proof fn provider_takes_its_single_key(
    entries: Seq<(Seq<char>, ProviderConfigModel)>,
    env: Seq<(String, String)>,
    i: int,
    at: int,
)
    requires
        0 <= i < entries.len(),
        0 <= at < env.len(),
        env[at].0@ == upper_case(entries[i].0) + "_API_KEY"@,
        forall|j: int| 0 <= j < at ==> (#[trigger] env[j]).0@ != env[at].0@,
        env[at].1@.len() > 0,
        gives_no_list(env, entries[i].0),
    ensures
        with_environment(entries, env)[i].1.keys == seq![env[at].1@],
{
    first_setting_counts(env, env[at].0@, at);
    lemma_no_list(env, entries[i].0);
}

/// A provider for which the environment gives no key keeps those of the file.
pub proof fn provider_keeps_its_keys(
    entries: Seq<(Seq<char>, ProviderConfigModel)>,
    env: Seq<(String, String)>,
    i: int,
)
    requires
        0 <= i < entries.len(),
        gives_no_list(env, entries[i].0),
        forall|j: int|
            0 <= j < env.len() ==> (#[trigger] env[j]).0@ != upper_case(entries[i].0) + "_API_KEY"@
                || env[j].1@.len() == 0,
    ensures
        with_environment(entries, env)[i].1.keys == entries[i].1.keys,
{
    lemma_no_list(env, entries[i].0);
    let name = upper_case(entries[i].0) + "_API_KEY"@;
    if lookup(env, name) is Some {
        let at = lemma_lookup_is_at(env, name);
        assert(env[at].0@ == name);
    }
}

/// Whether every list of keys for a provider in the environment starts with an
/// empty key, or there is none.
pub open spec fn gives_no_list(env: Seq<(String, String)>, provider: Seq<char>) -> bool {
    forall|j: int|
        0 <= j < env.len() && (#[trigger] env[j]).0@ == "FLEET_GATEWAY__PROVIDERS__"@ + upper_case(
            provider,
        ) + "__KEYS"@ ==> text::trimmed(text::pieces(env[j].1@, ',')[0]).len() == 0
}

proof fn lemma_lookup_is_at(env: Seq<(String, String)>, name: Seq<char>) -> (at: int)
    requires
        lookup(env, name) is Some,
    ensures
        0 <= at < env.len(),
        env[at].0@ == name,
        lookup(env, name) == Some(env[at].1@),
    decreases env.len(),
{
    if env[0].0@ == name {
        0
    } else {
        let at = lemma_lookup_is_at(env.skip(1), name);
        at + 1
    }
}

proof fn lemma_no_list(env: Seq<(String, String)>, provider: Seq<char>)
    requires
        gives_no_list(env, provider),
    ensures
        listed_keys(lookup(env, key_list_variable(provider))).len() == 0,
{
    let name = "FLEET_GATEWAY__PROVIDERS__"@ + upper_case(provider) + "__KEYS"@;
    if lookup(env, name) is Some {
        let at = lemma_lookup_is_at(env, name);
        assert(env[at].0@ == name);
        text::pieces_make_up_the_text(env[at].1@, ',');
    }
}

/// The settings of a provider hold what their model says.
pub proof fn models_of_settings(c: ProviderConfig)
    ensures
        c@.base_url == c.base_url@,
        c@.keys == text::texts(c.keys@),
        c@.models == text::texts(c.models@),
{
}

} // verus!
