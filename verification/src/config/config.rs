//! The providers that can be used, the one that is selected, and the MCP
//! servers that are known by name.

use vstd::prelude::*;
use crate::chat::ToolCallMethod;
use crate::text::{
    decimal,
    decimal_string,
    distinct_keys,
    find_key,
    key_position,
    lemma_key_position,
    str_eq,
};

verus! {

/// Named values, such as environment variables. A name should occur
/// once; where it occurs twice, the first entry counts.
pub type NamedValues = Vec<(String, String)>;

/// The value under `key`, if there is one.
pub open spec fn value_of(entries: Seq<(String, String)>, key: Seq<char>) -> Option<Seq<char>> {
    match key_position(entries, key) {
        Some(i) => Some(entries[i].1@),
        None => None,
    }
}

/// Whether two lists give every name the same value.
pub open spec fn same_values(a: Seq<(String, String)>, b: Seq<(String, String)>) -> bool {
    forall|key: Seq<char>| value_of(a, key) == value_of(b, key)
}

fn lookup<'a>(entries: &'a NamedValues, key: &str) -> (r: Option<&'a String>)
    ensures
        match value_of(entries@, key@) {
            Some(v) => r is Some && r->Some_0@ == v,
            None => r is None,
        },
{
    match find_key(entries, key) {
        Some(i) => Some(&entries[i].1),
        None => None,
    }
}

/// Whether every name of `a` has in `b` the value it has in `a`.
fn agrees_on_names_of(a: &NamedValues, b: &NamedValues) -> (r: bool)
    ensures
        r == forall|i: int|
            0 <= i < a.len() ==> value_of(a@, (#[trigger] a@[i]).0@) == value_of(b@, a@[i].0@),
{
    let mut i: usize = 0;
    while i < a.len()
        invariant
            i <= a.len(),
            forall|j: int|
                0 <= j < i ==> value_of(a@, (#[trigger] a@[j]).0@) == value_of(b@, a@[j].0@),
        decreases a.len() - i,
    {
        let key = a[i].0.as_str();
        let same = match (lookup(a, key), lookup(b, key)) {
            (Some(x), Some(y)) => str_eq(x.as_str(), y.as_str()),
            (None, None) => true,
            _ => false,
        };
        if !same {
            return false;
        }
        i += 1;
    }
    true
}

/// Whether two lists give every name the same value.
pub fn named_values_equal(a: &NamedValues, b: &NamedValues) -> (r: bool)
    ensures
        r == same_values(a@, b@),
{
    let forth = agrees_on_names_of(a, b);
    let back = agrees_on_names_of(b, a);
    proof {
        if forth && back {
            assert forall|key: Seq<char>| value_of(a@, key) == value_of(b@, key) by {
                lemma_key_position(a@, key);
                lemma_key_position(b@, key);
                match key_position(a@, key) {
                    Some(i) => {
                        assert(a@[i].0@ == key);
                    },
                    None => {
                        match key_position(b@, key) {
                            Some(j) => {
                                assert(b@[j].0@ == key);
                            },
                            None => {},
                        }
                    },
                }
            }
        }
    }
    forth && back
}

/// One way to reach a model.
#[derive(Debug, PartialEq)]
pub struct ProviderConfig {
    pub provider: String,
    pub env_vars: NamedValues,
    pub model: String,
    pub tool_method: ToolCallMethod,
}

/// How to reach an MCP server.
#[derive(Debug, PartialEq)]
pub enum McpConfig {
    Stdio { command: String, args: Vec<String> },
    Http { url: String, bearer_token: Option<String> },
    Sse { url: String },
}

impl McpConfig {
    /// One line that tells how the server is reached.
    pub open spec fn description(self) -> Seq<char> {
        match self {
            McpConfig::Stdio { command, .. } => "stdio: "@ + command@,
            McpConfig::Http { url, bearer_token } => if bearer_token is Some {
                "http: "@ + url@ + " (authenticated)"@
            } else {
                "http: "@ + url@
            },
            McpConfig::Sse { url } => "sse: "@ + url@,
        }
    }

    /// One line that tells how the server is reached.
    pub fn describe(&self) -> (r: String)
        ensures
            r@ == self.description(),
    {
        match self {
            McpConfig::Stdio { command, .. } => {
                let mut text = String::from_str("stdio: ");
                text.append(command.as_str());
                text
            },
            McpConfig::Http { url, bearer_token } => {
                let mut text = String::from_str("http: ");
                text.append(url.as_str());
                if bearer_token.is_some() {
                    text.append(" (authenticated)");
                }
                text
            },
            McpConfig::Sse { url } => {
                let mut text = String::from_str("sse: ");
                text.append(url.as_str());
                text
            },
        }
    }
}

/// The providers, the one in use, and the MCP servers by name. A server
/// name should occur once; where it occurs twice, the first entry counts.
#[derive(Debug, PartialEq)]
pub struct ShaiConfig {
    pub providers: Vec<ProviderConfig>,
    pub selected_provider: usize,
    pub mcp_configs: Vec<(String, McpConfig)>,
}

/// The complaint about a provider index that names no provider.
pub open spec fn out_of_bounds_text(index: nat, have: nat) -> Seq<char> {
    "Provider index "@ + decimal(index) + " out of bounds (have "@ + decimal(have)
        + " providers)"@
}

fn out_of_bounds(index: usize, have: usize) -> (r: String)
    ensures
        r@ == out_of_bounds_text(index as nat, have as nat),
{
    let mut text = String::from_str("Provider index ");
    text.append(decimal_string(index as u64).as_str());
    text.append(" out of bounds (have ");
    text.append(decimal_string(have as u64).as_str());
    text.append(" providers)");
    text
}

/// The positions of the providers of the given kind, in rising order.
pub open spec fn positions_of_type(providers: Seq<ProviderConfig>, provider_type: Seq<char>) -> Seq<
    usize,
>
    decreases providers.len(),
{
    if providers.len() == 0 {
        Seq::empty()
    } else {
        let before = positions_of_type(providers.drop_last(), provider_type);
        if providers.last().provider@ == provider_type {
            before.push((providers.len() - 1) as usize)
        } else {
            before
        }
    }
}

/// The server names with the servers' descriptions, in the order of the list.
pub open spec fn described(configs: Seq<(String, McpConfig)>) -> Seq<(Seq<char>, Seq<char>)> {
    Seq::new(configs.len(), |i: int| (configs[i].0@, configs[i].1.description()))
}

impl ShaiConfig {
    /// Whether the lists stand for maps: no server name occurs twice, and
    /// no provider names a variable twice.
    pub open spec fn well_formed(&self) -> bool {
        &&& distinct_keys(self.mcp_configs@)
        &&& forall|i: int|
            0 <= i < self.providers.len() ==> distinct_keys(
                (#[trigger] self.providers@[i]).env_vars@,
            )
    }

    /// Adds a provider that uses native function calls. Returns its
    /// position. Variables that are named once each leave the
    /// configuration well formed.
    pub fn add_provider(&mut self, provider: String, env_vars: NamedValues, model: String) -> (r:
        usize)
        ensures
            old(self).well_formed() && distinct_keys(env_vars@) ==> final(self).well_formed(),
            final(self).providers@ == old(self).providers@.push(
                ProviderConfig {
                    provider,
                    env_vars,
                    model,
                    tool_method: ToolCallMethod::FunctionCall,
                },
            ),
            r == old(self).providers.len(),
            final(self).selected_provider == old(self).selected_provider,
            final(self).mcp_configs == old(self).mcp_configs,
    {
        let provider_config = ProviderConfig {
            provider,
            env_vars,
            model,
            tool_method: ToolCallMethod::FunctionCall,
        };
        self.providers.push(provider_config);
        self.providers.len() - 1
    }

    /// Whether the provider at `i` has this name, these values and this model.
    pub open spec fn matches_at(
        &self,
        i: int,
        provider_name: Seq<char>,
        env_vars: Seq<(String, String)>,
        model: Seq<char>,
    ) -> bool {
        self.providers@[i].provider@ == provider_name && same_values(
            self.providers@[i].env_vars@,
            env_vars,
        ) && self.providers@[i].model@ == model
    }

    /// Whether some provider has this name, these values and this model.
    pub fn is_duplicate_config(&self, provider_name: &str, env_vars: &NamedValues, model: &str) -> (r:
        bool)
        ensures
            r == exists|i: int|
                0 <= i < self.providers.len() && #[trigger] self.matches_at(
                    i,
                    provider_name@,
                    env_vars@,
                    model@,
                ),
    {
        let mut i: usize = 0;
        while i < self.providers.len()
            invariant
                i <= self.providers.len(),
                forall|j: int|
                    0 <= j < i ==> !#[trigger] self.matches_at(j, provider_name@, env_vars@, model@),
            decreases self.providers.len() - i,
        {
            let p = &self.providers[i];
            if str_eq(p.provider.as_str(), provider_name) && named_values_equal(
                &p.env_vars,
                env_vars,
            ) && str_eq(p.model.as_str(), model) {
                assert(self.matches_at(i as int, provider_name@, env_vars@, model@));
                return true;
            }
            i += 1;
        }
        false
    }

    /// The provider in use; `None` where the selection names none.
    pub fn get_selected_provider(&self) -> (r: Option<&ProviderConfig>)
        ensures
            self.selected_provider < self.providers.len() ==> r == Some(
                &self.providers@[self.selected_provider as int],
            ),
            self.selected_provider >= self.providers.len() ==> r is None,
    {
        if self.selected_provider < self.providers.len() {
            Some(&self.providers[self.selected_provider])
        } else {
            None
        }
    }

    /// The provider in use, to be changed in place.
    pub fn get_selected_provider_mut(&mut self) -> (r: Option<&mut ProviderConfig>)
        ensures
            old(self).selected_provider < old(self).providers.len() ==> r is Some
                && *r->Some_0 == old(self).providers@[old(self).selected_provider as int]
                && final(self).providers@ == old(self).providers@.update(
                old(self).selected_provider as int,
                *final(r->Some_0),
            ) && final(self).selected_provider == old(self).selected_provider
                && final(self).mcp_configs == old(self).mcp_configs,
            old(self).selected_provider >= old(self).providers.len() ==> r is None && *final(self)
                == *old(self),
    {
        if self.selected_provider < self.providers.len() {
            Some(&mut self.providers[self.selected_provider])
        } else {
            None
        }
    }

    /// Selects the provider at `index`, or says why not.
    pub fn set_selected_provider(&mut self, index: usize) -> (r: Result<(), String>)
        ensures
            old(self).well_formed() ==> final(self).well_formed(),
            final(self).providers == old(self).providers,
            final(self).mcp_configs == old(self).mcp_configs,
            index < old(self).providers.len() ==> r is Ok && final(self).selected_provider == index,
            index >= old(self).providers.len() ==> r is Err && r->Err_0@ == out_of_bounds_text(
                index as nat,
                old(self).providers.len() as nat,
            ) && final(self).selected_provider == old(self).selected_provider,
    {
        if index < self.providers.len() {
            self.selected_provider = index;
            Ok(())
        } else {
            Err(out_of_bounds(index, self.providers.len()))
        }
    }

    /// Takes the provider at `index` out, unless it is the only one. The
    /// selection follows the provider it named; where that one was taken
    /// out it moves to the one that took its place, or to the last.
    pub fn remove_provider(&mut self, index: usize) -> (r: Result<ProviderConfig, String>)
        ensures
            old(self).well_formed() ==> final(self).well_formed(),
            final(self).mcp_configs == old(self).mcp_configs,
            index >= old(self).providers.len() ==> r is Err && r->Err_0@ == out_of_bounds_text(
                index as nat,
                old(self).providers.len() as nat,
            ) && *final(self) == *old(self),
            index < old(self).providers.len() && old(self).providers.len() == 1 ==> r is Err
                && r->Err_0@ == "Cannot remove the last provider"@ && *final(self) == *old(self),
            index < old(self).providers.len() && old(self).providers.len() > 1 ==> {
                &&& r == Ok::<ProviderConfig, String>(old(self).providers@[index as int])
                &&& final(self).providers@ == old(self).providers@.remove(index as int)
                &&& final(self).selected_provider == (if old(self).selected_provider
                    >= old(self).providers.len() - 1 {
                    (old(self).providers.len() - 2) as usize
                } else if old(self).selected_provider > index {
                    (old(self).selected_provider - 1) as usize
                } else {
                    old(self).selected_provider
                })
            },
    {
        if index >= self.providers.len() {
            return Err(out_of_bounds(index, self.providers.len()));
        }
        if self.providers.len() == 1 {
            return Err(String::from_str("Cannot remove the last provider"));
        }
        let removed = self.providers.remove(index);
        if self.selected_provider >= self.providers.len() {
            self.selected_provider = self.providers.len() - 1;
        } else if self.selected_provider > index {
            self.selected_provider = self.selected_provider - 1;
        }
        Ok(removed)
    }

    /// Every provider with its position, its name and its model.
    pub fn list_providers(&self) -> (r: Vec<(usize, &str, &str)>)
        ensures
            r.len() == self.providers.len(),
            forall|i: int|
                0 <= i < r.len() ==> (#[trigger] r@[i]).0 == i && r@[i].1@
                    == self.providers@[i].provider@ && r@[i].2@ == self.providers@[i].model@,
    {
        let mut out: Vec<(usize, &str, &str)> = Vec::new();
        let mut i: usize = 0;
        while i < self.providers.len()
            invariant
                i <= self.providers.len(),
                out.len() == i,
                forall|j: int|
                    0 <= j < i ==> (#[trigger] out@[j]).0 == j && out@[j].1@
                        == self.providers@[j].provider@ && out@[j].2@ == self.providers@[j].model@,
            decreases self.providers.len() - i,
        {
            let p = &self.providers[i];
            out.push((i, p.provider.as_str(), p.model.as_str()));
            i += 1;
        }
        out
    }

    /// The positions of the providers of the given kind, in rising order.
    pub fn find_providers_by_type(&self, provider_type: &str) -> (r: Vec<usize>)
        ensures
            r@ == positions_of_type(self.providers@, provider_type@),
    {
        let mut out: Vec<usize> = Vec::new();
        let mut i: usize = 0;
        while i < self.providers.len()
            invariant
                i <= self.providers.len(),
                out@ == positions_of_type(self.providers@.subrange(0, i as int), provider_type@),
            decreases self.providers.len() - i,
        {
            assert(self.providers@.subrange(0, i + 1).drop_last() =~= self.providers@.subrange(
                0,
                i as int,
            ));
            if str_eq(self.providers[i].provider.as_str(), provider_type) {
                out.push(i);
            }
            i += 1;
        }
        assert(self.providers@.subrange(0, self.providers.len() as int) =~= self.providers@);
        out
    }

    /// The server under `name`, if there is one.
    pub open spec fn mcp_config_of(&self, name: Seq<char>) -> Option<McpConfig> {
        match key_position(self.mcp_configs@, name) {
            Some(i) => Some(self.mcp_configs@[i].1),
            None => None,
        }
    }

    /// Puts the server under `name`. A server that was there before is
    /// replaced in its place and returned.
    pub fn add_mcp_config(&mut self, name: String, config: McpConfig) -> (r: Option<McpConfig>)
        ensures
            old(self).well_formed() ==> final(self).well_formed(),
            r == old(self).mcp_config_of(name@),
            final(self).providers == old(self).providers,
            final(self).selected_provider == old(self).selected_provider,
            match key_position(old(self).mcp_configs@, name@) {
                Some(i) => final(self).mcp_configs@ == old(self).mcp_configs@.update(
                    i,
                    (name, config),
                ),
                None => final(self).mcp_configs@ == old(self).mcp_configs@.push((name, config)),
            },
            final(self).mcp_config_of(name@) == Some(config),
    {
        proof {
            lemma_key_position(self.mcp_configs@, name@);
        }
        let r = match find_key(&self.mcp_configs, name.as_str()) {
            Some(i) => {
                let old_entry = self.mcp_configs.remove(i);
                self.mcp_configs.insert(i, (name, config));
                assert(self.mcp_configs@ =~= old(self).mcp_configs@.update(i as int, (name, config)));
                Some(old_entry.1)
            },
            None => {
                self.mcp_configs.push((name, config));
                None
            },
        };
        proof {
            lemma_key_position(self.mcp_configs@, name@);
            let at = match key_position(old(self).mcp_configs@, name@) {
                Some(i) => i,
                None => old(self).mcp_configs@.len() as int,
            };
            assert(self.mcp_configs@[at].0@ == name@);
            assert forall|j: int| 0 <= j < at implies self.mcp_configs@[j].0@ != name@ by {
                assert(self.mcp_configs@[j] == old(self).mcp_configs@[j]);
            }
            assert(key_position(self.mcp_configs@, name@) == Some(at));
        }
        r
    }

    /// Takes the server under `name` out and returns it.
    pub fn remove_mcp_config(&mut self, name: &str) -> (r: Option<McpConfig>)
        ensures
            old(self).well_formed() ==> final(self).well_formed(),
            old(self).well_formed() ==> final(self).mcp_config_of(name@) is None,
            r == old(self).mcp_config_of(name@),
            final(self).providers == old(self).providers,
            final(self).selected_provider == old(self).selected_provider,
            match key_position(old(self).mcp_configs@, name@) {
                Some(i) => final(self).mcp_configs@ == old(self).mcp_configs@.remove(i),
                None => final(self).mcp_configs@ == old(self).mcp_configs@,
            },
    {
        proof {
            lemma_key_position(self.mcp_configs@, name@);
        }
        let r = match find_key(&self.mcp_configs, name) {
            Some(i) => {
                let entry = self.mcp_configs.remove(i);
                Some(entry.1)
            },
            None => None,
        };
        proof {
            lemma_key_position(self.mcp_configs@, name@);
            if old(self).well_formed() {
                let before = old(self).mcp_configs@;
                let after = self.mcp_configs@;
                match key_position(before, name@) {
                    Some(i) => {
                        assert forall|j: int| 0 <= j < after.len() implies after[j].0@
                            != name@ by {
                            if j < i {
                                assert(after[j] == before[j]);
                            } else {
                                assert(after[j] == before[j + 1]);
                            }
                        }
                    },
                    None => {},
                }
            }
        }
        r
    }

    /// The server under `name`.
    pub fn get_mcp_config(&self, name: &str) -> (r: Option<&McpConfig>)
        ensures
            match self.mcp_config_of(name@) {
                Some(c) => r == Some(&c),
                None => r is None,
            },
    {
        match find_key(&self.mcp_configs, name) {
            Some(i) => Some(&self.mcp_configs[i].1),
            None => None,
        }
    }

    /// Every server name with one line that tells how the server is reached.
    pub fn list_mcp_configs(&self) -> (r: Vec<(String, String)>)
        ensures
            r.deep_view() == described(self.mcp_configs@),
            self.well_formed() ==> distinct_keys(r@),
    {
        let mut out: Vec<(String, String)> = Vec::new();
        let mut i: usize = 0;
        while i < self.mcp_configs.len()
            invariant
                i <= self.mcp_configs.len(),
                out.len() == i,
                forall|j: int|
                    0 <= j < i ==> (#[trigger] out@[j]).0@ == self.mcp_configs@[j].0@ && out@[j].1@
                        == self.mcp_configs@[j].1.description(),
            decreases self.mcp_configs.len() - i,
        {
            let entry = &self.mcp_configs[i];
            out.push((entry.0.clone(), entry.1.describe()));
            i += 1;
        }
        assert(out.deep_view() =~= described(self.mcp_configs@));
        out
    }

    /// Whether a server stands under `name`.
    pub fn has_mcp_config(&self, name: &str) -> (r: bool)
        ensures
            r == self.mcp_config_of(name@).is_some(),
    {
        find_key(&self.mcp_configs, name).is_some()
    }

    /// Mends a selection that names no provider: it is set to the first.
    pub fn validate_selection(&mut self)
        ensures
            old(self).well_formed() ==> final(self).well_formed(),
            final(self).providers == old(self).providers,
            final(self).mcp_configs == old(self).mcp_configs,
            final(self).selected_provider == (if old(self).selected_provider
                < old(self).providers.len() {
                old(self).selected_provider
            } else {
                0
            }),
    {
        if self.selected_provider >= self.providers.len() {
            self.selected_provider = 0;
        }
    }
}

impl Default for ShaiConfig {
    /// One provider, the anonymous OVHcloud endpoint, selected.
    fn default() -> (r: Self)
        ensures
            r.well_formed(),
            r.providers.len() == 1,
            r.selected_provider == 0,
            r.mcp_configs.len() == 0,
            r.providers@[0].provider@ == "ovhcloud"@,
            r.providers@[0].model@ == "Qwen3-32B"@,
            r.providers@[0].tool_method == ToolCallMethod::FunctionCall,
            r.providers@[0].env_vars.len() == 1,
            r.providers@[0].env_vars@[0].0@ == "OVH_BASE_URL"@,
            r.providers@[0].env_vars@[0].1@
                == "https://qwen-3-32b.endpoints.kepler.ai.cloud.ovh.net/api/openai_compat/v1"@,
    {
        let mut env_vars: NamedValues = Vec::new();
        env_vars.push(
            (
                String::from_str("OVH_BASE_URL"),
                String::from_str(
                    "https://qwen-3-32b.endpoints.kepler.ai.cloud.ovh.net/api/openai_compat/v1",
                ),
            ),
        );
        let mut providers: Vec<ProviderConfig> = Vec::new();
        providers.push(
            ProviderConfig {
                provider: String::from_str("ovhcloud"),
                env_vars,
                model: String::from_str("Qwen3-32B"),
                tool_method: ToolCallMethod::FunctionCall,
            },
        );
        ShaiConfig { providers, selected_provider: 0, mcp_configs: Vec::new() }
    }
}

} // verus!
