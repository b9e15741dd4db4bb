//! Configuration: the models, the switch policy and the proxy port.
//!
//! Starting, stopping and checking a model is left to scripts that the configuration names.

use vstd::prelude::*;

use std::cmp::Ordering;
use vstd::std_specs::cmp::{PartialOrdIs, PartialOrdSpecImpl};

use crate::names::{same_name, NameMap};
use crate::policy::FifoPolicy;
use crate::time::{Duration, NANOS_PER_SEC};

verus! {

/// Priority of a model for scheduling decisions.
///
/// A higher value means that the model is more important, and less likely to be switched out by a
/// request for a less important one.
#[derive(Debug, Clone, Copy, PartialEq, Eq, Ord, Structural)]
pub enum ModelPriority {
    Low,
    Medium,
    High,
}

impl PartialOrd for ModelPriority {
    fn partial_cmp(&self, other: &ModelPriority) -> (order: Option<Ordering>) {
        let (a, b) = (self.value(), other.value());
        if a < b {
            Some(Ordering::Less)
        } else if a == b {
            Some(Ordering::Equal)
        } else {
            Some(Ordering::Greater)
        }
    }
}

impl PartialOrdSpecImpl for ModelPriority {
    open spec fn obeys_partial_cmp_spec() -> bool {
        true
    }

    open spec fn partial_cmp_spec(&self, other: &ModelPriority) -> Option<Ordering> {
        if self.rank() < other.rank() {
            Some(Ordering::Less)
        } else if self.rank() == other.rank() {
            Some(Ordering::Equal)
        } else {
            Some(Ordering::Greater)
        }
    }
}

/// The order of priorities is that of their values, no two priorities have the same value, and low
/// is the least.
pub proof fn law_priorities_ordered_by_value(a: ModelPriority, b: ModelPriority)
    ensures
        a.is_lt(&b) <==> a.rank() < b.rank(),
        a == b <==> a.rank() == b.rank(),
        ModelPriority::Low.rank() == DEFAULT_PRIORITY,
        ModelPriority::Low.rank() <= a.rank(),
{
}

/// The priority value of a model that has no explicit priority.
pub const DEFAULT_PRIORITY: u8 = 1;

impl Default for ModelPriority {
    fn default() -> (p: ModelPriority)
        ensures
            p == ModelPriority::Low,
            p.rank() == DEFAULT_PRIORITY,
    {
        ModelPriority::Low
    }
}

impl ModelPriority {
    /// The number that stands for the priority.
    pub open spec fn rank(self) -> u8 {
        match self {
            ModelPriority::Low => 1,
            ModelPriority::Medium => 2,
            ModelPriority::High => 3,
        }
    }

    /// The number that stands for the priority.
    pub fn value(&self) -> (v: u8)
        ensures
            v == self.rank(),
    {
        match self {
            ModelPriority::Low => 1,
            ModelPriority::Medium => 2,
            ModelPriority::High => 3,
        }
    }
}

/// The number that stands for an optional priority.
pub open spec fn opt_rank(priority: Option<ModelPriority>) -> Option<u8> {
    match priority {
        Some(p) => Some(p.rank()),
        None => None,
    }
}

/// Configuration of one model: where its server listens, and its lifecycle hooks.
///
/// A hook is the path of an executable or an inline shell script.
#[derive(Debug)]
pub struct ModelConfig {
    /// Port where the model's inference server listens.
    pub port: u16,
    /// Brings the model to a running state; exits with 0 when it is ready to serve.
    pub wake: String,
    /// Puts the model to sleep; exits with 0 when it is stopped.
    pub sleep: String,
    /// Exits with 0 when the model is healthy.
    pub alive: String,
    /// Priority of the model; low if there is none.
    pub priority: Option<ModelPriority>,
}

impl Clone for ModelConfig {
    fn clone(&self) -> (copy: ModelConfig)
        ensures
            copy == *self,
    {
        ModelConfig {
            port: self.port,
            wake: self.wake.clone(),
            sleep: self.sleep.clone(),
            alive: self.alive.clone(),
            priority: self.priority,
        }
    }
}

impl ModelConfig {
    /// The value of the model's explicit priority.
    pub fn priority_value(&self) -> (p: Option<u8>)
        ensures
            p == opt_rank(self.priority),
    {
        match &self.priority {
            Some(p) => Some(p.value()),
            None => None,
        }
    }
}

/// Configuration of the switch policy.
#[derive(Debug, Clone, Copy, PartialEq, Eq, Structural)]
pub struct PolicyConfig {
    /// Seconds that a request waits for its model; without a number it waits for ever.
    pub request_timeout_secs: Option<u64>,
    /// Whether in-flight requests are drained before a switch.
    pub drain_before_switch: bool,
    /// Seconds that a model stays active before it can be put to sleep.
    pub min_active_secs: u64,
}

/// The proxy port where the configuration gives none.
pub fn default_port() -> (port: u16)
    ensures
        port == 3000,
{
    3000
}

/// Whether in-flight requests are drained where the configuration does not say.
pub fn default_drain_before_switch() -> (drain: bool)
    ensures
        drain,
{
    true
}

impl Default for PolicyConfig {
    fn default() -> (p: PolicyConfig)
        ensures
            p.request_timeout_secs is None,
            p.drain_before_switch,
            p.min_active_secs == 0,
    {
        PolicyConfig {
            request_timeout_secs: None,
            drain_before_switch: default_drain_before_switch(),
            min_active_secs: 0,
        }
    }
}

impl PolicyConfig {
    /// The policy that the configuration describes.
    pub fn build_policy(&self, priorities: NameMap<Option<u8>>) -> (policy: FifoPolicy)
        ensures
            policy.timeout() == match self.request_timeout_secs {
                Some(secs) => Some((secs * NANOS_PER_SEC) as nat),
                None => None,
            },
            policy.drains() == self.drain_before_switch,
            policy.min_active() == self.min_active_secs * NANOS_PER_SEC,
            policy.priorities() == priorities@,
    {
        let timeout = match self.request_timeout_secs {
            Some(secs) => Some(Duration::from_secs(secs)),
            None => None,
        };
        FifoPolicy::new(
            timeout,
            self.drain_before_switch,
            Duration::from_secs(self.min_active_secs),
            priorities,
        )
    }
}

/// The languages of a configuration file.
#[derive(Debug, Clone, Copy, PartialEq, Eq, Structural)]
pub enum ConfigFormat {
    Yaml,
    Json,
}

impl ConfigFormat {
    /// The name of the language.
    pub open spec fn label(self) -> Seq<char> {
        match self {
            ConfigFormat::Yaml => "YAML"@,
            ConfigFormat::Json => "JSON"@,
        }
    }

    /// The language of a file with the given extension: YAML for `yaml` and `yml`, else JSON.
    pub fn from_extension(extension: Option<&str>) -> (format: ConfigFormat)
        ensures
            format == if extension matches Some(e) && (e@ == "yaml"@ || e@ == "yml"@) {
                ConfigFormat::Yaml
            } else {
                ConfigFormat::Json
            },
    {
        match extension {
            Some(e) => {
                if same_name(e, "yaml") || same_name(e, "yml") {
                    ConfigFormat::Yaml
                } else {
                    ConfigFormat::Json
                }
            },
            None => ConfigFormat::Json,
        }
    }

    /// What is reported of a file whose contents are not a configuration.
    pub fn parse_failure(&self, path: &str) -> (text: String)
        ensures
            text@ == "Failed to parse "@ + self.label() + " config: "@ + path@,
    {
        let label = match self {
            ConfigFormat::Yaml => "YAML",
            ConfigFormat::Json => "JSON",
        };
        "Failed to parse ".to_owned().concat(label).concat(" config: ").concat(path)
    }
}

/// What is reported of a configuration file that cannot be read.
pub fn read_failure(path: &str) -> (text: String)
    ensures
        text@ == "Failed to read config file: "@ + path@,
{
    "Failed to read config file: ".to_owned().concat(path)
}

/// The whole configuration.
#[derive(Debug)]
pub struct Config {
    /// Models to manage.
    pub models: NameMap<ModelConfig>,
    /// Switch policy configuration.
    pub policy: PolicyConfig,
    /// Proxy port.
    pub port: u16,
}

impl Clone for Config {
    fn clone(&self) -> (copy: Config)
        ensures
            copy.models@ == self.models@,
            copy.models.names() == self.models.names(),
            copy.policy == self.policy,
            copy.port == self.port,
    {
        let models = self.models.clone();
        assert(models@ =~= self.models@);
        Config { models, policy: self.policy, port: self.port }
    }
}

impl Config {
    /// The value of each model's explicit priority, by model.
    pub fn priorities(&self) -> (table: NameMap<Option<u8>>)
        ensures
            table@ == self.models@.map_values(|m: ModelConfig| opt_rank(m.priority)),
            table.names() == self.models.names(),
    {
        let mut table: NameMap<Option<u8>> = NameMap::new();
        let n = self.models.len();
        let ghost rank = |m: ModelConfig| opt_rank(m.priority);
        let mut i: usize = 0;
        while i < n
            invariant
                i <= n,
                n == self.models.names().len(),
                self.models.keyed(),
                table.keyed(),
                rank == (|m: ModelConfig| opt_rank(m.priority)),
                table.names() == self.models.names().take(i as int),
                forall|k: Seq<char>| #[trigger]
                    table@.contains_key(k) ==> table@[k] == rank(self.models@[k]),
            decreases n - i,
        {
            let ghost done = self.models.names().take(i as int);
            let name = self.models.name_at(i);
            let priority = self.models.value_at(i).priority_value();
            proof {
                if done.contains(name@) {
                    let j = choose|j: int| 0 <= j < done.len() && done[j] == name@;
                    assert(self.models.names()[j] == self.models.names()[i as int]);
                }
            }
            table.insert(name.clone(), priority);
            assert(self.models.names().take(i + 1) =~= done.push(name@));
            i = i + 1;
        }
        assert(self.models.names().take(n as int) =~= self.models.names());
        assert(table@ =~= self.models@.map_values(rank));
        table
    }
}

/// The numbers of the three priorities, the most important one with the greatest, and how they
/// compare.
pub proof fn law_priority_numbers(a: ModelPriority, b: ModelPriority)
    ensures
        a is Low <==> a.rank() == 1,
        a is Medium <==> a.rank() == 2,
        a is High <==> a.rank() == 3,
        a.is_lt(&b) <==> (a is Low && !(b is Low)) || (a is Medium && b is High),
        DEFAULT_PRIORITY == 1,
{
}

/// An explicit priority has the number of that priority, and no priority has none.
pub proof fn law_optional_priority_numbers(priority: Option<ModelPriority>)
    ensures
        opt_rank(priority) is Some <==> priority is Some,
        priority == Some(ModelPriority::Low) ==> opt_rank(priority) == Some(1u8),
        priority == Some(ModelPriority::Medium) ==> opt_rank(priority) == Some(2u8),
        priority == Some(ModelPriority::High) ==> opt_rank(priority) == Some(3u8),
{
}

/// The two languages are told apart by their names.
pub proof fn law_formats_have_names()
    ensures
        ConfigFormat::Yaml.label() == "YAML"@,
        ConfigFormat::Json.label() == "JSON"@,
        ConfigFormat::Yaml.label() != ConfigFormat::Json.label(),
{
    reveal_strlit("YAML");
    reveal_strlit("JSON");
    assert("YAML"@[0] != "JSON"@[0]);
}

} // verus!
