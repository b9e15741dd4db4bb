//! The models' lifecycle hooks.

use vstd::prelude::*;

use crate::config::ModelConfig;
use crate::names::NameMap;

verus! {

/// The three hooks of a model.
#[derive(Debug, Clone, Copy, PartialEq, Eq, Structural)]
pub enum Hook {
    Wake,
    Sleep,
    Alive,
}

impl Hook {
    /// The script of the hook.
    pub open spec fn script(self, config: ModelConfig) -> Seq<char> {
        match self {
            Hook::Wake => config.wake@,
            Hook::Sleep => config.sleep@,
            Hook::Alive => config.alive@,
        }
    }
}

/// A process to start: a program, its two arguments and one variable of its environment.
#[derive(Debug, PartialEq, Eq)]
pub struct HookCommand {
    pub program: String,
    pub flag: String,
    pub script: String,
    pub variable: String,
    pub value: String,
}

/// The hooks of every configured model.
pub struct HookRunner {
    configs: NameMap<ModelConfig>,
}

impl View for HookRunner {
    type V = Map<Seq<char>, ModelConfig>;

    closed spec fn view(&self) -> Map<Seq<char>, ModelConfig> {
        self.configs@
    }
}

impl HookRunner {
    /// The names of the configured models, in the order of the configuration.
    pub closed spec fn names(self) -> Seq<Seq<char>> {
        self.configs.names()
    }

    /// The hooks of the given models.
    pub fn new(configs: NameMap<ModelConfig>) -> (hooks: HookRunner)
        ensures
            hooks@ == configs@,
            hooks.names() == configs.names(),
    {
        HookRunner { configs }
    }

    /// The names of the configured models.
    pub fn registered_models(&self) -> (models: Vec<String>)
        ensures
            models@.len() == self.names().len(),
            forall|i: int| 0 <= i < models@.len() ==> models@[i]@ == self.names()[i],
            self.names().no_duplicates(),
            forall|n: Seq<char>| #[trigger] self@.contains_key(n) <==> self.names().contains(n),
    {
        let n = self.configs.len();
        let mut models: Vec<String> = Vec::new();
        let mut i: usize = 0;
        while i < n
            invariant
                i <= n,
                n == self.configs.names().len(),
                models@.len() == i,
                forall|j: int| 0 <= j < i ==> models@[j]@ == self.configs.names()[j],
            decreases n - i,
        {
            models.push(self.configs.name_at(i).clone());
            i = i + 1;
        }
        models
    }

    /// The port where a model's server listens.
    pub fn model_port(&self, model: &str) -> (port: Option<u16>)
        ensures
            port == if self@.contains_key(model@) {
                Some(self@[model@].port)
            } else {
                None
            },
    {
        match self.configs.get(model) {
            Some(c) => Some(c.port),
            None => None,
        }
    }

    /// How to run a hook of a model: by `sh -c`, with the model's name in `LLMUX_MODEL`.
    pub fn command(&self, model: &str, hook: Hook) -> (command: Option<HookCommand>)
        ensures
            command is Some <==> self@.contains_key(model@),
            command matches Some(c) ==> {
                &&& c.program@ == "sh"@
                &&& c.flag@ == "-c"@
                &&& c.script@ == hook.script(self@[model@])
                &&& c.variable@ == "LLMUX_MODEL"@
                &&& c.value@ == model@
            },
    {
        match self.configs.get(model) {
            Some(c) => {
                let script = match hook {
                    Hook::Wake => c.wake.clone(),
                    Hook::Sleep => c.sleep.clone(),
                    Hook::Alive => c.alive.clone(),
                };
                Some(
                    HookCommand {
                        program: "sh".to_owned(),
                        flag: "-c".to_owned(),
                        script,
                        variable: "LLMUX_MODEL".to_owned(),
                        value: model.to_owned(),
                    },
                )
            },
            None => None,
        }
    }
}

/// Each hook runs the script that the configuration has under its name.
pub proof fn law_hook_has_its_script(config: ModelConfig)
    ensures
        Hook::Wake.script(config) == config.wake@,
        Hook::Sleep.script(config) == config.sleep@,
        Hook::Alive.script(config) == config.alive@,
{
}

} // verus!
