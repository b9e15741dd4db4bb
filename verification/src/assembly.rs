//! From a configuration to the parts of the multiplexer.

use vstd::prelude::*;

use crate::config::{opt_rank, Config, ModelConfig, ModelPriority};
use crate::hooks::HookRunner;
use crate::models::{listed, ordered_entries, ModelList};
use crate::policy::FifoPolicy;
use crate::switcher::model::SwitcherView;
use crate::switcher::ModelSwitcher;
use crate::time::NANOS_PER_SEC;

verus! {

/// The parts of the multiplexer.
pub struct AppParts<T> {
    /// The answer to a request for the list of models.
    pub models: ModelList,
    /// The switch policy.
    pub policy: FifoPolicy,
    /// The switcher, with no model active.
    pub switcher: ModelSwitcher<T>,
    /// The proxy port.
    pub port: u16,
}

/// The value of each model's explicit priority.
pub open spec fn explicit_priorities(models: Map<Seq<char>, ModelConfig>) -> Map<
    Seq<char>,
    Option<u8>,
> {
    models.map_values(|m: ModelConfig| opt_rank(m.priority))
}

/// Builds the parts that a configuration describes.
pub fn build_app<T>(config: Config) -> (parts: AppParts<T>)
    ensures
        parts.models.object@ == "list"@,
        ordered_entries(parts.models.data@, config.models@),
        forall|id: Seq<char>| config.models@.contains_key(id) <==> listed(parts.models.data@, id),
        parts.policy.timeout() == match config.policy.request_timeout_secs {
            Some(secs) => Some((secs * NANOS_PER_SEC) as nat),
            None => None,
        },
        parts.policy.drains() == config.policy.drain_before_switch,
        parts.policy.min_active() == config.policy.min_active_secs * NANOS_PER_SEC,
        parts.policy.priorities() == explicit_priorities(config.models@),
        parts.switcher@ == SwitcherView::<T>::initial(
            config.models.names(),
            config.models@,
            explicit_priorities(config.models@),
        ),
        parts.switcher.wf(),
        parts.port == config.port,
{
    let models = config.models_response();
    let policy = config.policy.build_policy(config.priorities());
    let priorities = config.priorities();
    let port = config.port;
    let switcher = ModelSwitcher::new(HookRunner::new(config.models), priorities);
    AppParts { models, policy, switcher, port }
}

/// Each model, and no other name, has an entry among the priorities: the number of its priority, or
/// nothing if it has none.
pub proof fn law_each_model_has_its_priority(
    models: Map<Seq<char>, ModelConfig>,
    model: Seq<char>,
)
    ensures
        explicit_priorities(models).contains_key(model) <==> models.contains_key(model),
        models.contains_key(model) ==> {
            let number = explicit_priorities(models)[model];
            let priority = models[model].priority;
            &&& priority is None <==> number is None
            &&& priority == Some(ModelPriority::Low) ==> number == Some(1u8)
            &&& priority == Some(ModelPriority::Medium) ==> number == Some(2u8)
            &&& priority == Some(ModelPriority::High) ==> number == Some(3u8)
        },
{
}

} // verus!
