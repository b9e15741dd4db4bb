use llmux::{
    build_app, default_drain_before_switch, default_port, read_failure, AppParts, Config,
    ConfigFormat, Duration, Hook, HookRunner, ModelConfig, ModelPriority, NameMap, PolicyConfig,
};

fn model(port: u16, priority: Option<ModelPriority>) -> ModelConfig {
    ModelConfig {
        port,
        wake: "./scripts/wake.sh".to_string(),
        sleep: "kill $(cat /tmp/llama.pid)".to_string(),
        alive: "curl -sf http://localhost:8001/health".to_string(),
        priority,
    }
}

fn config(models: Vec<(&str, ModelConfig)>, policy: PolicyConfig) -> Config {
    let mut table = NameMap::new();
    for (name, m) in models {
        table.insert(name.to_string(), m);
    }
    Config { models: table, policy, port: default_port() }
}

#[test]
fn priority_values_rise_with_importance() {
    assert_eq!(ModelPriority::Low.value(), 1);
    assert_eq!(ModelPriority::Medium.value(), 2);
    assert_eq!(ModelPriority::High.value(), 3);
    assert_eq!(ModelPriority::default(), ModelPriority::Low);
    let all = [ModelPriority::Low, ModelPriority::Medium, ModelPriority::High];
    for a in all {
        for b in all {
            assert_eq!(a < b, a.value() < b.value());
            assert_eq!(a == b, a.value() == b.value());
            assert_eq!(a.cmp(&b), a.value().cmp(&b.value()));
        }
        assert!(ModelPriority::default() <= a);
    }
}

#[test]
fn omitted_settings_have_their_defaults() {
    assert_eq!(default_port(), 3000);
    assert!(default_drain_before_switch());
    let policy = PolicyConfig::default();
    assert_eq!(policy.request_timeout_secs, None);
    assert!(policy.drain_before_switch);
    assert_eq!(policy.min_active_secs, 0);
}

#[test]
fn policy_takes_its_settings_from_the_configuration() {
    let mut priorities = NameMap::new();
    priorities.insert("llama".to_string(), Some(3u8));
    priorities.insert("mistral".to_string(), None);
    let policy = PolicyConfig {
        request_timeout_secs: Some(30),
        drain_before_switch: false,
        min_active_secs: 7,
    }
    .build_policy(priorities);
    assert_eq!(policy.request_timeout(), Some(Duration::from_secs(30)));
    assert_eq!(policy.min_active_duration(), Duration::from_secs(7));
    assert_eq!(policy.priority_for("llama"), Some(3));
    assert_eq!(policy.priority_for("mistral"), None);
    assert_eq!(policy.priority_for("phi"), None);
}

#[test]
fn format_follows_the_extension() {
    assert_eq!(ConfigFormat::from_extension(Some("yaml")), ConfigFormat::Yaml);
    assert_eq!(ConfigFormat::from_extension(Some("yml")), ConfigFormat::Yaml);
    assert_eq!(ConfigFormat::from_extension(Some("json")), ConfigFormat::Json);
    assert_eq!(ConfigFormat::from_extension(Some("YAML")), ConfigFormat::Json);
    assert_eq!(ConfigFormat::from_extension(Some("")), ConfigFormat::Json);
    assert_eq!(ConfigFormat::from_extension(None), ConfigFormat::Json);
}

#[test]
fn failures_name_the_file() {
    assert_eq!(read_failure("a.yaml"), "Failed to read config file: a.yaml");
    assert_eq!(
        ConfigFormat::Yaml.parse_failure("a.yaml"),
        "Failed to parse YAML config: a.yaml"
    );
    assert_eq!(
        ConfigFormat::Json.parse_failure("b.json"),
        "Failed to parse JSON config: b.json"
    );
}

#[test]
fn models_are_listed_by_id() {
    let config = config(
        vec![
            ("model-b", model(8002, Some(ModelPriority::High))),
            ("model", model(8003, None)),
            ("model-a", model(8001, Some(ModelPriority::Medium))),
            ("Modèle", model(8004, Some(ModelPriority::Low))),
        ],
        PolicyConfig::default(),
    );
    let list = config.models_response();
    assert_eq!(list.object, "list");
    let ids: Vec<&str> = list.data.iter().map(|m| m.id.as_str()).collect();
    assert_eq!(ids, vec!["Modèle", "model", "model-a", "model-b"]);
    let priorities: Vec<Option<u8>> = list.data.iter().map(|m| m.priority).collect();
    assert_eq!(priorities, vec![Some(1), None, Some(2), Some(3)]);
    for m in &list.data {
        assert_eq!(m.object, "model");
        assert_eq!(m.created, 0);
        assert_eq!(m.owned_by, "llmux");
    }
}

#[test]
fn parts_are_built_from_the_configuration() {
    let parts: AppParts<u32> = build_app(config(
        vec![
            ("llama", model(8001, Some(ModelPriority::High))),
            ("mistral", model(8002, None)),
        ],
        PolicyConfig { request_timeout_secs: Some(30), ..PolicyConfig::default() },
    ));
    assert_eq!(parts.port, 3000);
    assert_eq!(parts.models.data.len(), 2);
    assert_eq!(parts.policy.request_timeout(), Some(Duration::from_secs(30)));
    assert_eq!(parts.policy.priority_for("llama"), Some(3));
    assert_eq!(parts.switcher.model_priority("llama"), Some(3));
    assert_eq!(parts.switcher.model_priority("mistral"), None);
    assert_eq!(parts.switcher.model_port("mistral"), Some(8002));
    assert_eq!(parts.switcher.active_model(), None);
}

#[test]
fn hooks_run_in_a_shell_with_the_model_in_the_environment() {
    let mut configs = NameMap::new();
    configs.insert("llama".to_string(), model(8001, None));
    let hooks = HookRunner::new(configs);
    assert_eq!(hooks.registered_models(), vec!["llama".to_string()]);
    let wake = hooks.command("llama", Hook::Wake).unwrap();
    assert_eq!(wake.program, "sh");
    assert_eq!(wake.flag, "-c");
    assert_eq!(wake.script, "./scripts/wake.sh");
    assert_eq!(wake.variable, "LLMUX_MODEL");
    assert_eq!(wake.value, "llama");
    let sleep = hooks.command("llama", Hook::Sleep).unwrap();
    assert_eq!(sleep.script, "kill $(cat /tmp/llama.pid)");
    let alive = hooks.command("llama", Hook::Alive).unwrap();
    assert_eq!(alive.script, "curl -sf http://localhost:8001/health");
    assert!(hooks.command("phi", Hook::Wake).is_none());
}

#[test]
fn configurations_can_be_copied_and_shown() {
    let original = config(
        vec![
            ("mistral", model(8002, None)),
            ("llama", model(8001, Some(ModelPriority::High))),
        ],
        PolicyConfig { min_active_secs: 4, ..PolicyConfig::default() },
    );
    let mut copy = original.clone();
    assert_eq!(copy.models.len(), 2);
    assert_eq!(copy.models.name_at(0), "mistral");
    assert_eq!(copy.models.get("llama").unwrap().port, 8001);
    assert_eq!(copy.models.get("llama").unwrap().wake, "./scripts/wake.sh");
    assert_eq!(copy.models.get("llama").unwrap().priority, Some(ModelPriority::High));
    assert_eq!(copy.policy, original.policy);
    assert_eq!(copy.port, 3000);
    assert_eq!(format!("{:?}", copy), format!("{:?}", original));
    copy.models.insert("phi".to_string(), model(8003, None));
    assert!(!original.models.contains_key("phi"));
}

#[test]
fn tables_keep_one_value_per_name() {
    let mut table = NameMap::new();
    table.insert("a".to_string(), 1);
    table.insert("b".to_string(), 2);
    table.insert("a".to_string(), 3);
    assert_eq!(table.len(), 2);
    assert_eq!(table.get("a"), Some(&3));
    assert_eq!(table.name_at(1), "b");
    let mut other = 9;
    assert!(table.swap("b", &mut other));
    assert_eq!(other, 2);
    assert_eq!(table.get("b"), Some(&9));
    assert!(!table.swap("c", &mut other));
    assert!(!table.contains_key("c"));
}

#[test]
fn durations_count_nanoseconds() {
    assert_eq!(Duration::from_secs(2).as_nanos(), 2_000_000_000);
    assert_eq!(Duration::from_millis(3).as_nanos(), 3_000_000);
    assert_eq!(Duration::from_nanos(u128::MAX), Duration::from_nanos(u128::MAX - 1));
    let (a, b) = (Duration::from_secs(5), Duration::from_secs(7));
    assert!(a.shorter_than(&b));
    assert_eq!(b.saturating_sub(&a), Duration::from_secs(2));
    assert_eq!(a.saturating_sub(&b), Duration::zero());
}
