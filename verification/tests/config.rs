use shai_core::agent::builder::{
    builtin_tools_to_add, mcp_tools_to_add, missing_mcp_tool, AgentBuilder,
};
use shai_core::agent::claims::ClaimManager;
use shai_core::agent::error::AgentError;
use shai_core::agent::states::InternalAgentState;
use shai_core::chat::{ChatMessage, ToolCallMethod};
use shai_core::config::agent::{
    contains_text, default_enabled_tools, default_llm_provider, default_max_tokens,
    default_system_prompt, AgentConfig, AgentProviderConfig, AgentTools, McpToolConfig,
};
use shai_core::config::config::{named_values_equal, McpConfig, ProviderConfig, ShaiConfig};
use shai_core::json::JsonValue;
use shai_core::tools::ToolSpec;

fn env(pairs: &[(&str, &str)]) -> Vec<(String, String)> {
    pairs.iter().map(|(k, v)| (k.to_string(), v.to_string())).collect()
}

fn two_providers() -> ShaiConfig {
    let mut c = ShaiConfig::default();
    let at = c.add_provider("openai".to_string(), env(&[("KEY", "SECRET-REDACTED")]), "gpt".to_string());
    assert_eq!(at, 1);
    c
}

fn strings(v: &[&str]) -> Vec<String> {
    v.iter().map(|s| s.to_string()).collect()
}

#[test]
fn default_config_selects_the_anonymous_provider() {
    let c = ShaiConfig::default();
    assert_eq!(c.providers.len(), 1);
    assert_eq!(c.selected_provider, 0);
    assert_eq!(c.providers[0].provider, "ovhcloud");
    assert_eq!(c.providers[0].model, "Qwen3-32B");
    assert_eq!(c.providers[0].tool_method, ToolCallMethod::FunctionCall);
    assert_eq!(
        c.providers[0].env_vars,
        env(&[(
            "OVH_BASE_URL",
            "https://qwen-3-32b.endpoints.kepler.ai.cloud.ovh.net/api/openai_compat/v1"
        )])
    );
    assert!(c.mcp_configs.is_empty());
}

#[test]
fn add_provider_appends_and_returns_the_position() {
    let c = two_providers();
    assert_eq!(c.providers.len(), 2);
    assert_eq!(
        c.providers[1],
        ProviderConfig {
            provider: "openai".to_string(),
            env_vars: env(&[("KEY", "SECRET-REDACTED")]),
            model: "gpt".to_string(),
            tool_method: ToolCallMethod::FunctionCall,
        }
    );
    assert_eq!(c.selected_provider, 0);
}

#[test]
fn duplicate_config_compares_name_values_and_model() {
    let mut c = two_providers();
    c.providers[1].env_vars = env(&[("A", "1"), ("B", "2")]);
    assert!(c.is_duplicate_config("openai", &env(&[("B", "2"), ("A", "1")]), "gpt"));
    assert!(!c.is_duplicate_config("openai", &env(&[("A", "1")]), "gpt"));
    assert!(!c.is_duplicate_config("openai", &env(&[("A", "1"), ("B", "3")]), "gpt"));
    assert!(!c.is_duplicate_config("openai", &env(&[("A", "1"), ("B", "2")]), "gpt4"));
    assert!(!c.is_duplicate_config("other", &env(&[("A", "1"), ("B", "2")]), "gpt"));
}

#[test]
fn named_values_are_equal_as_maps() {
    assert!(named_values_equal(&env(&[]), &env(&[])));
    assert!(named_values_equal(&env(&[("a", "1"), ("b", "2")]), &env(&[("b", "2"), ("a", "1")])));
    assert!(!named_values_equal(&env(&[("a", "1")]), &env(&[("a", "1"), ("b", "2")])));
    assert!(!named_values_equal(&env(&[("a", "1"), ("b", "2")]), &env(&[("a", "1")])));
    // the first entry under a name counts
    assert!(named_values_equal(&env(&[("a", "1"), ("a", "9")]), &env(&[("a", "1")])));
}

#[test]
fn selected_provider_is_read_and_changed_in_place() {
    let mut c = two_providers();
    assert_eq!(c.get_selected_provider().map(|p| p.provider.clone()), Some("ovhcloud".to_string()));
    assert_eq!(c.set_selected_provider(1), Ok(()));
    assert_eq!(c.get_selected_provider().map(|p| p.provider.clone()), Some("openai".to_string()));
    if let Some(p) = c.get_selected_provider_mut() {
        p.model = "changed".to_string();
    }
    assert_eq!(c.providers[1].model, "changed");
    assert_eq!(c.providers[0].model, "Qwen3-32B");
    c.selected_provider = 7;
    assert!(c.get_selected_provider().is_none());
    assert!(c.get_selected_provider_mut().is_none());
}

#[test]
fn set_selected_provider_refuses_an_index_out_of_bounds() {
    let mut c = two_providers();
    assert_eq!(
        c.set_selected_provider(2),
        Err("Provider index 2 out of bounds (have 2 providers)".to_string())
    );
    assert_eq!(
        c.set_selected_provider(1234567),
        Err("Provider index 1234567 out of bounds (have 2 providers)".to_string())
    );
    assert_eq!(c.selected_provider, 0);
}

#[test]
fn remove_provider_keeps_the_last_one_and_follows_the_selection() {
    let mut one = ShaiConfig::default();
    assert_eq!(one.remove_provider(0), Err("Cannot remove the last provider".to_string()));
    assert_eq!(
        one.remove_provider(3),
        Err("Provider index 3 out of bounds (have 1 providers)".to_string())
    );
    assert_eq!(one.providers.len(), 1);

    let mut c = two_providers();
    c.add_provider("third".to_string(), vec![], "m3".to_string());
    c.selected_provider = 2;
    let removed = c.remove_provider(0).unwrap();
    assert_eq!(removed.provider, "ovhcloud");
    assert_eq!(c.selected_provider, 1);
    assert_eq!(c.providers[c.selected_provider].provider, "third");

    let mut d = two_providers();
    d.add_provider("third".to_string(), vec![], "m3".to_string());
    d.selected_provider = 1;
    let _ = d.remove_provider(2).unwrap();
    assert_eq!(d.selected_provider, 1);
    let _ = d.remove_provider(1).unwrap();
    assert_eq!(d.selected_provider, 0);

    let mut e = two_providers();
    e.add_provider("third".to_string(), vec![], "m3".to_string());
    e.selected_provider = 1;
    let _ = e.remove_provider(0).unwrap();
    assert_eq!(e.selected_provider, 0);
    assert_eq!(e.providers[0].provider, "openai");
}

#[test]
fn providers_are_listed_and_found_by_type() {
    let mut c = two_providers();
    c.add_provider("ovhcloud".to_string(), vec![], "other".to_string());
    assert_eq!(
        c.list_providers(),
        vec![(0, "ovhcloud", "Qwen3-32B"), (1, "openai", "gpt"), (2, "ovhcloud", "other")]
    );
    assert_eq!(c.find_providers_by_type("ovhcloud"), vec![0, 2]);
    assert_eq!(c.find_providers_by_type("openai"), vec![1]);
    assert_eq!(c.find_providers_by_type("none"), Vec::<usize>::new());
}

#[test]
fn selection_that_names_no_provider_is_mended() {
    let mut c = two_providers();
    c.selected_provider = 2;
    c.validate_selection();
    assert_eq!(c.selected_provider, 0);
    c.selected_provider = 1;
    c.validate_selection();
    assert_eq!(c.selected_provider, 1);
    c.providers.clear();
    c.validate_selection();
    assert_eq!(c.selected_provider, 0);
}

#[test]
fn mcp_configs_are_kept_by_name() {
    let mut c = ShaiConfig::default();
    let stdio = McpConfig::Stdio { command: "run".to_string(), args: strings(&["-x"]) };
    let http = McpConfig::Http { url: "http://h".to_string(), bearer_token: None };
    let auth = McpConfig::Http { url: "http://h".to_string(), bearer_token: Some("t".to_string()) };
    let sse = McpConfig::Sse { url: "http://s".to_string() };
    assert_eq!(c.add_mcp_config("a".to_string(), stdio), None);
    assert_eq!(c.add_mcp_config("b".to_string(), http), None);
    assert_eq!(c.add_mcp_config("c".to_string(), sse), None);
    assert!(c.has_mcp_config("b"));
    assert!(!c.has_mcp_config("z"));
    let old = c.add_mcp_config("b".to_string(), auth);
    assert_eq!(old, Some(McpConfig::Http { url: "http://h".to_string(), bearer_token: None }));
    assert_eq!(c.mcp_configs.len(), 3);
    assert_eq!(
        c.get_mcp_config("b"),
        Some(&McpConfig::Http { url: "http://h".to_string(), bearer_token: Some("t".to_string()) })
    );
    assert_eq!(c.get_mcp_config("z"), None);
    assert_eq!(
        c.list_mcp_configs(),
        vec![
            ("a".to_string(), "stdio: run".to_string()),
            ("b".to_string(), "http: http://h (authenticated)".to_string()),
            ("c".to_string(), "sse: http://s".to_string()),
        ]
    );
    assert_eq!(
        c.remove_mcp_config("a"),
        Some(McpConfig::Stdio { command: "run".to_string(), args: strings(&["-x"]) })
    );
    assert_eq!(c.remove_mcp_config("a"), None);
    assert!(!c.has_mcp_config("a"));
    assert_eq!(
        McpConfig::Http { url: "u".to_string(), bearer_token: None }.describe(),
        "http: u"
    );
}

fn agent_config(tools: AgentTools) -> AgentConfig {
    AgentConfig {
        name: "helper".to_string(),
        description: "d".to_string(),
        llm_provider: AgentProviderConfig {
            provider: "p".to_string(),
            env_vars: vec![],
            model: "m".to_string(),
            tool_method: ToolCallMethod::FunctionCall,
        },
        tools,
        system_prompt: default_system_prompt(),
        max_tokens: default_max_tokens(),
        temperature_bits: 0.3f32.to_bits(),
    }
}

fn server(enabled: &[&str], excluded: &[&str]) -> McpToolConfig {
    McpToolConfig {
        config: McpConfig::Sse { url: "u".to_string() },
        enabled_tools: strings(enabled),
        excluded_tools: strings(excluded),
    }
}

#[test]
fn agent_defaults_are_as_documented() {
    assert_eq!(default_system_prompt(), "{{CODER_BASE_PROMPT}}");
    assert_eq!(default_max_tokens(), 4096);
    assert_eq!(default_enabled_tools(), strings(&["*"]));
    let t = AgentTools::default();
    assert_eq!(t.builtin, strings(&["*"]));
    assert!(t.builtin_excluded.is_empty());
    assert!(t.mcp.is_empty());
}

#[test]
fn default_provider_of_an_agent_is_the_selected_one() {
    let mut c = two_providers();
    c.selected_provider = 1;
    assert_eq!(
        default_llm_provider(&c),
        Some(AgentProviderConfig {
            provider: "openai".to_string(),
            env_vars: env(&[("KEY", "SECRET-REDACTED")]),
            model: "gpt".to_string(),
            tool_method: ToolCallMethod::FunctionCall,
        })
    );
    c.selected_provider = 5;
    assert_eq!(default_llm_provider(&c), None);
}

#[test]
fn enabled_tools_are_looked_up_by_name() {
    let cfg = agent_config(AgentTools {
        builtin: strings(&["ls", "read"]),
        builtin_excluded: vec![],
        mcp: vec![
            ("one".to_string(), server(&["a", "b"], &[])),
            ("two".to_string(), server(&["*"], &["x"])),
        ],
    });
    assert!(cfg.is_builtin_tool_enabled("ls"));
    assert!(!cfg.is_builtin_tool_enabled("bash"));
    assert!(!cfg.is_builtin_tool_enabled("*"));
    assert!(cfg.is_mcp_tool_enabled("one", "b"));
    assert!(!cfg.is_mcp_tool_enabled("one", "c"));
    assert!(!cfg.is_mcp_tool_enabled("two", "a"));
    assert!(cfg.is_mcp_tool_enabled("two", "*"));
    assert!(!cfg.is_mcp_tool_enabled("three", "a"));
    assert_eq!(cfg.get_all_enabled_mcp_tools(), strings(&["a", "b", "*"]));
    assert!(contains_text(&strings(&["a", "b"]), "b"));
    assert!(!contains_text(&strings(&[]), "b"));
}

#[test]
fn builtin_tools_are_selected_from_the_configuration() {
    let all = AgentTools::default();
    assert_eq!(
        builtin_tools_to_add(&all),
        Ok(strings(&[
            "bash", "edit", "multiedit", "fetch", "find", "ls", "read", "todo_read",
            "todo_write", "write"
        ]))
    );
    let some = AgentTools {
        builtin: strings(&["ls", "bash", "read", "ls"]),
        builtin_excluded: strings(&["bash", "ghost"]),
        mcp: vec![],
    };
    assert_eq!(builtin_tools_to_add(&some), Ok(strings(&["ls", "read", "ls"])));
    let star_minus = AgentTools {
        builtin: strings(&["ls", "*"]),
        builtin_excluded: strings(&["write", "edit", "multiedit"]),
        mcp: vec![],
    };
    assert_eq!(
        builtin_tools_to_add(&star_minus),
        Ok(strings(&["bash", "fetch", "find", "ls", "read", "todo_read", "todo_write"]))
    );
}

#[test]
fn unknown_builtin_tool_is_a_configuration_error_unless_excluded() {
    let bad = AgentTools {
        builtin: strings(&["ls", "rocket", "alsobad"]),
        builtin_excluded: vec![],
        mcp: vec![],
    };
    assert_eq!(
        builtin_tools_to_add(&bad),
        Err(AgentError::ConfigurationError("Unknown builtin tool: rocket".to_string()))
    );
    let excluded = AgentTools {
        builtin: strings(&["ls", "rocket"]),
        builtin_excluded: strings(&["rocket"]),
        mcp: vec![],
    };
    assert_eq!(builtin_tools_to_add(&excluded), Ok(strings(&["ls"])));
}

#[test]
fn mcp_tools_are_taken_by_name_or_star_and_never_if_excluded() {
    let offered = strings(&["a", "b", "c", "d"]);
    assert_eq!(mcp_tools_to_add(&offered, &server(&["*"], &["b"])), vec![0, 2, 3]);
    assert_eq!(mcp_tools_to_add(&offered, &server(&["d", "a", "zz"], &["a"])), vec![3]);
    assert_eq!(mcp_tools_to_add(&offered, &server(&[], &[])), Vec::<usize>::new());
}

#[test]
fn builder_puts_the_goal_at_the_end_of_the_conversation() {
    let tools = vec![ToolSpec {
        name: "ls".to_string(),
        description: "d".to_string(),
        parameters_schema: JsonValue::Null,
        capabilities: vec![],
        group: None,
    }];
    let mut claims = ClaimManager::new();
    claims.grant_always("ls", &JsonValue::Null);
    let core = AgentBuilder::with_session_id("x".to_string(), ())
        .id("sid")
        .with_traces(vec![ChatMessage::assistant("hello".to_string())])
        .goal("do it")
        .tools(tools.clone())
        .permissions(claims)
        .build()
        .0;
    assert_eq!(core.session_id, "sid");
    assert_eq!(
        core.trace,
        vec![ChatMessage::assistant("hello".to_string()), ChatMessage::user("do it".to_string())]
    );
    assert_eq!(core.available_tools, tools);
    assert_eq!(core.state, InternalAgentState::Starting);
    assert!(core.permissions.is_permitted("ls", &JsonValue::Bool(true)));
    assert!(!core.is_sudo());
    let (sudo, brain) = AgentBuilder::with_session_id("x".to_string(), 7u8).brain(9u8).sudo().build();
    assert_eq!(brain, 9);
    assert!(sudo.is_sudo());
    assert!(sudo.trace.is_empty());
}

#[test]
fn builder_from_config_names_the_session_after_the_agent() {
    let b = AgentBuilder::from_config(&agent_config(AgentTools::default()), "brain", vec![]);
    assert_eq!(b.brain, "brain");
    assert_eq!(b.session_id, "agent-helper");
    assert_eq!(b.goal, None);
    let fresh1 = AgentBuilder::with_brain(());
    let fresh2 = AgentBuilder::with_brain(());
    assert_eq!(fresh1.session_id.len(), 36);
    assert_ne!(fresh1.session_id, fresh2.session_id);
}

#[test]
fn tool_asked_of_a_server_by_name_must_be_there() {
    let present = strings(&["ls", "a", "b"]);
    assert_eq!(missing_mcp_tool(&present, &server(&["a", "b"], &[]), "srv"), None);
    assert_eq!(missing_mcp_tool(&present, &server(&[], &[]), "srv"), None);
    assert_eq!(
        missing_mcp_tool(&present, &server(&["a", "x", "y"], &[]), "srv"),
        Some(AgentError::ConfigurationError("Tool 'x' not found in MCP client 'srv'".to_string()))
    );
    assert_eq!(missing_mcp_tool(&present, &server(&["zz", "*"], &[]), "srv"), None);
}

#[test]
fn server_names_stay_distinct_through_additions_and_removals() {
    let sse = |u: &str| McpConfig::Sse { url: u.to_string() };
    let mut c = ShaiConfig::default();
    for (name, url) in [("a", "1"), ("b", "2"), ("a", "3"), ("c", "4"), ("b", "5")] {
        c.add_mcp_config(name.to_string(), sse(url));
    }
    let listed = c.list_mcp_configs();
    assert_eq!(
        listed,
        vec![
            ("a".to_string(), "sse: 3".to_string()),
            ("b".to_string(), "sse: 5".to_string()),
            ("c".to_string(), "sse: 4".to_string()),
        ]
    );
    let mut names: Vec<&String> = listed.iter().map(|(n, _)| n).collect();
    names.sort();
    names.dedup();
    assert_eq!(names.len(), listed.len());
    assert_eq!(c.remove_mcp_config("a"), Some(sse("3")));
    assert!(!c.has_mcp_config("a"));
    assert_eq!(c.get_mcp_config("a"), None);
    assert_eq!(c.list_mcp_configs().len(), 2);
}
