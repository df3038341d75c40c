use seat_agent::registry::{example_tool_config, ToolConfig, ToolRegistry};
use serde_json::Value;

fn config(name: &str, enabled: bool) -> ToolConfig {
    ToolConfig {
        name: name.into(),
        display_name: name.to_uppercase(),
        description: format!("{} tool", name),
        category: "info_query".into(),
        enabled,
        sensitive: false,
        parameters: Value::Null,
        intermediate_reply: None,
        error_reply: None,
    }
}

#[test]
fn register_then_get_returns_the_tool() {
    let mut r: ToolRegistry<u32> = ToolRegistry::new();
    assert!(r.is_empty());
    r.register("a".into(), 1);
    r.register("b".into(), 2);
    assert_eq!(r.get_tool("a"), Some(&1));
    assert_eq!(r.get_tool("b"), Some(&2));
    assert_eq!(r.get_tool("c"), None);
    assert_eq!(r.len(), 2);
    assert!(!r.is_empty());
}

#[test]
fn register_same_name_replaces_in_place() {
    let mut r: ToolRegistry<&str> = ToolRegistry::new();
    r.register("a".into(), "old");
    r.register("b".into(), "other");
    r.register("a".into(), "new");
    assert_eq!(r.len(), 2);
    assert_eq!(r.get_tool("a"), Some(&"new"));
    assert_eq!(r.tools()[0].0, "a");
    assert_eq!(r.tools()[1].0, "b");
}

#[test]
fn configs_are_found_by_name_and_filtered_by_enabled() {
    let mut r: ToolRegistry<u8> =
        ToolRegistry::from_configs(vec![config("x", true), config("y", false)]);
    r.add_config(config("z", true));
    assert_eq!(r.list_configs().len(), 3);
    assert_eq!(r.get_config("y").unwrap().description, "y tool");
    assert!(r.get_config("w").is_none());
    let names: Vec<&str> = r.enabled_configs().iter().map(|c| c.name.as_str()).collect();
    assert_eq!(names, vec!["x", "z"]);
    assert!(r.is_empty());
}

#[test]
fn get_config_returns_the_first_of_equal_names() {
    let mut first = config("dup", true);
    first.description = "first".into();
    let mut second = config("dup", false);
    second.description = "second".into();
    let r: ToolRegistry<u8> = ToolRegistry::from_configs(vec![first, second]);
    assert_eq!(r.get_config("dup").unwrap().description, "first");
}

#[test]
fn example_tool_config_lists_the_built_in_tools() {
    let v: Value = serde_json::from_str(example_tool_config()).unwrap();
    let tools = v["tools"].as_array().unwrap();
    let names: Vec<&str> = tools.iter().map(|t| t["name"].as_str().unwrap()).collect();
    assert_eq!(
        names,
        vec![
            "knowledge_search",
            "order_query",
            "refund_query",
            "complaint_query",
            "transfer_to_human"
        ]
    );
    assert!(tools.iter().all(|t| t["enabled"].as_bool() == Some(true)));
}
