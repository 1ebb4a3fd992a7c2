use copilot_rs::check_distinct_field_names;
use copilot_rs::default_type;
use copilot_rs::function_tool;
use copilot_rs::FieldDecl;
use copilot_rs::ToolImpl;
use copilot_rs::ToolRegistry;

fn field(name: &str, choices: Vec<String>) -> FieldDecl {
    FieldDecl {
        name: name.to_string(),
        ty: "string".to_string(),
        description: format!("the {name}"),
        choices,
    }
}

fn tool(name: &str, fields: &Vec<FieldDecl>) -> ToolImpl {
    function_tool(name.to_string(), format!("does {name}"), fields)
}

#[test]
fn default_type_is_object() {
    assert_eq!(default_type(), "object");
}

#[test]
fn function_tool_requires_exactly_the_fields_without_choices() {
    let fields = vec![
        field("city", Vec::new()),
        field("unit", vec!["celsius".to_string(), "fahrenheit".to_string()]),
        field("day", Vec::new()),
    ];
    let ToolImpl::Function { name, parameters, .. } = tool("Weather", &fields);
    assert_eq!(name, "Weather");
    assert_eq!(parameters.ty, "object");
    assert_eq!(parameters.properties.len(), 3);
    assert_eq!(parameters.required, vec!["city".to_string(), "day".to_string()]);
    let unit = &parameters.properties[1];
    assert_eq!(unit.0, "unit");
    assert_eq!(unit.1.choices.as_ref().unwrap().len(), 2);
    let city = &parameters.properties[0];
    assert!(city.1.choices.is_none());
}

#[test]
fn distinct_field_names_check_tells_duplicates_apart() {
    let distinct = vec![field("a", Vec::new()), field("b", Vec::new())];
    assert!(check_distinct_field_names(&distinct));
    let duplicated = vec![field("a", Vec::new()), field("a", Vec::new())];
    assert!(!check_distinct_field_names(&duplicated));
}

#[test]
fn registry_finds_tools_by_name() {
    let mut registry = ToolRegistry::new();
    assert_eq!(registry.len(), 0);
    let fields = vec![field("x", Vec::new())];
    assert!(registry.add(tool("One", &fields)));
    assert!(registry.add(tool("Two", &fields)));
    assert_eq!(registry.len(), 2);
    assert_eq!(registry.find(&"One".to_string()), Some(0));
    assert_eq!(registry.find(&"Two".to_string()), Some(1));
    assert_eq!(registry.find(&"Three".to_string()), None);
}

#[test]
fn registry_refuses_a_duplicate_name() {
    let mut registry = ToolRegistry::new();
    let fields = vec![field("x", Vec::new())];
    assert!(registry.add(tool("One", &fields)));
    assert!(!registry.add(tool("One", &fields)));
    assert_eq!(registry.len(), 1);
}

#[test]
fn registry_hands_out_the_schemas_in_registration_order() {
    let mut registry = ToolRegistry::new();
    let fields = vec![field("x", Vec::new())];
    registry.add(tool("One", &fields));
    registry.add(tool("Two", &fields));
    let schemas = registry.schemas();
    assert_eq!(schemas.len(), 2);
    let ToolImpl::Function { name, .. } = &schemas[0];
    assert_eq!(name, "One");
    let ToolImpl::Function { name, .. } = &schemas[1];
    assert_eq!(name, "Two");
    let copy = registry.schema_at(1);
    let ToolImpl::Function { name, .. } = &copy;
    assert_eq!(name, "Two");
}
