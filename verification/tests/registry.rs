use toolcall::arguments::Arguments;
use toolcall::arithmetic::{arithmetic_registry, Arithmetic};
use toolcall::descriptor::{ParameterSpec, ToolDescriptor};
use toolcall::executor::invoke;
use toolcall::registry::ToolRegistry;
use toolcall::value::{Value, ValueKind};

fn names(registry: &ToolRegistry<Arithmetic>) -> Vec<String> {
    registry.list().iter().map(|d| d.name().to_string()).collect()
}

#[test]
fn descriptor_refuses_an_empty_name() {
    assert!(ToolDescriptor::new("", "nothing").is_none());
    let d = ToolDescriptor::new("x", "").unwrap();
    assert_eq!(d.name(), "x");
    assert_eq!(d.description(), "");
    assert!(d.parameters().is_empty());
}

#[test]
fn descriptor_keeps_parameters_in_declaration_order() {
    let d = ToolDescriptor::new("Scale", "Scales a number")
        .unwrap()
        .with_parameter(ParameterSpec::number("value", "The number"))
        .with_parameter(ParameterSpec::new("label", "A label", ValueKind::Text, false));
    let ps = d.parameters();
    assert_eq!(ps.len(), 2);
    assert_eq!(ps[0].name, "value");
    assert!(ps[0].required);
    assert_eq!(ps[0].kind, ValueKind::Number);
    assert_eq!(ps[1].name, "label");
    assert!(!ps[1].required);
    assert_eq!(ps[1].kind, ValueKind::Text);
    assert!(d.declares("value"));
    assert!(d.declares("label"));
    assert!(!d.declares("other"));
    assert_eq!(d.clone(), d);
}

#[test]
fn arithmetic_descriptors_say_what_the_tools_do() {
    let add = Arithmetic::Add.descriptor();
    assert_eq!(add.name(), "Add");
    assert_eq!(add.description(), "Adds two numbers together.");
    assert_eq!(add.parameters()[0].name, "a");
    assert_eq!(add.parameters()[0].description, "The first number to add");
    assert_eq!(add.parameters()[1].name, "b");
    assert_eq!(add.parameters()[1].description, "The second number to add");
    let sub = Arithmetic::Sub.descriptor();
    assert_eq!(sub.name(), "Sub");
    assert_eq!(sub.description(), "Subtract 2nd number from 1st");
    assert_eq!(sub.parameters()[0].description, "The first number");
    assert_eq!(sub.parameters()[1].description, "The second number");
}

#[test]
fn two_distinct_names_register() {
    let mut registry: ToolRegistry<Arithmetic> = ToolRegistry::new();
    assert_eq!(registry.len(), 0);
    assert!(registry.register(Arithmetic::Add.descriptor(), Arithmetic::Add).is_ok());
    assert!(registry.register(Arithmetic::Sub.descriptor(), Arithmetic::Sub).is_ok());
    assert_eq!(registry.len(), 2);
    assert!(registry.contains("Add"));
    assert!(registry.contains("Sub"));
    assert!(!registry.contains("Mul"));
}

#[test]
fn a_taken_name_is_refused_and_the_first_registration_stays() {
    let mut registry: ToolRegistry<Arithmetic> = ToolRegistry::new();
    registry.register(Arithmetic::Add.descriptor(), Arithmetic::Add).unwrap();
    let impostor = ToolDescriptor::new("Add", "Pretends to add").unwrap();
    let refused = registry.register(impostor, Arithmetic::Sub).unwrap_err();
    assert_eq!(refused.name, "Add");
    assert_eq!(registry.len(), 1);
    let (descriptor, handler) = registry.get("Add").unwrap();
    assert_eq!(descriptor.description(), "Adds two numbers together.");
    assert_eq!(*handler, Arithmetic::Add);
    assert_eq!(descriptor.parameters().len(), 2);
}

#[test]
fn get_reports_the_missing_name() {
    let registry = arithmetic_registry();
    let missing = registry.get("Mul").unwrap_err();
    assert_eq!(missing.name, "Mul");
    let (descriptor, handler) = registry.get("Sub").unwrap();
    assert_eq!(descriptor.name(), "Sub");
    assert_eq!(*handler, Arithmetic::Sub);
}

#[test]
fn listing_follows_registration_order() {
    let registry = arithmetic_registry();
    assert_eq!(names(&registry), vec!["Add".to_string(), "Sub".to_string()]);

    let mut reversed: ToolRegistry<Arithmetic> = ToolRegistry::new();
    reversed.register(Arithmetic::Sub.descriptor(), Arithmetic::Sub).unwrap();
    reversed.register(Arithmetic::Add.descriptor(), Arithmetic::Add).unwrap();
    assert_eq!(names(&reversed), vec!["Sub".to_string(), "Add".to_string()]);
}

#[test]
fn listing_does_not_depend_on_what_was_invoked() {
    let registry = arithmetic_registry();
    let mut args = Arguments::new();
    args.set("a", Value::Number(1));
    args.set("b", Value::Number(2));
    invoke(&registry, "Sub", &args).unwrap();
    invoke(&registry, "Add", &args).unwrap();
    invoke(&registry, "Sub", &args).unwrap();
    assert_eq!(names(&registry), vec!["Add".to_string(), "Sub".to_string()]);
}

#[test]
fn arguments_are_a_mapping() {
    let mut args = Arguments::new();
    assert_eq!(args.len(), 0);
    assert!(args.get("a").is_none());
    args.set("a", Value::Number(1));
    args.set("b", Value::text("two"));
    args.set("a", Value::Flag(true));
    assert_eq!(args.len(), 2);
    assert_eq!(args.get("a"), Some(&Value::Flag(true)));
    assert_eq!(args.get("b"), Some(&Value::Text("two".to_string())));
    assert_eq!(args.entry(0), Some(("a", &Value::Flag(true))));
    assert_eq!(args.entry(1), Some(("b", &Value::Text("two".to_string()))));
    assert_eq!(args.entry(2), None);
    assert_eq!(args.clone(), args);
}
