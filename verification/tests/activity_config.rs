use objc_extras::activity::{
    Auto, Config, Eligibility, Operator, Predicate, PredicateLogicalOperator, PredicateType, Role,
    Setting, ViewType,
};
use serde_json::Value;

fn strings(items: &[&str]) -> Value {
    Value::Array(items.iter().map(|s| Value::String(s.to_string())).collect())
}

#[test]
fn an_action_is_eligible_automatically() {
    let c = Config::action("a.name", "A title", "A description");
    assert_eq!(c.name, "a.name");
    assert_eq!(c.title, "A title");
    assert_eq!(c.description, "A description");
    assert_eq!(c.role, Role::Action);
    assert_eq!(c.eligibility, Eligibility::auto());
    assert_eq!(c.eligibility.auto, Some(Auto { default: None }));
    assert!(c.eligibility.predicates.is_empty());
}

#[test]
fn with_eligibility_replaces_the_eligibility() {
    let c = Config::action("n", "t", "d").with_eligibility(Eligibility::auto_with_default(false));
    assert_eq!(c.name, "n");
    assert_eq!(c.eligibility.auto, Some(Auto { default: Some(false) }));
    assert_eq!(c.eligibility.run_once, None);
    assert_eq!(c.eligibility.logical_operator, None);
}

#[test]
fn defaults() {
    assert_eq!(Role::default(), Role::Action);
    assert_eq!(Eligibility::default(), Eligibility::auto());
    assert_eq!(Auto::new().default, None);
    assert_eq!(Auto::new().default(true).default, Some(true));
    assert_eq!(Eligibility::auto_with_default(true).auto, Some(Auto { default: Some(true) }));
}

#[test]
fn a_view_type_condition_becomes_a_predicate() {
    let p = Predicate::from(ViewType::NotIn(&["DSCView"]));
    assert_eq!(p.predicate_type, PredicateType::ViewType);
    assert_eq!(p.operator, Operator::NotIn);
    assert_eq!(p.value, strings(&["DSCView"]));
    let q = Predicate::from(ViewType::In(&["Mach-O", "Raw"]));
    assert_eq!(q.operator, Operator::In);
    assert_eq!(q.value, strings(&["Mach-O", "Raw"]));
}

#[test]
fn a_setting_condition_becomes_a_predicate() {
    let s = Setting::eq("analysis.objc.enabled", Value::Bool(true));
    assert_eq!(s.identifier, "analysis.objc.enabled");
    let p = Predicate::from(s);
    assert_eq!(p, Predicate::setting("analysis.objc.enabled", Operator::Eq, Value::Bool(true)));
    assert_eq!(p.predicate_type, PredicateType::Setting { identifier: "analysis.objc.enabled".to_string() });
}

#[test]
fn setting_operators() {
    let v = Value::from(3);
    assert_eq!(Setting::ne("s", v.clone()).operator, Operator::Ne);
    assert_eq!(Setting::lt("s", v.clone()).operator, Operator::Lt);
    assert_eq!(Setting::lte("s", v.clone()).operator, Operator::Lte);
    assert_eq!(Setting::gt("s", v.clone()).operator, Operator::Gt);
    assert_eq!(Setting::gte("s", v.clone()).operator, Operator::Gte);
    assert_eq!(Setting::in_("s", v.clone()).operator, Operator::In);
    assert_eq!(Setting::not_in("s", v.clone()).operator, Operator::NotIn);
    assert_eq!(Setting::new("s", Operator::Eq, v.clone()), Setting::eq("s", v.clone()));
    assert_eq!(Setting::gte("s", v.clone()).value, v);
}

#[test]
fn with_predicate_replaces_the_predicates() {
    let first = Predicate::from(ViewType::In(&["A"]));
    let second = Predicate::from(ViewType::NotIn(&["B"]));
    let e = Eligibility::auto().with_predicate(first).with_predicate(second.clone());
    assert_eq!(e.predicates, vec![second]);
    assert_eq!(e.logical_operator, None);
}

#[test]
fn matching_any_or_all_predicates() {
    let ps = vec![
        Predicate::from(ViewType::In(&["A"])),
        Predicate::setting("x", Operator::Lt, Value::from(1)),
    ];
    let any = Eligibility::auto_with_default(true).matching_any_predicate(&ps);
    assert_eq!(any.predicates, ps);
    assert_eq!(any.logical_operator, Some(PredicateLogicalOperator::Or));
    assert_eq!(any.auto, Some(Auto { default: Some(true) }));
    let all = Eligibility::auto().matching_all_predicates(&ps);
    assert_eq!(all.predicates, ps);
    assert_eq!(all.logical_operator, Some(PredicateLogicalOperator::And));
    let none = Eligibility::auto().matching_all_predicates(&[]);
    assert!(none.predicates.is_empty());
}

#[test]
fn predicates_clone_to_equal_values() {
    let p = Predicate::setting("x", Operator::In, strings(&["a", "b"]));
    assert_eq!(p.clone(), p);
}

#[test]
fn with_predicate_keeps_the_other_fields() {
    let base = Eligibility::auto_with_default(true).matching_any_predicate(&[]);
    let p = Predicate::setting("x", Operator::Eq, Value::Bool(false));
    let e = base.with_predicate(p.clone());
    assert_eq!(e.auto, Some(Auto { default: Some(true) }));
    assert_eq!(e.run_once, None);
    assert_eq!(e.run_once_per_session, None);
    assert_eq!(e.continuation, None);
    assert_eq!(e.logical_operator, Some(PredicateLogicalOperator::Or));
    assert_eq!(e.predicates, vec![p]);
}
