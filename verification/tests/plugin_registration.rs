use objc_extras::activity::{Auto, Operator, PredicateType, Role};
use objc_extras::plugin::{
    activity_configs, optional_plugin_dependencies, plugin_workflows, registration_steps,
    PluginActivity, WorkflowAnchor, WorkflowStep,
};
use serde_json::Value;

#[test]
fn activity_configurations() {
    let c = activity_configs();
    assert_eq!(c.memory_management.name, "bdash.objc-remove-memory-management");
    assert_eq!(c.memory_management.title, "Obj-C: Remove reference counting calls");
    assert_eq!(c.memory_management.role, Role::Action);
    assert_eq!(c.memory_management.eligibility.auto, Some(Auto { default: Some(false) }));
    assert!(c.memory_management.eligibility.predicates.is_empty());

    assert_eq!(c.types_alloc_init.name, "bdash.objc-types.alloc-init");
    assert_eq!(c.types_alloc_init.eligibility.auto, Some(Auto { default: Some(false) }));
    assert_eq!(c.types_alloc_init.eligibility.predicates.len(), 1);
    let p = &c.types_alloc_init.eligibility.predicates[0];
    assert_eq!(p.predicate_type, PredicateType::ViewType);
    assert_eq!(p.operator, Operator::NotIn);
    assert_eq!(p.value, Value::Array(vec![Value::String("DSCView".to_string())]));

    assert_eq!(c.types_super_init.name, "bdash.objc-types.super-init");
    assert_eq!(c.types_super_init.title, "Obj-C: Propagate return type from [super init…]");
    assert_eq!(c.types_super_init.eligibility.auto, Some(Auto { default: None }));
    assert!(c.types_super_init.eligibility.predicates.is_empty());

    assert_eq!(c.types_msg_send_init.name, "bdash.objc-types.msg-send-init");
    assert_eq!(c.types_msg_send_init.eligibility, c.types_alloc_init.eligibility);
}

#[test]
fn nothing_is_registered_with_an_unregistered_workflow() {
    assert!(registration_steps(false).is_empty());
}

#[test]
fn registration_order() {
    let steps = registration_steps(true);
    assert_eq!(steps.len(), 10);
    assert_eq!(steps[0], WorkflowStep::CloneWorkflow);
    assert_eq!(steps[1], WorkflowStep::RegisterActivity(PluginActivity::MemoryManagement));
    assert_eq!(steps[4], WorkflowStep::RegisterActivity(PluginActivity::TypesMsgSendInit));
    assert_eq!(
        steps[5],
        WorkflowStep::Insert {
            anchor: WorkflowAnchor::Named("core.function.generateMediumLevelIL"),
            activity: PluginActivity::MemoryManagement,
        }
    );
    assert_eq!(
        steps[8],
        WorkflowStep::InsertAfter {
            anchor: WorkflowAnchor::Activity(PluginActivity::TypesAllocInit),
            activity: PluginActivity::TypesMsgSendInit,
        }
    );
    assert_eq!(steps[9], WorkflowStep::RegisterWorkflow);
}

#[test]
fn workflows_and_dependencies() {
    assert_eq!(
        plugin_workflows(),
        vec!["core.function.metaAnalysis", "core.function.objectiveC", "core.function.sharedCache"]
    );
    assert_eq!(optional_plugin_dependencies(), vec!["workflow_objc", "sharedcache"]);
}

#[test]
fn activity_names_are_distinct_actions() {
    let c = activity_configs();
    let names = [
        c.memory_management.name,
        c.types_alloc_init.name,
        c.types_super_init.name,
        c.types_msg_send_init.name,
    ];
    for i in 0..names.len() {
        for j in 0..names.len() {
            assert_eq!(i == j, names[i] == names[j]);
        }
    }
    assert_eq!(c.types_msg_send_init.role, Role::Action);
}
