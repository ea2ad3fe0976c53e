//! What the plugin registers with Binary Ninja: the configurations of its four
//! activities, and where in a workflow each of them is inserted.
use vstd::prelude::*;

use crate::activity::{
    auto_eligibility, json_string_array, texts, Config, ConfigView, Eligibility, EligibilityView,
    Operator, PredicateTypeView, PredicateView, Role, ViewType,
};

verus! {

/// The condition "not in a dyld shared cache view".
pub open spec fn not_in_dsc_view() -> PredicateView {
    PredicateView {
        predicate_type: PredicateTypeView::ViewType,
        operator: Operator::NotIn,
        value: json_string_array(seq!["DSCView"@]),
    }
}

/// Eligible automatically, not by default, and not in a dyld shared cache view.
pub open spec fn off_by_default_outside_dsc_view() -> EligibilityView {
    EligibilityView { predicates: seq![not_in_dsc_view()], ..auto_eligibility(Some(false)) }
}

/// The configurations of the plugin's activities.
#[derive(Debug)]
pub struct ActivityConfigs {
    pub memory_management: Config<'static>,
    pub types_alloc_init: Config<'static>,
    pub types_super_init: Config<'static>,
    pub types_msg_send_init: Config<'static>,
}

/// The configuration of the activity that removes reference counting calls.
pub open spec fn memory_management_config() -> ConfigView {
    ConfigView {
        name: "bdash.objc-remove-memory-management"@,
        title: "Obj-C: Remove reference counting calls"@,
        description: "Remove calls to objc_retain / objc_release / objc_autorelease to simplify the resulting higher-level ILs"@,
        role: Role::Action,
        eligibility: auto_eligibility(Some(false)),
    }
}

/// The configuration of the activity that propagates `objc_alloc_init` return types.
pub open spec fn types_alloc_init_config() -> ConfigView {
    ConfigView {
        name: "bdash.objc-types.alloc-init"@,
        title: "Obj-C: Propagate return type from objc_alloc_init"@,
        description: "Adjust the return type of calls to objc_alloc / objc_alloc_init when a fixed type is passed as an argument."@,
        role: Role::Action,
        eligibility: off_by_default_outside_dsc_view(),
    }
}

/// The configuration of the activity that propagates `[super init…]` return types.
pub open spec fn types_super_init_config() -> ConfigView {
    ConfigView {
        name: "bdash.objc-types.super-init"@,
        title: "Obj-C: Propagate return type from [super init…]"@,
        description: "Adjust the return type of calls to objc_msgSendSuper2 where the selector is in the init family."@,
        role: Role::Action,
        eligibility: auto_eligibility(None),
    }
}

/// The configuration of the activity that propagates `[self initWith…]` return types.
pub open spec fn types_msg_send_init_config() -> ConfigView {
    ConfigView {
        name: "bdash.objc-types.msg-send-init"@,
        title: "Obj-C: Propagate return type from [self initWith…]"@,
        description: "Adjust the return type of calls to objc_msgSend where the selector is in the init family and the receiver type is known."@,
        role: Role::Action,
        eligibility: off_by_default_outside_dsc_view(),
    }
}

/// Eligible automatically, not by default, and not in a dyld shared cache view (see the
/// spec function of the same name).  The alloc / init and `-init` propagations are off
/// there because of a problem of Binary Ninja's shared cache views.
fn off_by_default_outside_dsc_view_eligibility() -> (r: Eligibility)
    ensures
        r@ == off_by_default_outside_dsc_view(),
{
    let view_types: Vec<&'static str> = vec!["DSCView"];
    assert(texts(view_types@) =~= seq!["DSCView"@]);
    Eligibility::auto_with_default(false).with_predicate(ViewType::NotIn(view_types.as_slice()))
}

/// The configurations of the plugin's activities.
pub fn activity_configs() -> (r: ActivityConfigs)
    ensures
        r.memory_management@ == memory_management_config(),
        r.types_alloc_init@ == types_alloc_init_config(),
        r.types_super_init@ == types_super_init_config(),
        r.types_msg_send_init@ == types_msg_send_init_config(),
{
    let memory_management = Config::action(
        "bdash.objc-remove-memory-management",
        "Obj-C: Remove reference counting calls",
        "Remove calls to objc_retain / objc_release / objc_autorelease to simplify the resulting higher-level ILs",
    ).with_eligibility(Eligibility::auto_with_default(false));
    let types_alloc_init = Config::action(
        "bdash.objc-types.alloc-init",
        "Obj-C: Propagate return type from objc_alloc_init",
        "Adjust the return type of calls to objc_alloc / objc_alloc_init when a fixed type is passed as an argument.",
    ).with_eligibility(off_by_default_outside_dsc_view_eligibility());
    let types_super_init = Config::action(
        "bdash.objc-types.super-init",
        "Obj-C: Propagate return type from [super init…]",
        "Adjust the return type of calls to objc_msgSendSuper2 where the selector is in the init family.",
    ).with_eligibility(Eligibility::auto());
    let types_msg_send_init = Config::action(
        "bdash.objc-types.msg-send-init",
        "Obj-C: Propagate return type from [self initWith…]",
        "Adjust the return type of calls to objc_msgSend where the selector is in the init family and the receiver type is known.",
    ).with_eligibility(off_by_default_outside_dsc_view_eligibility());
    ActivityConfigs { memory_management, types_alloc_init, types_super_init, types_msg_send_init }
}

/// The plugin's activities have distinct names, so that each can be registered with a
/// workflow next to the others; all four are actions.
pub proof fn lemma_activity_names_are_distinct()
    ensures
        memory_management_config().name != types_alloc_init_config().name,
        memory_management_config().name != types_super_init_config().name,
        memory_management_config().name != types_msg_send_init_config().name,
        types_alloc_init_config().name != types_super_init_config().name,
        types_alloc_init_config().name != types_msg_send_init_config().name,
        types_super_init_config().name != types_msg_send_init_config().name,
        memory_management_config().role == Role::Action,
        types_alloc_init_config().role == Role::Action,
        types_super_init_config().role == Role::Action,
        types_msg_send_init_config().role == Role::Action,
{
    reveal_strlit("bdash.objc-remove-memory-management");
    reveal_strlit("bdash.objc-types.alloc-init");
    reveal_strlit("bdash.objc-types.super-init");
    reveal_strlit("bdash.objc-types.msg-send-init");
    let mm = "bdash.objc-remove-memory-management"@;
    let alloc = "bdash.objc-types.alloc-init"@;
    let sup = "bdash.objc-types.super-init"@;
    let msg = "bdash.objc-types.msg-send-init"@;
    assert(mm[11] != alloc[11]);
    assert(mm[11] != sup[11]);
    assert(mm[11] != msg[11]);
    assert(alloc[17] != sup[17]);
    assert(alloc[17] != msg[17]);
    assert(sup[17] != msg[17]);
}

/// One of the plugin's activities.
#[derive(PartialEq, Eq, Structural, Clone, Copy, Debug)]
pub enum PluginActivity {
    MemoryManagement,
    TypesAllocInit,
    TypesSuperInit,
    TypesMsgSendInit,
}

/// A point in a workflow: one of its activities by name, or one of the plugin's own.
#[derive(PartialEq, Eq, Debug, Clone, Copy)]
pub enum WorkflowAnchor {
    Named(&'static str),
    Activity(PluginActivity),
}

/// One step of registering the plugin's activities with a workflow.
#[derive(PartialEq, Eq, Debug, Clone, Copy)]
pub enum WorkflowStep {
    /// Continue with a copy of the workflow under the same name.
    CloneWorkflow,
    RegisterActivity(PluginActivity),
    /// Insert the activity before `anchor`.
    Insert { anchor: WorkflowAnchor, activity: PluginActivity },
    /// Insert the activity after `anchor`.
    InsertAfter { anchor: WorkflowAnchor, activity: PluginActivity },
    /// Register the workflow copy.
    RegisterWorkflow,
}

/// The steps that register the plugin's activities with a registered workflow: reference
/// counting calls go before medium level IL is generated; the alloc / init propagation
/// right after it, the `-init` propagation after that one; the `[super init…]` propagation
/// after constant references are analysed.
pub open spec fn spec_registration_steps() -> Seq<WorkflowStep> {
    seq![
        WorkflowStep::CloneWorkflow,
        WorkflowStep::RegisterActivity(PluginActivity::MemoryManagement),
        WorkflowStep::RegisterActivity(PluginActivity::TypesAllocInit),
        WorkflowStep::RegisterActivity(PluginActivity::TypesSuperInit),
        WorkflowStep::RegisterActivity(PluginActivity::TypesMsgSendInit),
        WorkflowStep::Insert {
            anchor: WorkflowAnchor::Named("core.function.generateMediumLevelIL"),
            activity: PluginActivity::MemoryManagement,
        },
        WorkflowStep::InsertAfter {
            anchor: WorkflowAnchor::Named("core.function.generateMediumLevelIL"),
            activity: PluginActivity::TypesAllocInit,
        },
        WorkflowStep::InsertAfter {
            anchor: WorkflowAnchor::Named("core.function.analyzeConstantReferences"),
            activity: PluginActivity::TypesSuperInit,
        },
        WorkflowStep::InsertAfter {
            anchor: WorkflowAnchor::Activity(PluginActivity::TypesAllocInit),
            activity: PluginActivity::TypesMsgSendInit,
        },
        WorkflowStep::RegisterWorkflow,
    ]
}

/// Whether `step` inserts `activity`, before or after some point.
pub open spec fn inserts(step: WorkflowStep, activity: PluginActivity) -> bool {
    match step {
        WorkflowStep::Insert { activity: a, .. } => a == activity,
        WorkflowStep::InsertAfter { activity: a, .. } => a == activity,
        _ => false,
    }
}

/// The passes that read the medium level IL run after it exists: only the removal of
/// reference counting calls, which rewrites the low level IL, is inserted before a point
/// (before medium level IL is generated); the alloc / init propagation goes right after
/// medium level IL generation, the `-init` propagation after the alloc / init one, the
/// `[super init…]` propagation after constant references are analysed.  The workflow is
/// copied first and registered last, and each activity is registered once, before it is
/// inserted, and inserted once.
pub proof fn lemma_passes_follow_medium_level_il()
    ensures
        ({
            let steps = spec_registration_steps();
            &&& forall|k: int| 0 <= k < steps.len() ==> (#[trigger] steps[k] matches WorkflowStep::Insert {
                anchor,
                activity,
            } ==> activity == PluginActivity::MemoryManagement
                && anchor == WorkflowAnchor::Named("core.function.generateMediumLevelIL"))
            &&& steps.contains(WorkflowStep::InsertAfter {
                anchor: WorkflowAnchor::Named("core.function.generateMediumLevelIL"),
                activity: PluginActivity::TypesAllocInit,
            })
            &&& steps.contains(WorkflowStep::InsertAfter {
                anchor: WorkflowAnchor::Activity(PluginActivity::TypesAllocInit),
                activity: PluginActivity::TypesMsgSendInit,
            })
            &&& steps.contains(WorkflowStep::InsertAfter {
                anchor: WorkflowAnchor::Named("core.function.analyzeConstantReferences"),
                activity: PluginActivity::TypesSuperInit,
            })
            &&& steps[0] == WorkflowStep::CloneWorkflow
            &&& steps.last() == WorkflowStep::RegisterWorkflow
            &&& forall|k: int, a: PluginActivity| 0 <= k < steps.len() && #[trigger] inserts(steps[k], a)
                ==> exists|j: int| 0 <= j < k && #[trigger] steps[j] == WorkflowStep::RegisterActivity(a)
            &&& forall|k: int, l: int, a: PluginActivity|
                0 <= k < steps.len() && 0 <= l < steps.len() && #[trigger] inserts(steps[k], a)
                    && #[trigger] inserts(steps[l], a) ==> k == l
        }),
{
    let steps = spec_registration_steps();
    assert(steps[6] == WorkflowStep::InsertAfter {
        anchor: WorkflowAnchor::Named("core.function.generateMediumLevelIL"),
        activity: PluginActivity::TypesAllocInit,
    });
    assert(steps[7] == WorkflowStep::InsertAfter {
        anchor: WorkflowAnchor::Named("core.function.analyzeConstantReferences"),
        activity: PluginActivity::TypesSuperInit,
    });
    assert(steps[8] == WorkflowStep::InsertAfter {
        anchor: WorkflowAnchor::Activity(PluginActivity::TypesAllocInit),
        activity: PluginActivity::TypesMsgSendInit,
    });
    assert forall|k: int, a: PluginActivity| 0 <= k < steps.len() && #[trigger] inserts(steps[k], a)
        implies exists|j: int| 0 <= j < k && #[trigger] steps[j] == WorkflowStep::RegisterActivity(a) by {
        match a {
            PluginActivity::MemoryManagement => assert(steps[1] == WorkflowStep::RegisterActivity(a)),
            PluginActivity::TypesAllocInit => assert(steps[2] == WorkflowStep::RegisterActivity(a)),
            PluginActivity::TypesSuperInit => assert(steps[3] == WorkflowStep::RegisterActivity(a)),
            PluginActivity::TypesMsgSendInit => assert(steps[4] == WorkflowStep::RegisterActivity(a)),
        }
    }
}

/// The steps that register the plugin's activities with a workflow; none where the
/// workflow is not registered.
pub fn registration_steps(workflow_registered: bool) -> (steps: Vec<WorkflowStep>)
    ensures
        steps@ == (if workflow_registered {
            spec_registration_steps()
        } else {
            seq![]
        }),
{
    if !workflow_registered {
        let steps: Vec<WorkflowStep> = Vec::new();
        assert(steps@ =~= seq![]);
        return steps;
    }
    let steps = vec![
        WorkflowStep::CloneWorkflow,
        WorkflowStep::RegisterActivity(PluginActivity::MemoryManagement),
        WorkflowStep::RegisterActivity(PluginActivity::TypesAllocInit),
        WorkflowStep::RegisterActivity(PluginActivity::TypesSuperInit),
        WorkflowStep::RegisterActivity(PluginActivity::TypesMsgSendInit),
        WorkflowStep::Insert {
            anchor: WorkflowAnchor::Named("core.function.generateMediumLevelIL"),
            activity: PluginActivity::MemoryManagement,
        },
        WorkflowStep::InsertAfter {
            anchor: WorkflowAnchor::Named("core.function.generateMediumLevelIL"),
            activity: PluginActivity::TypesAllocInit,
        },
        WorkflowStep::InsertAfter {
            anchor: WorkflowAnchor::Named("core.function.analyzeConstantReferences"),
            activity: PluginActivity::TypesSuperInit,
        },
        WorkflowStep::InsertAfter {
            anchor: WorkflowAnchor::Activity(PluginActivity::TypesAllocInit),
            activity: PluginActivity::TypesMsgSendInit,
        },
        WorkflowStep::RegisterWorkflow,
    ];
    assert(steps@ =~= spec_registration_steps());
    steps
}

/// The workflows that the plugin's activities are registered with.
pub open spec fn spec_plugin_workflows() -> Seq<Seq<char>> {
    seq!["core.function.metaAnalysis"@, "core.function.objectiveC"@, "core.function.sharedCache"@]
}

/// The workflows that the plugin's activities are registered with.
pub fn plugin_workflows() -> (names: Vec<&'static str>)
    ensures
        texts(names@) == spec_plugin_workflows(),
{
    let names: Vec<&'static str> = vec![
        "core.function.metaAnalysis",
        "core.function.objectiveC",
        "core.function.sharedCache",
    ];
    assert(texts(names@) =~= spec_plugin_workflows());
    names
}

/// The plugins that this one optionally depends on.
pub open spec fn spec_optional_plugin_dependencies() -> Seq<Seq<char>> {
    seq!["workflow_objc"@, "sharedcache"@]
}

/// The plugins that this one optionally depends on.
pub fn optional_plugin_dependencies() -> (names: Vec<&'static str>)
    ensures
        texts(names@) == spec_optional_plugin_dependencies(),
{
    let names: Vec<&'static str> = vec!["workflow_objc", "sharedcache"];
    assert(texts(names@) =~= spec_optional_plugin_dependencies());
    names
}

} // verus!
