//! The configuration of a workflow activity, as Binary Ninja reads it: its name, title
//! and description, its role, and when it is eligible to run.
use vstd::prelude::*;
use vstd::std_specs::convert::IntoSpec;

verus! {

#[verifier::external_type_specification]
#[verifier::external_body]
pub struct ExJsonValue(serde_json::Value);

/// `serde_json::Value`'s `Clone` is derived, so a clone is the same value.
pub assume_specification[ <serde_json::Value as Clone>::clone ](value: &serde_json::Value) -> (r: serde_json::Value)
    ensures
        r == *value,
;

/// Names the JSON value that `serde_json::Value::from` makes of a list of strings (an
/// array of those strings).
pub uninterp spec fn json_string_array(items: Seq<Seq<char>>) -> serde_json::Value;

/// The texts of a list of strings.
pub open spec fn texts(items: Seq<&str>) -> Seq<Seq<char>> {
    items.map_values(|s: &str| s@)
}

/// Calls `serde_json::Value::from` on the list of strings `items`.  Its contract claims
/// only that the value is `json_string_array` of their texts: that equal lists give equal
/// values.
#[verifier::external_body]
fn json_string_array_value(items: &[&str]) -> (value: serde_json::Value)
    ensures
        value == json_string_array(texts(items@)),
{
    serde_json::Value::from(items.to_vec())
}

/// What part an activity plays in a workflow.
#[derive(PartialEq, Eq, Structural, Clone, Copy, Debug)]
pub enum Role {
    Action,
    Selector,
    Subflow,
    Task,
}

impl Default for Role {
    fn default() -> (r: Self)
        ensures
            r == Role::Action,
    {
        Role::Action
    }
}

/// Whether an activity runs automatically, and by default.
#[derive(PartialEq, Eq, Structural, Clone, Copy, Debug, Default)]
pub struct Auto {
    pub default: Option<bool>,
}

impl Auto {
    pub fn new() -> (r: Self)
        ensures
            r.default is None,
    {
        Self { default: None }
    }

    /// Sets the default.
    pub fn default(self, value: bool) -> (r: Self)
        ensures
            r.default == Some(value),
    {
        let mut s = self;
        s.default = Some(value);
        s
    }
}

/// How the predicates of an activity's eligibility combine.
#[derive(PartialEq, Eq, Structural, Clone, Copy, Debug)]
pub enum PredicateLogicalOperator {
    And,
    Or,
}

/// How a predicate compares its subject with its value.
#[derive(PartialEq, Eq, Structural, Clone, Copy, Debug)]
pub enum Operator {
    Eq,
    Ne,
    Lt,
    Lte,
    Gt,
    Gte,
    In,
    NotIn,
}

/// What a predicate is about: a setting, by its identifier, or the type of the view.
#[derive(PartialEq, Eq, Debug)]
pub enum PredicateType {
    Setting { identifier: String },
    ViewType,
}

/// A condition on when an activity is eligible.
#[derive(PartialEq, Eq, Debug)]
pub struct Predicate {
    pub predicate_type: PredicateType,
    pub operator: Operator,
    pub value: serde_json::Value,
}

/// The view of a `PredicateType`: a setting's identifier as text.
pub enum PredicateTypeView {
    Setting { identifier: Seq<char> },
    ViewType,
}

/// The view of a `Predicate`.
pub struct PredicateView {
    pub predicate_type: PredicateTypeView,
    pub operator: Operator,
    pub value: serde_json::Value,
}

impl View for PredicateType {
    type V = PredicateTypeView;

    open spec fn view(&self) -> PredicateTypeView {
        match self {
            PredicateType::Setting { identifier } => PredicateTypeView::Setting { identifier: identifier@ },
            PredicateType::ViewType => PredicateTypeView::ViewType,
        }
    }
}

impl View for Predicate {
    type V = PredicateView;

    open spec fn view(&self) -> PredicateView {
        PredicateView { predicate_type: self.predicate_type@, operator: self.operator, value: self.value }
    }
}

impl Clone for PredicateType {
    fn clone(&self) -> (r: Self)
        ensures
            r == *self,
    {
        match self {
            PredicateType::Setting { identifier } => PredicateType::Setting { identifier: identifier.clone() },
            PredicateType::ViewType => PredicateType::ViewType,
        }
    }
}

impl Clone for Predicate {
    fn clone(&self) -> (r: Self)
        ensures
            r == *self,
    {
        Predicate {
            predicate_type: self.predicate_type.clone(),
            operator: self.operator,
            value: self.value.clone(),
        }
    }
}

/// The predicate on the setting `identifier`.
pub open spec fn setting_predicate(identifier: Seq<char>, operator: Operator, value: serde_json::Value) -> PredicateView {
    PredicateView { predicate_type: PredicateTypeView::Setting { identifier }, operator, value }
}

impl Predicate {
    /// A predicate on the setting `identifier`: `value` is the JSON value it is compared
    /// with.
    pub fn setting(identifier: &str, operator: Operator, value: serde_json::Value) -> (r: Self)
        ensures
            r@ == setting_predicate(identifier@, operator, value),
    {
        Self {
            predicate_type: PredicateType::Setting { identifier: identifier.to_owned() },
            operator,
            value,
        }
    }
}

/// A condition on the type of the view an activity runs in.
#[derive(PartialEq, Eq, Debug, Clone, Copy)]
pub enum ViewType<'a> {
    In(&'a [&'a str]),
    NotIn(&'a [&'a str]),
}

/// The predicate that a `ViewType` condition stands for.
pub open spec fn view_type_predicate(view_type: ViewType) -> Predicate {
    match view_type {
        ViewType::In(value) => Predicate {
            predicate_type: PredicateType::ViewType,
            operator: Operator::In,
            value: json_string_array(texts(value@)),
        },
        ViewType::NotIn(value) => Predicate {
            predicate_type: PredicateType::ViewType,
            operator: Operator::NotIn,
            value: json_string_array(texts(value@)),
        },
    }
}

impl<'a> vstd::std_specs::convert::FromSpecImpl<ViewType<'a>> for Predicate {
    open spec fn obeys_from_spec() -> bool {
        true
    }

    open spec fn from_spec(v: ViewType<'a>) -> Predicate {
        view_type_predicate(v)
    }
}

impl<'a> From<ViewType<'a>> for Predicate {
    fn from(predicate: ViewType<'a>) -> (r: Self) {
        match predicate {
            ViewType::In(value) => Predicate {
                predicate_type: PredicateType::ViewType,
                operator: Operator::In,
                value: json_string_array_value(value),
            },
            ViewType::NotIn(value) => Predicate {
                predicate_type: PredicateType::ViewType,
                operator: Operator::NotIn,
                value: json_string_array_value(value),
            },
        }
    }
}

/// A condition on a setting, before it becomes a `Predicate`.
#[derive(PartialEq, Eq, Debug)]
pub struct Setting {
    pub identifier: String,
    pub operator: Operator,
    pub value: serde_json::Value,
}

/// The view of a `Setting`: the predicate it becomes.
impl View for Setting {
    type V = PredicateView;

    open spec fn view(&self) -> PredicateView {
        setting_predicate(self.identifier@, self.operator, self.value)
    }
}

impl Setting {
    pub fn new(identifier: &str, operator: Operator, value: serde_json::Value) -> (r: Self)
        ensures
            r@ == setting_predicate(identifier@, operator, value),
    {
        Self { identifier: identifier.to_owned(), operator, value }
    }

    pub fn eq(identifier: &str, value: serde_json::Value) -> (r: Self)
        ensures
            r@ == setting_predicate(identifier@, Operator::Eq, value),
    {
        Self::new(identifier, Operator::Eq, value)
    }

    pub fn ne(identifier: &str, value: serde_json::Value) -> (r: Self)
        ensures
            r@ == setting_predicate(identifier@, Operator::Ne, value),
    {
        Self::new(identifier, Operator::Ne, value)
    }

    pub fn lt(identifier: &str, value: serde_json::Value) -> (r: Self)
        ensures
            r@ == setting_predicate(identifier@, Operator::Lt, value),
    {
        Self::new(identifier, Operator::Lt, value)
    }

    pub fn lte(identifier: &str, value: serde_json::Value) -> (r: Self)
        ensures
            r@ == setting_predicate(identifier@, Operator::Lte, value),
    {
        Self::new(identifier, Operator::Lte, value)
    }

    pub fn gt(identifier: &str, value: serde_json::Value) -> (r: Self)
        ensures
            r@ == setting_predicate(identifier@, Operator::Gt, value),
    {
        Self::new(identifier, Operator::Gt, value)
    }

    pub fn gte(identifier: &str, value: serde_json::Value) -> (r: Self)
        ensures
            r@ == setting_predicate(identifier@, Operator::Gte, value),
    {
        Self::new(identifier, Operator::Gte, value)
    }

    pub fn in_(identifier: &str, value: serde_json::Value) -> (r: Self)
        ensures
            r@ == setting_predicate(identifier@, Operator::In, value),
    {
        Self::new(identifier, Operator::In, value)
    }

    pub fn not_in(identifier: &str, value: serde_json::Value) -> (r: Self)
        ensures
            r@ == setting_predicate(identifier@, Operator::NotIn, value),
    {
        Self::new(identifier, Operator::NotIn, value)
    }
}

/// The predicate that a setting condition becomes.
pub open spec fn predicate_from_setting(setting: Setting) -> Predicate {
    Predicate {
        predicate_type: PredicateType::Setting { identifier: setting.identifier },
        operator: setting.operator,
        value: setting.value,
    }
}

/// A setting condition becomes the predicate it describes: converting `Setting::new(..)`
/// (or `Setting::eq(..)`, ...) into a `Predicate` gives what `Predicate::setting` gives
/// for the same identifier, operator and value.
pub proof fn lemma_setting_becomes_its_predicate(
    setting: Setting,
    identifier: Seq<char>,
    operator: Operator,
    value: serde_json::Value,
)
    requires
        setting@ == setting_predicate(identifier, operator, value),
    ensures
        predicate_from_setting(setting)@ == setting_predicate(identifier, operator, value),
{
}

/// `In` and `NotIn` conditions on the view type make predicates on the view type with the
/// same value, one with the `In` operator, the other with `NotIn`.
pub proof fn lemma_view_type_predicates(view_types: &[&str])
    ensures
        view_type_predicate(ViewType::In(view_types)).predicate_type is ViewType,
        view_type_predicate(ViewType::NotIn(view_types)).predicate_type is ViewType,
        view_type_predicate(ViewType::In(view_types)).operator == Operator::In,
        view_type_predicate(ViewType::NotIn(view_types)).operator == Operator::NotIn,
        view_type_predicate(ViewType::In(view_types)).value == view_type_predicate(ViewType::NotIn(view_types)).value,
{
}

impl vstd::std_specs::convert::FromSpecImpl<Setting> for Predicate {
    open spec fn obeys_from_spec() -> bool {
        true
    }

    open spec fn from_spec(setting: Setting) -> Predicate {
        predicate_from_setting(setting)
    }
}

impl From<Setting> for Predicate {
    fn from(setting: Setting) -> (r: Self) {
        Predicate {
            predicate_type: PredicateType::Setting { identifier: setting.identifier },
            operator: setting.operator,
            value: setting.value,
        }
    }
}

/// When an activity is eligible to run.
#[derive(PartialEq, Eq, Debug)]
pub struct Eligibility {
    pub auto: Option<Auto>,
    pub run_once: Option<bool>,
    pub run_once_per_session: Option<bool>,
    pub continuation: Option<bool>,
    pub predicates: Vec<Predicate>,
    pub logical_operator: Option<PredicateLogicalOperator>,
}

/// The view of an `Eligibility`: its predicates by their views.
pub struct EligibilityView {
    pub auto: Option<Auto>,
    pub run_once: Option<bool>,
    pub run_once_per_session: Option<bool>,
    pub continuation: Option<bool>,
    pub predicates: Seq<PredicateView>,
    pub logical_operator: Option<PredicateLogicalOperator>,
}

/// The views of a list of predicates.
pub open spec fn predicate_views(predicates: Seq<Predicate>) -> Seq<PredicateView> {
    predicates.map_values(|p: Predicate| p@)
}

impl View for Eligibility {
    type V = EligibilityView;

    open spec fn view(&self) -> EligibilityView {
        EligibilityView {
            auto: self.auto,
            run_once: self.run_once,
            run_once_per_session: self.run_once_per_session,
            continuation: self.continuation,
            predicates: predicate_views(self.predicates@),
            logical_operator: self.logical_operator,
        }
    }
}

/// The eligibility of an activity that runs automatically, with `default` as its default,
/// and nothing else set.
pub open spec fn auto_eligibility(default: Option<bool>) -> EligibilityView {
    EligibilityView {
        auto: Some(Auto { default }),
        run_once: None,
        run_once_per_session: None,
        continuation: None,
        predicates: seq![],
        logical_operator: None,
    }
}

/// A copy of `predicates`.
fn clone_predicates(predicates: &[Predicate]) -> (r: Vec<Predicate>)
    ensures
        r@ == predicates@,
{
    let mut r: Vec<Predicate> = Vec::new();
    let mut i: usize = 0;
    while i < predicates.len()
        invariant
            i <= predicates@.len(),
            r@ == predicates@.take(i as int),
        decreases predicates@.len() - i,
    {
        r.push(predicates[i].clone());
        assert(r@ =~= predicates@.take(i + 1));
        i = i + 1;
    }
    assert(predicates@.take(predicates@.len() as int) =~= predicates@);
    r
}

impl Eligibility {
    /// Runs automatically, with no default given.
    pub fn auto() -> (r: Self)
        ensures
            r@ == auto_eligibility(None),
    {
        let r = Eligibility {
            auto: Some(Auto::new()),
            run_once: None,
            run_once_per_session: None,
            continuation: None,
            predicates: Vec::new(),
            logical_operator: None,
        };
        assert(predicate_views(r.predicates@) =~= seq![]);
        r
    }

    /// Runs automatically, by default or not as `value` says.
    pub fn auto_with_default(value: bool) -> (r: Self)
        ensures
            r@ == auto_eligibility(Some(value)),
    {
        let r = Eligibility {
            auto: Some(Auto::new().default(value)),
            run_once: None,
            run_once_per_session: None,
            continuation: None,
            predicates: Vec::new(),
            logical_operator: None,
        };
        assert(predicate_views(r.predicates@) =~= seq![]);
        r
    }

    /// The same eligibility, with `predicate`, converted into a `Predicate`, as its only
    /// predicate.  (The conversions of this module, from `ViewType` and `Setting`, obey
    /// their specifications.)
    pub fn with_predicate<P: Into<Predicate>>(self, predicate: P) -> (r: Self)
        ensures
            r@.predicates.len() == 1,
            r.auto == self.auto,
            r.run_once == self.run_once,
            r.run_once_per_session == self.run_once_per_session,
            r.continuation == self.continuation,
            r.logical_operator == self.logical_operator,
            P::obeys_into_spec() ==> r@ == (EligibilityView {
                predicates: seq![predicate.into_spec()@],
                ..self@
            }),
    {
        let mut s = self;
        let converted: Predicate = predicate.into();
        s.predicates = vec![converted];
        proof {
            assert(predicate_views(s.predicates@) =~= seq![converted@]);
        }
        s
    }

    /// The same eligibility, with `predicates` as its predicates, any of which suffices.
    pub fn matching_any_predicate(self, predicates: &[Predicate]) -> (r: Self)
        ensures
            r@ == (EligibilityView {
                predicates: predicate_views(predicates@),
                logical_operator: Some(PredicateLogicalOperator::Or),
                ..self@
            }),
    {
        let mut s = self;
        s.predicates = clone_predicates(predicates);
        s.logical_operator = Some(PredicateLogicalOperator::Or);
        s
    }

    /// The same eligibility, with `predicates` as its predicates, all of which must hold.
    pub fn matching_all_predicates(self, predicates: &[Predicate]) -> (r: Self)
        ensures
            r@ == (EligibilityView {
                predicates: predicate_views(predicates@),
                logical_operator: Some(PredicateLogicalOperator::And),
                ..self@
            }),
    {
        let mut s = self;
        s.predicates = clone_predicates(predicates);
        s.logical_operator = Some(PredicateLogicalOperator::And);
        s
    }
}

impl Default for Eligibility {
    fn default() -> (r: Self)
        ensures
            r@ == auto_eligibility(None),
    {
        Self::auto()
    }
}

/// The configuration of an activity.
#[derive(PartialEq, Eq, Debug)]
pub struct Config<'a> {
    pub name: &'a str,
    pub title: &'a str,
    pub description: &'a str,
    pub role: Role,
    pub eligibility: Eligibility,
}

/// The view of a `Config`.
pub struct ConfigView {
    pub name: Seq<char>,
    pub title: Seq<char>,
    pub description: Seq<char>,
    pub role: Role,
    pub eligibility: EligibilityView,
}

impl<'a> View for Config<'a> {
    type V = ConfigView;

    open spec fn view(&self) -> ConfigView {
        ConfigView {
            name: self.name@,
            title: self.title@,
            description: self.description@,
            role: self.role,
            eligibility: self.eligibility@,
        }
    }
}

impl<'a> Config<'a> {
    /// An action, eligible to run automatically.
    pub fn action(name: &'a str, title: &'a str, description: &'a str) -> (r: Self)
        ensures
            r.name == name,
            r.title == title,
            r.description == description,
            r.role == Role::Action,
            r.eligibility@ == auto_eligibility(None),
    {
        Self { name, title, description, role: Role::Action, eligibility: Eligibility::default() }
    }

    /// The same configuration, with `eligibility`.
    pub fn with_eligibility(self, eligibility: Eligibility) -> (r: Self)
        ensures
            r.name == self.name,
            r.title == self.title,
            r.description == self.description,
            r.role == self.role,
            r.eligibility == eligibility,
    {
        let mut s = self;
        s.eligibility = eligibility;
        s
    }
}

} // verus!
