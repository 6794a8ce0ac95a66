//! The rules a settings value has to meet, stated over mathematical values.
//!
//! Each rule says what is wrong with one part of the settings, if anything.
//! The rules are ordered, and so are the entries of every list: what is
//! wrong with a settings value is what the first rule in order finds
//! (see [`first_some`]).

use crate::data::CategoryView;
use crate::error::ColorSlot;
use crate::error::RuleProblem;
use crate::error::ValidationError;
use crate::error::ValidationErrorView;
use crate::first::first_some;
use crate::pattern::is_rgba;
use crate::settings::ColorsView;
use crate::settings::FeaturedItemRuleOptionView;
use crate::settings::FeaturedItemRuleView;
use crate::settings::GroupView;
use crate::settings::LandscapeSettingsView;
use crate::text::identifier;
use vstd::prelude::*;

verus! {

/// What a rule finds wrong: nothing, or an error.
pub type Violation = Option<ValidationErrorView>;

/// `result` reports `violation`: it is `Ok` when nothing is wrong, and
/// otherwise the error that was found.
pub open spec fn reports(result: Result<(), ValidationError>, violation: Violation) -> bool {
    match result {
        Ok(_) => violation is None,
        Err(error) => violation == Some(error@),
    }
}

/// The foundation must not be empty.
pub open spec fn foundation_violation(foundation: Seq<char>) -> Violation {
    if foundation.len() == 0 {
        Some(ValidationErrorView::EmptyFoundation)
    } else {
        None
    }
}

/// The members category, when there is one, must not be empty.
pub open spec fn members_category_violation(members_category: Option<Seq<char>>) -> Violation {
    match members_category {
        Some(name) => if name.len() == 0 {
            Some(ValidationErrorView::EmptyMembersCategory)
        } else {
            None
        },
        None => None,
    }
}

/// For each subcategory of the category reported as `category_id`, in
/// order: it must not be empty.
pub open spec fn subcategory_violations(category_id: Seq<char>, subcategories: Seq<Seq<char>>) -> Seq<
    Violation,
> {
    Seq::new(
        subcategories.len(),
        |j: int|
            if subcategories[j].len() == 0 {
                Some(ValidationErrorView::EmptySubcategory { category_id, index: j as nat })
            } else {
                None
            },
    )
}

/// The category at position `index` must have a name, and none of its
/// subcategories may be empty.
pub open spec fn category_violation(category: CategoryView, index: nat) -> Violation {
    let category_id = identifier(category.name, index);
    if category.name.len() == 0 {
        Some(ValidationErrorView::EmptyCategoryName { category_id })
    } else {
        first_some(subcategory_violations(category_id, category.subcategories))
    }
}

/// For each category, in order: what is wrong with it.
pub open spec fn category_violations(categories: Seq<CategoryView>) -> Seq<Violation> {
    Seq::new(categories.len(), |i: int| category_violation(categories[i], i as nat))
}

/// The categories, when there are any, must all be valid.
pub open spec fn categories_violation(categories: Option<Seq<CategoryView>>) -> Violation {
    match categories {
        Some(categories) => first_some(category_violations(categories)),
        None => None,
    }
}

/// The six colour slots, in order.
pub open spec fn color_slots() -> Seq<ColorSlot> {
    seq![
        ColorSlot::Color1,
        ColorSlot::Color2,
        ColorSlot::Color3,
        ColorSlot::Color4,
        ColorSlot::Color5,
        ColorSlot::Color6,
    ]
}

impl ColorsView {
    /// The value that the slot holds.
    pub open spec fn value(self, slot: ColorSlot) -> Seq<char> {
        match slot {
            ColorSlot::Color1 => self.color1,
            ColorSlot::Color2 => self.color2,
            ColorSlot::Color3 => self.color3,
            ColorSlot::Color4 => self.color4,
            ColorSlot::Color5 => self.color5,
            ColorSlot::Color6 => self.color6,
        }
    }
}

/// A colour slot must hold a colour. `matched` says whether its value
/// matched the colour pattern.
pub open spec fn slot_violation(slot: ColorSlot, matched: bool) -> Violation {
    if matched {
        None
    } else {
        Some(ValidationErrorView::InvalidColor { slot })
    }
}

/// For each colour slot, in order: it must hold a colour.
pub open spec fn slot_violations(colors: ColorsView) -> Seq<Violation> {
    Seq::new(
        6,
        |i: int| slot_violation(color_slots()[i], is_rgba(colors.value(color_slots()[i]))),
    )
}

/// The colours, when they are given, must all be colours.
pub open spec fn colors_violation(colors: Option<ColorsView>) -> Violation {
    match colors {
        Some(colors) => first_some(slot_violations(colors)),
        None => None,
    }
}

/// An option of a featured item rule must have a value, and its label, when
/// it has one, must not be empty.
pub open spec fn option_problem(option: FeaturedItemRuleOptionView) -> Option<RuleProblem> {
    if option.value.len() == 0 {
        Some(RuleProblem::OptionValueEmpty)
    } else if option.label is Some && option.label->0.len() == 0 {
        Some(RuleProblem::OptionLabelEmpty)
    } else {
        None
    }
}

/// For each option of a rule, in order: what is wrong with it.
pub open spec fn option_problems(options: Seq<FeaturedItemRuleOptionView>) -> Seq<
    Option<RuleProblem>,
> {
    Seq::new(options.len(), |j: int| option_problem(options[j]))
}

/// A featured item rule must name a field and have at least one option, and
/// all its options must be valid.
pub open spec fn rule_problem(rule: FeaturedItemRuleView) -> Option<RuleProblem> {
    if rule.field.len() == 0 {
        Some(RuleProblem::FieldEmpty)
    } else if rule.options.len() == 0 {
        Some(RuleProblem::OptionsEmpty)
    } else {
        first_some(option_problems(rule.options))
    }
}

/// What is wrong with the featured item rule at position `index`: its
/// problem, in the context of the rule.
pub open spec fn rule_violation(rule: FeaturedItemRuleView, index: nat) -> Violation {
    match rule_problem(rule) {
        Some(problem) => Some(
            ValidationErrorView::InvalidRule {
                rule_id: identifier(rule.field, index),
                field: rule.field,
                problem,
            },
        ),
        None => None,
    }
}

/// For each featured item rule, in order: what is wrong with it.
pub open spec fn rule_violations(rules: Seq<FeaturedItemRuleView>) -> Seq<Violation> {
    Seq::new(rules.len(), |i: int| rule_violation(rules[i], i as nat))
}

/// The featured item rules, when there are any, must all be valid.
pub open spec fn featured_items_violation(rules: Option<Seq<FeaturedItemRuleView>>) -> Violation {
    match rules {
        Some(rules) => first_some(rule_violations(rules)),
        None => None,
    }
}

/// For each category name of the group reported as `group_id`, in order: it
/// must not be empty.
pub open spec fn group_category_violations(group_id: Seq<char>, categories: Seq<Seq<char>>) -> Seq<
    Violation,
> {
    Seq::new(
        categories.len(),
        |j: int|
            if categories[j].len() == 0 {
                Some(ValidationErrorView::EmptyGroupCategory { group_id, index: j as nat })
            } else {
                None
            },
    )
}

/// The group at position `index` must have a name, and none of the category
/// names it refers to may be empty.
pub open spec fn group_violation(group: GroupView, index: nat) -> Violation {
    let group_id = identifier(group.name, index);
    if group.name.len() == 0 {
        Some(ValidationErrorView::EmptyGroupName { group_id })
    } else {
        first_some(group_category_violations(group_id, group.categories))
    }
}

/// For each group, in order: what is wrong with it.
pub open spec fn group_violations(groups: Seq<GroupView>) -> Seq<Violation> {
    Seq::new(groups.len(), |i: int| group_violation(groups[i], i as nat))
}

/// The groups, when there are any, must all be valid.
pub open spec fn groups_violation(groups: Option<Seq<GroupView>>) -> Violation {
    match groups {
        Some(groups) => first_some(group_violations(groups)),
        None => None,
    }
}

/// What each rule finds, in the order in which the rules are checked:
/// foundation, members category, categories, colours, featured item rules,
/// groups.
pub open spec fn settings_violations(settings: LandscapeSettingsView) -> Seq<Violation> {
    seq![
        foundation_violation(settings.foundation),
        members_category_violation(settings.members_category),
        categories_violation(settings.categories),
        colors_violation(settings.colors),
        featured_items_violation(settings.featured_items),
        groups_violation(settings.groups),
    ]
}

/// What is wrong with a settings value: what the first rule that finds
/// anything finds.
pub open spec fn settings_violation(settings: LandscapeSettingsView) -> Violation {
    first_some(settings_violations(settings))
}

/// A settings value is valid when no rule finds anything wrong with it.
pub open spec fn valid(settings: LandscapeSettingsView) -> bool {
    settings_violation(settings) is None
}

/// No name in `names` is empty.
pub open spec fn all_named(names: Seq<Seq<char>>) -> bool {
    forall|j: int| 0 <= j < names.len() ==> (#[trigger] names[j]).len() > 0
}

impl CategoryView {
    /// The invariant of a category: it has a name, and so has each of its
    /// subcategories.
    pub open spec fn well_formed(self) -> bool {
        &&& self.name.len() > 0
        &&& all_named(self.subcategories)
    }
}

impl ColorsView {
    /// The invariant of the colours: each of the six slots holds a colour.
    pub open spec fn well_formed(self) -> bool {
        &&& is_rgba(self.color1)
        &&& is_rgba(self.color2)
        &&& is_rgba(self.color3)
        &&& is_rgba(self.color4)
        &&& is_rgba(self.color5)
        &&& is_rgba(self.color6)
    }
}

impl FeaturedItemRuleOptionView {
    /// The invariant of an option: it has a value, and its label, when it
    /// has one, is not empty.
    pub open spec fn well_formed(self) -> bool {
        &&& self.value.len() > 0
        &&& self.label matches Some(label) ==> label.len() > 0
    }
}

impl FeaturedItemRuleView {
    /// The invariant of a featured item rule: it names a field and has at
    /// least one option, and each of its options is well formed.
    pub open spec fn well_formed(self) -> bool {
        &&& self.field.len() > 0
        &&& self.options.len() > 0
        &&& forall|j: int| 0 <= j < self.options.len() ==> (#[trigger] self.options[j]).well_formed()
    }
}

impl GroupView {
    /// The invariant of a group: it has a name, and so has each category
    /// it refers to.
    pub open spec fn well_formed(self) -> bool {
        &&& self.name.len() > 0
        &&& all_named(self.categories)
    }
}

impl LandscapeSettingsView {
    /// The invariant of the settings: what a settings value has to meet
    /// before anything may rely on it.
    pub open spec fn well_formed(self) -> bool {
        &&& self.foundation.len() > 0
        &&& self.members_category matches Some(name) ==> name.len() > 0
        &&& self.categories matches Some(categories) ==> forall|i: int|
            0 <= i < categories.len() ==> (#[trigger] categories[i]).well_formed()
        &&& self.colors matches Some(colors) ==> colors.well_formed()
        &&& self.featured_items matches Some(rules) ==> forall|i: int|
            0 <= i < rules.len() ==> (#[trigger] rules[i]).well_formed()
        &&& self.groups matches Some(groups) ==> forall|i: int|
            0 <= i < groups.len() ==> (#[trigger] groups[i]).well_formed()
    }
}

} // verus!
