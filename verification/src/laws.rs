//! What holds of the rules, proved once for every settings value.

use crate::data::CategoryView;
use crate::error::RuleProblem;
use crate::error::ValidationErrorView;
use crate::first::first_some;
use crate::first::lemma_first_some_at;
use crate::first::lemma_first_some_none;
use crate::pattern::is_rgba;
use crate::rules::all_named;
use crate::rules::categories_violation;
use crate::rules::category_violation;
use crate::rules::category_violations;
use crate::rules::color_slots;
use crate::rules::colors_violation;
use crate::rules::featured_items_violation;
use crate::rules::group_category_violations;
use crate::rules::group_violation;
use crate::rules::group_violations;
use crate::rules::groups_violation;
use crate::rules::option_problems;
use crate::rules::rule_problem;
use crate::rules::rule_violation;
use crate::rules::rule_violations;
use crate::rules::settings_violation;
use crate::rules::settings_violations;
use crate::rules::slot_violations;
use crate::rules::subcategory_violations;
use crate::rules::valid;
use crate::settings::ColorsView;
use crate::settings::FeaturedItemRuleView;
use crate::settings::GroupView;
use crate::settings::LandscapeSettings;
use crate::settings::LandscapeSettingsView;
use crate::text::decimal;
use crate::text::identifier;
use vstd::prelude::*;

verus! {

/// Nothing is wrong with a category exactly when it meets its invariant,
/// whatever its position.
pub proof fn lemma_category_violation_none(category: CategoryView, index: nat)
    ensures
        category_violation(category, index) is None <==> category.well_formed(),
{
    let id = identifier(category.name, index);
    let inner = subcategory_violations(id, category.subcategories);
    lemma_first_some_none(inner);
    if category.name.len() > 0 {
        if all_named(category.subcategories) {
            assert forall|j: int| 0 <= j < inner.len() implies inner[j] is None by {
                assert(category.subcategories[j].len() > 0);
            }
        }
        if first_some(inner) is None {
            assert forall|j: int| 0 <= j < category.subcategories.len() implies (
            #[trigger] category.subcategories[j]).len() > 0 by {
                assert(inner[j] is None);
            }
        }
    }
}

/// Nothing is wrong with a group exactly when it meets its invariant,
/// whatever its position.
pub proof fn lemma_group_violation_none(group: GroupView, index: nat)
    ensures
        group_violation(group, index) is None <==> group.well_formed(),
{
    let id = identifier(group.name, index);
    let inner = group_category_violations(id, group.categories);
    lemma_first_some_none(inner);
    if group.name.len() > 0 {
        if all_named(group.categories) {
            assert forall|j: int| 0 <= j < inner.len() implies inner[j] is None by {
                assert(group.categories[j].len() > 0);
            }
        }
        if first_some(inner) is None {
            assert forall|j: int| 0 <= j < group.categories.len() implies (
            #[trigger] group.categories[j]).len() > 0 by {
                assert(inner[j] is None);
            }
        }
    }
}

/// Nothing is wrong with a featured item rule exactly when it meets its
/// invariant, whatever its position.
pub proof fn lemma_rule_violation_none(rule: FeaturedItemRuleView, index: nat)
    ensures
        rule_violation(rule, index) is None <==> rule.well_formed(),
        rule_problem(rule) is None <==> rule.well_formed(),
{
    let problems = option_problems(rule.options);
    lemma_first_some_none(problems);
    if rule.field.len() > 0 && rule.options.len() > 0 {
        if rule.well_formed() {
            assert forall|j: int| 0 <= j < problems.len() implies problems[j] is None by {
                assert(rule.options[j].well_formed());
            }
        }
        if first_some(problems) is None {
            assert forall|j: int| 0 <= j < rule.options.len() implies (
            #[trigger] rule.options[j]).well_formed() by {
                assert(problems[j] is None);
            }
        }
    }
}

/// The colours pass exactly when each of the six slots holds a colour.
pub proof fn lemma_colors_violation_none(colors: ColorsView)
    ensures
        colors_violation(Some(colors)) is None <==> colors.well_formed(),
{
    let violations = slot_violations(colors);
    lemma_first_some_none(violations);
    if colors.well_formed() {
        assert forall|j: int| 0 <= j < violations.len() implies violations[j] is None by {}
    }
    if first_some(violations) is None {
        assert(violations[0] is None);
        assert(violations[1] is None);
        assert(violations[2] is None);
        assert(violations[3] is None);
        assert(violations[4] is None);
        assert(violations[5] is None);
    }
}

/// When the colours do not pass, the error names the first slot, in the
/// order of the slots, whose value is not a colour.
pub proof fn lemma_colors_violation_names_first(colors: ColorsView, k: int)
    requires
        0 <= k < 6,
        !is_rgba(colors.value(color_slots()[k])),
        forall|j: int| 0 <= j < k ==> is_rgba(colors.value(#[trigger] color_slots()[j])),
    ensures
        colors_violation(Some(colors)) == Some(
            ValidationErrorView::InvalidColor { slot: color_slots()[k] },
        ),
{
    let violations = slot_violations(colors);
    assert forall|j: int| 0 <= j < k implies violations[j] is None by {
        assert(is_rgba(colors.value(color_slots()[j])));
    }
    lemma_first_some_at(violations, k);
}

/// A settings value is valid exactly when it meets its invariant.
pub proof fn lemma_valid_iff_well_formed(settings: LandscapeSettingsView)
    ensures
        valid(settings) <==> settings.well_formed(),
{
    let violations = settings_violations(settings);
    lemma_first_some_none(violations);
    if valid(settings) {
        assert(violations[0] is None);
        assert(violations[1] is None);
        assert(violations[2] is None);
        assert(violations[3] is None);
        assert(violations[4] is None);
        assert(violations[5] is None);
    }
    match settings.categories {
        Some(categories) => lemma_categories_pass(categories),
        None => {},
    }
    match settings.colors {
        Some(colors) => lemma_colors_violation_none(colors),
        None => {},
    }
    match settings.featured_items {
        Some(rules) => lemma_featured_items_pass(rules),
        None => {},
    }
    match settings.groups {
        Some(groups) => lemma_groups_pass(groups),
        None => {},
    }
}

/// Settings with an empty foundation fail on the foundation, whatever the
/// other fields hold.
pub proof fn lemma_empty_foundation_fails(settings: LandscapeSettingsView)
    requires
        settings.foundation.len() == 0,
    ensures
        settings_violation(settings) == Some(ValidationErrorView::EmptyFoundation),
{
    lemma_first_some_at(settings_violations(settings), 0);
}

/// When the category at position `i` has no name and nothing is wrong with
/// the categories before it, the categories fail on that one, and the error
/// identifies it by its position.
pub proof fn lemma_nameless_category_fails(categories: Seq<CategoryView>, i: int)
    requires
        0 <= i < categories.len(),
        categories[i].name.len() == 0,
        forall|k: int| 0 <= k < i ==> (#[trigger] categories[k]).well_formed(),
    ensures
        categories_violation(Some(categories)) == Some(
            ValidationErrorView::EmptyCategoryName { category_id: decimal(i as nat) },
        ),
{
    let items = category_violations(categories);
    assert forall|k: int| 0 <= k < i implies items[k] is None by {
        lemma_category_violation_none(categories[k], k as nat);
    }
    lemma_first_some_at(items, i);
}

/// Categories that all have a name, and whose subcategories all have one,
/// pass; and no others do.
pub proof fn lemma_categories_pass(categories: Seq<CategoryView>)
    ensures
        categories_violation(Some(categories)) is None <==> forall|i: int|
            0 <= i < categories.len() ==> (#[trigger] categories[i]).well_formed(),
{
    let items = category_violations(categories);
    lemma_first_some_none(items);
    assert forall|i: int| 0 <= i < categories.len() implies (items[i] is None <==> (
    #[trigger] categories[i]).well_formed()) by {
        lemma_category_violation_none(categories[i], i as nat);
    }
}

/// Featured item rules that all meet their invariant pass; and no others
/// do.
pub proof fn lemma_featured_items_pass(rules: Seq<FeaturedItemRuleView>)
    ensures
        featured_items_violation(Some(rules)) is None <==> forall|i: int|
            0 <= i < rules.len() ==> (#[trigger] rules[i]).well_formed(),
{
    let items = rule_violations(rules);
    lemma_first_some_none(items);
    assert forall|i: int| 0 <= i < rules.len() implies (items[i] is None <==> (
    #[trigger] rules[i]).well_formed()) by {
        lemma_rule_violation_none(rules[i], i as nat);
    }
}

/// Groups that all have a name, and that refer to categories by a name
/// only, pass; and no others do.
pub proof fn lemma_groups_pass(groups: Seq<GroupView>)
    ensures
        groups_violation(Some(groups)) is None <==> forall|i: int|
            0 <= i < groups.len() ==> (#[trigger] groups[i]).well_formed(),
{
    let items = group_violations(groups);
    lemma_first_some_none(items);
    assert forall|i: int| 0 <= i < groups.len() implies (items[i] is None <==> (
    #[trigger] groups[i]).well_formed()) by {
        lemma_group_violation_none(groups[i], i as nat);
    }
}

/// When the rule at position `i` names a field and has no options, and
/// nothing is wrong with the rules before it, the rules fail on that one:
/// the error is reported under the field of the rule, and its cause says
/// that options cannot be empty.
pub proof fn lemma_rule_without_options_fails(rules: Seq<FeaturedItemRuleView>, i: int)
    requires
        0 <= i < rules.len(),
        rules[i].field.len() > 0,
        rules[i].options.len() == 0,
        forall|k: int| 0 <= k < i ==> (#[trigger] rules[k]).well_formed(),
    ensures
        featured_items_violation(Some(rules)) == Some(
            ValidationErrorView::InvalidRule {
                rule_id: rules[i].field,
                field: rules[i].field,
                problem: RuleProblem::OptionsEmpty,
            },
        ),
        featured_items_violation(Some(rules))->0.cause() == Some("options cannot be empty"@),
        featured_items_violation(Some(rules))->0.message() == "rule ["@ + rules[i].field
            + "] is not valid (field: ["@ + rules[i].field + "])"@,
{
    let items = rule_violations(rules);
    assert forall|k: int| 0 <= k < i implies items[k] is None by {
        lemma_rule_violation_none(rules[k], k as nat);
    }
    lemma_first_some_at(items, i);
}

/// When the group at position `i` has a name and refers to a category by an
/// empty name, first at position `j` of its list, and nothing is wrong with
/// the groups before it, the groups fail on that one: the error identifies
/// the group by its name and the category by its position.
pub proof fn lemma_group_with_empty_category_fails(groups: Seq<GroupView>, i: int, j: int)
    requires
        0 <= i < groups.len(),
        groups[i].name.len() > 0,
        0 <= j < groups[i].categories.len(),
        groups[i].categories[j].len() == 0,
        forall|k: int| 0 <= k < j ==> (#[trigger] groups[i].categories[k]).len() > 0,
        forall|k: int| 0 <= k < i ==> (#[trigger] groups[k]).well_formed(),
    ensures
        groups_violation(Some(groups)) == Some(
            ValidationErrorView::EmptyGroupCategory { group_id: groups[i].name, index: j as nat },
        ),
        groups_violation(Some(groups))->0.message() == "group ["@ + groups[i].name
            + "]: category ["@ + decimal(j as nat) + "] cannot be empty"@,
{
    let items = group_violations(groups);
    let inner = group_category_violations(groups[i].name, groups[i].categories);
    assert forall|k: int| 0 <= k < j implies inner[k] is None by {
        assert(groups[i].categories[k].len() > 0);
    }
    lemma_first_some_at(inner, j);
    assert forall|k: int| 0 <= k < i implies items[k] is None by {
        lemma_group_violation_none(groups[k], k as nat);
    }
    lemma_first_some_at(items, i);
}

/// Validation looks at the fields of a settings value and at nothing else:
/// two values that are equal field by field break the same rule, or none.
/// So a copy of valid settings, however it was made, is valid.
pub proof fn lemma_equal_fields_validate_alike(a: LandscapeSettings, b: LandscapeSettings)
    requires
        a@ == b@,
    ensures
        settings_violation(a@) == settings_violation(b@),
        valid(a@) ==> valid(b@),
{
}

} // verus!
