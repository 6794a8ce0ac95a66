//! The validator: it checks a settings value against the rules, in order,
//! and stops at the first rule that is broken.

use crate::error::ColorSlot;
use crate::error::RuleProblem;
use crate::error::ValidationError;
use crate::first::lemma_first_some_at;
use crate::first::lemma_first_some_none;
use crate::laws::lemma_categories_pass;
use crate::laws::lemma_colors_violation_none;
use crate::laws::lemma_featured_items_pass;
use crate::laws::lemma_groups_pass;
use crate::laws::lemma_valid_iff_well_formed;
use crate::pattern::ColorPattern;
use crate::rules::categories_violation;
use crate::rules::category_violations;
use crate::rules::color_slots;
use crate::rules::colors_violation;
use crate::rules::featured_items_violation;
use crate::rules::group_category_violations;
use crate::rules::group_violations;
use crate::rules::groups_violation;
use crate::rules::option_problem;
use crate::rules::option_problems;
use crate::rules::reports;
use crate::rules::rule_problem;
use crate::rules::rule_violations;
use crate::rules::settings_violation;
use crate::rules::settings_violations;
use crate::rules::slot_violation;
use crate::rules::slot_violations;
use crate::rules::subcategory_violations;
use crate::settings::Colors;
use crate::settings::FeaturedItemRule;
use crate::settings::FeaturedItemRuleOption;
use crate::settings::LandscapeSettings;
use crate::text::identifier_string;
use vstd::prelude::*;

verus! {

/// The position of the first empty name in `names`, if any name is empty.
pub fn first_empty_name(names: &Vec<String>) -> (position: Option<usize>)
    ensures
        match position {
            Some(k) => {
                &&& k < names.len()
                &&& names[k as int]@.len() == 0
                &&& forall|j: int| 0 <= j < k ==> names[j]@.len() > 0
            },
            None => forall|j: int| 0 <= j < names.len() ==> names[j]@.len() > 0,
        },
{
    let mut j: usize = 0;
    while j < names.len()
        invariant
            j <= names.len(),
            forall|k: int| 0 <= k < j ==> names[k]@.len() > 0,
        decreases names.len() - j,
    {
        if names[j].as_str().is_empty() {
            return Some(j);
        }
        j += 1;
    }
    None
}

impl FeaturedItemRuleOption {
    /// What is wrong with the option, if anything.
    pub fn problem(&self) -> (problem: Option<RuleProblem>)
        ensures
            problem == option_problem(self@),
    {
        // Value
        if self.value.as_str().is_empty() {
            return Some(RuleProblem::OptionValueEmpty);
        }
        // Label
        if let Some(label) = &self.label {
            if label.as_str().is_empty() {
                return Some(RuleProblem::OptionLabelEmpty);
            }
        }
        None
    }
}

impl FeaturedItemRule {
    /// What is wrong with the rule, if anything: with its field, with its
    /// list of options, or with the first option that has a problem.
    pub fn problem(&self) -> (problem: Option<RuleProblem>)
        ensures
            problem == rule_problem(self@),
    {
        // Field
        if self.field.as_str().is_empty() {
            return Some(RuleProblem::FieldEmpty);
        }
        // Options
        if self.options.is_empty() {
            return Some(RuleProblem::OptionsEmpty);
        }
        let ghost problems = option_problems(self@.options);
        let mut j: usize = 0;
        while j < self.options.len()
            invariant
                j <= self.options.len(),
                self@.field.len() > 0,
                self@.options.len() > 0,
                problems == option_problems(self@.options),
                forall|k: int| 0 <= k < j ==> problems[k] is None,
            decreases self.options.len() - j,
        {
            let found = self.options[j].problem();
            assert(self@.options[j as int] == self.options[j as int]@);
            if found.is_some() {
                proof {
                    lemma_first_some_at(problems, j as int);
                }
                return found;
            }
            j += 1;
        }
        proof {
            lemma_first_some_none(problems);
        }
        None
    }
}

impl Colors {
    /// The value that the slot holds.
    pub fn value(&self, slot: ColorSlot) -> (value: &String)
        ensures
            value@ == self@.value(slot),
    {
        match slot {
            ColorSlot::Color1 => &self.color1,
            ColorSlot::Color2 => &self.color2,
            ColorSlot::Color3 => &self.color3,
            ColorSlot::Color4 => &self.color4,
            ColorSlot::Color5 => &self.color5,
            ColorSlot::Color6 => &self.color6,
        }
    }
}

/// The outcome of the check of one colour slot, given whether the value in
/// the slot matched the colour pattern: an error that names the slot when it
/// did not.
pub fn slot_result(slot: ColorSlot, matched: bool) -> (result: Result<(), ValidationError>)
    ensures
        reports(result, slot_violation(slot, matched)),
        matched ==> result is Ok,
        !matched ==> result == Err::<(), ValidationError>(ValidationError::InvalidColor { slot }),
{
    if !matched {
        return Err(ValidationError::InvalidColor { slot });
    }
    Ok(())
}

impl LandscapeSettings {
    /// Check featured item rules are valid.
    ///
    /// The first rule with a problem is reported, under its field name, or
    /// under its position when it names no field.
    pub fn validate_featured_items(&self) -> (result: Result<(), ValidationError>)
        ensures
            reports(result, featured_items_violation(self@.featured_items)),
            result is Ok <==> (self@.featured_items matches Some(rules) ==> forall|i: int|
                0 <= i < rules.len() ==> (#[trigger] rules[i]).well_formed()),
    {
        proof {
            match self@.featured_items {
                Some(rules) => lemma_featured_items_pass(rules),
                None => {},
            }
        }
        if let Some(featured_items) = &self.featured_items {
            let ghost violations = rule_violations(featured_items.deep_view());
            let mut i: usize = 0;
            while i < featured_items.len()
                invariant
                    i <= featured_items.len(),
                    self@.featured_items == Some(featured_items.deep_view()),
                    violations == rule_violations(featured_items.deep_view()),
                    forall|k: int| 0 <= k < i ==> violations[k] is None,
                decreases featured_items.len() - i,
            {
                let rule = &featured_items[i];
                assert(featured_items.deep_view()[i as int] == rule@);
                if let Some(problem) = rule.problem() {
                    let rule_id = identifier_string(&rule.field, i);
                    proof {
                        lemma_first_some_at(violations, i as int);
                        lemma_featured_items_pass(featured_items.deep_view());
                    }
                    return Err(
                        ValidationError::InvalidRule { rule_id, field: rule.field.clone(), problem },
                    );
                }
                i += 1;
            }
            proof {
                lemma_first_some_none(violations);
            }
        }
        Ok(())
    }

    /// Check categories are valid.
    ///
    /// The first category that has no name, or an empty subcategory, is
    /// reported: under its position when it has no name, under its name
    /// otherwise.
    pub fn validate_categories(&self) -> (result: Result<(), ValidationError>)
        ensures
            reports(result, categories_violation(self@.categories)),
            result is Ok <==> (self@.categories matches Some(categories) ==> forall|i: int|
                0 <= i < categories.len() ==> (#[trigger] categories[i]).well_formed()),
    {
        proof {
            match self@.categories {
                Some(categories) => lemma_categories_pass(categories),
                None => {},
            }
        }
        if let Some(categories) = &self.categories {
            let ghost violations = category_violations(categories.deep_view());
            let mut i: usize = 0;
            while i < categories.len()
                invariant
                    i <= categories.len(),
                    self@.categories == Some(categories.deep_view()),
                    violations == category_violations(categories.deep_view()),
                    forall|k: int| 0 <= k < i ==> violations[k] is None,
                decreases categories.len() - i,
            {
                let category = &categories[i];
                let category_id = identifier_string(&category.name, i);
                assert(categories.deep_view()[i as int] == category@);
                let ghost inner = subcategory_violations(category_id@, category@.subcategories);

                // Name
                if category.name.as_str().is_empty() {
                    proof {
                        lemma_first_some_at(violations, i as int);
                    }
                    return Err(ValidationError::EmptyCategoryName { category_id });
                }
                // Subcategories
                match first_empty_name(&category.subcategories) {
                    Some(index) => {
                        proof {
                            lemma_first_some_at(inner, index as int);
                            lemma_first_some_at(violations, i as int);
                        }
                        return Err(ValidationError::EmptySubcategory { category_id, index });
                    },
                    None => {
                        proof {
                            lemma_first_some_none(inner);
                        }
                    },
                }
                i += 1;
            }
            proof {
                lemma_first_some_none(violations);
            }
        }
        Ok(())
    }

    /// Check groups are valid.
    ///
    /// The first group that has no name, or that refers to a category by an
    /// empty name, is reported: under its position when it has no name,
    /// under its name otherwise.
    pub fn validate_groups(&self) -> (result: Result<(), ValidationError>)
        ensures
            reports(result, groups_violation(self@.groups)),
            result is Ok <==> (self@.groups matches Some(groups) ==> forall|i: int|
                0 <= i < groups.len() ==> (#[trigger] groups[i]).well_formed()),
    {
        proof {
            match self@.groups {
                Some(groups) => lemma_groups_pass(groups),
                None => {},
            }
        }
        if let Some(groups) = &self.groups {
            let ghost violations = group_violations(groups.deep_view());
            let mut i: usize = 0;
            while i < groups.len()
                invariant
                    i <= groups.len(),
                    self@.groups == Some(groups.deep_view()),
                    violations == group_violations(groups.deep_view()),
                    forall|k: int| 0 <= k < i ==> violations[k] is None,
                decreases groups.len() - i,
            {
                let group = &groups[i];
                let group_id = identifier_string(&group.name, i);
                assert(groups.deep_view()[i as int] == group@);
                let ghost inner = group_category_violations(group_id@, group@.categories);

                // Name
                if group.name.as_str().is_empty() {
                    proof {
                        lemma_first_some_at(violations, i as int);
                    }
                    return Err(ValidationError::EmptyGroupName { group_id });
                }
                // Categories
                match first_empty_name(&group.categories) {
                    Some(index) => {
                        proof {
                            lemma_first_some_at(inner, index as int);
                            lemma_first_some_at(violations, i as int);
                        }
                        return Err(ValidationError::EmptyGroupCategory { group_id, index });
                    },
                    None => {
                        proof {
                            lemma_first_some_none(inner);
                        }
                    },
                }
                i += 1;
            }
            proof {
                lemma_first_some_none(violations);
            }
        }
        Ok(())
    }

    /// Check colors format.
    ///
    /// When the colours are given, the first of the six slots whose value
    /// does not match the colour pattern is reported by its name.
    pub fn validate_colors(&self, pattern: &ColorPattern) -> (result: Result<(), ValidationError>)
        ensures
            reports(result, colors_violation(self@.colors)),
            result is Ok <==> (self@.colors matches Some(colors) ==> colors.well_formed()),
    {
        proof {
            match self@.colors {
                Some(colors) => lemma_colors_violation_none(colors),
                None => {},
            }
        }
        if let Some(colors) = &self.colors {
            let slots = [
                ColorSlot::Color1,
                ColorSlot::Color2,
                ColorSlot::Color3,
                ColorSlot::Color4,
                ColorSlot::Color5,
                ColorSlot::Color6,
            ];
            assert(slots@ =~= color_slots());
            let ghost violations = slot_violations(colors@);
            let mut i: usize = 0;
            while i < 6
                invariant
                    i <= 6,
                    slots@ == color_slots(),
                    self@.colors == Some(colors@),
                    violations == slot_violations(colors@),
                    forall|k: int| 0 <= k < i ==> violations[k] is None,
                decreases 6 - i,
            {
                let slot = slots[i];
                let matched = pattern.is_match(colors.value(slot).as_str());
                if let Err(error) = slot_result(slot, matched) {
                    proof {
                        lemma_first_some_at(violations, i as int);
                    }
                    return Err(error);
                }
                i += 1;
            }
            proof {
                lemma_first_some_none(violations);
            }
        }
        Ok(())
    }

    /// Validate landscape settings.
    ///
    /// The rules are checked in a fixed order: foundation, members
    /// category, categories, colours, featured item rules, groups. The
    /// first one that is broken gives the error; the settings are valid
    /// when none is.
    pub fn validate(&self, pattern: &ColorPattern) -> (result: Result<(), ValidationError>)
        ensures
            reports(result, settings_violation(self@)),
            result is Ok <==> self@.well_formed(),
            self@.foundation.len() == 0 ==> result == Err::<(), ValidationError>(
                ValidationError::EmptyFoundation,
            ),
    {
        let ghost violations = settings_violations(self@);
        proof {
            lemma_valid_iff_well_formed(self@);
        }

        // Check foundation is not empty
        if self.foundation.as_str().is_empty() {
            proof {
                lemma_first_some_at(violations, 0);
            }
            return Err(ValidationError::EmptyFoundation);
        }
        // Check members category is not empty
        if let Some(members_category) = &self.members_category {
            if members_category.as_str().is_empty() {
                proof {
                    lemma_first_some_at(violations, 1);
                }
                return Err(ValidationError::EmptyMembersCategory);
            }
        }
        if let Err(error) = self.validate_categories() {
            proof {
                lemma_first_some_at(violations, 2);
            }
            return Err(error);
        }
        if let Err(error) = self.validate_colors(pattern) {
            proof {
                lemma_first_some_at(violations, 3);
            }
            return Err(error);
        }
        if let Err(error) = self.validate_featured_items() {
            proof {
                lemma_first_some_at(violations, 4);
            }
            return Err(error);
        }
        if let Err(error) = self.validate_groups() {
            proof {
                lemma_first_some_at(violations, 5);
            }
            return Err(error);
        }
        proof {
            lemma_first_some_none(violations);
        }
        Ok(())
    }
}

} // verus!
