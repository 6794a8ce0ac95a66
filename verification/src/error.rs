//! What can be wrong with a settings value or with the way it was obtained,
//! and the messages that say so.

use crate::text::decimal;
use crate::text::decimal_string;
use vstd::prelude::*;

verus! {

/// One of the six colour slots of a settings value.
#[derive(Clone, Copy, Debug, PartialEq, Eq, Structural)]
pub enum ColorSlot {
    Color1,
    Color2,
    Color3,
    Color4,
    Color5,
    Color6,
}

impl ColorSlot {
    /// The key the slot has in a settings document.
    pub open spec fn spec_name(self) -> Seq<char> {
        match self {
            ColorSlot::Color1 => "color1"@,
            ColorSlot::Color2 => "color2"@,
            ColorSlot::Color3 => "color3"@,
            ColorSlot::Color4 => "color4"@,
            ColorSlot::Color5 => "color5"@,
            ColorSlot::Color6 => "color6"@,
        }
    }

    /// The key the slot has in a settings document.
    pub fn name(&self) -> (name: &'static str)
        ensures
            name@ == self.spec_name(),
    {
        match self {
            ColorSlot::Color1 => "color1",
            ColorSlot::Color2 => "color2",
            ColorSlot::Color3 => "color3",
            ColorSlot::Color4 => "color4",
            ColorSlot::Color5 => "color5",
            ColorSlot::Color6 => "color6",
        }
    }
}

/// What makes a featured item rule invalid.
#[derive(Clone, Copy, Debug, PartialEq, Eq, Structural)]
pub enum RuleProblem {
    /// The rule names no field.
    FieldEmpty,
    /// The rule has no options.
    OptionsEmpty,
    /// One of its options has an empty value.
    OptionValueEmpty,
    /// One of its options has a label, and the label is empty.
    OptionLabelEmpty,
}

impl RuleProblem {
    /// The message that states the problem.
    pub open spec fn spec_message(self) -> Seq<char> {
        match self {
            RuleProblem::FieldEmpty => "field cannot be empty"@,
            RuleProblem::OptionsEmpty => "options cannot be empty"@,
            RuleProblem::OptionValueEmpty => "option value cannot be empty"@,
            RuleProblem::OptionLabelEmpty => "option label cannot be empty"@,
        }
    }

    /// The message that states the problem.
    pub fn message(&self) -> (text: String)
        ensures
            text@ == self.spec_message(),
    {
        match self {
            RuleProblem::FieldEmpty => String::from_str("field cannot be empty"),
            RuleProblem::OptionsEmpty => String::from_str("options cannot be empty"),
            RuleProblem::OptionValueEmpty => String::from_str("option value cannot be empty"),
            RuleProblem::OptionLabelEmpty => String::from_str("option label cannot be empty"),
        }
    }
}

/// The first rule that a settings value breaks.
///
/// Entries of a list are reported under their identifier: the name of the
/// entry, or its position in the list when the name is empty.
#[derive(Clone, Debug, PartialEq, Eq)]
pub enum ValidationError {
    /// `foundation` is empty.
    EmptyFoundation,
    /// `members_category` is present and empty.
    EmptyMembersCategory,
    /// A category has an empty name.
    EmptyCategoryName { category_id: String },
    /// The subcategory at position `index` of a category is empty.
    EmptySubcategory { category_id: String, index: usize },
    /// A colour slot does not hold a colour.
    InvalidColor { slot: ColorSlot },
    /// A featured item rule is not valid.
    InvalidRule { rule_id: String, field: String, problem: RuleProblem },
    /// A group has an empty name.
    EmptyGroupName { group_id: String },
    /// The category name at position `index` of a group is empty.
    EmptyGroupCategory { group_id: String, index: usize },
}

/// The mathematical value of a [`ValidationError`].
pub enum ValidationErrorView {
    EmptyFoundation,
    EmptyMembersCategory,
    EmptyCategoryName { category_id: Seq<char> },
    EmptySubcategory { category_id: Seq<char>, index: nat },
    InvalidColor { slot: ColorSlot },
    InvalidRule { rule_id: Seq<char>, field: Seq<char>, problem: RuleProblem },
    EmptyGroupName { group_id: Seq<char> },
    EmptyGroupCategory { group_id: Seq<char>, index: nat },
}

impl View for ValidationError {
    type V = ValidationErrorView;

    open spec fn view(&self) -> ValidationErrorView {
        match *self {
            ValidationError::EmptyFoundation => ValidationErrorView::EmptyFoundation,
            ValidationError::EmptyMembersCategory => ValidationErrorView::EmptyMembersCategory,
            ValidationError::EmptyCategoryName { category_id } => ValidationErrorView::EmptyCategoryName {
                category_id: category_id@,
            },
            ValidationError::EmptySubcategory { category_id, index } => ValidationErrorView::EmptySubcategory {
                category_id: category_id@,
                index: index as nat,
            },
            ValidationError::InvalidColor { slot } => ValidationErrorView::InvalidColor { slot },
            ValidationError::InvalidRule { rule_id, field, problem } => ValidationErrorView::InvalidRule {
                rule_id: rule_id@,
                field: field@,
                problem,
            },
            ValidationError::EmptyGroupName { group_id } => ValidationErrorView::EmptyGroupName {
                group_id: group_id@,
            },
            ValidationError::EmptyGroupCategory { group_id, index } => ValidationErrorView::EmptyGroupCategory {
                group_id: group_id@,
                index: index as nat,
            },
        }
    }
}

impl ValidationErrorView {
    /// The message of the error.
    pub open spec fn message(self) -> Seq<char> {
        match self {
            ValidationErrorView::EmptyFoundation => "foundation cannot be empty"@,
            ValidationErrorView::EmptyMembersCategory => "members category cannot be empty"@,
            ValidationErrorView::EmptyCategoryName { category_id } => "category ["@ + category_id
                + "] name cannot be empty"@,
            ValidationErrorView::EmptySubcategory { category_id, index } => "category ["@ + category_id
                + "]: subcategory ["@ + decimal(index) + "] cannot be empty"@,
            ValidationErrorView::InvalidColor { slot } => slot.spec_name()
                + " is not valid (format: \"rgba(0, 107, 204, 1)\")"@,
            ValidationErrorView::InvalidRule { rule_id, field, problem } => "rule ["@ + rule_id
                + "] is not valid (field: ["@ + field + "])"@,
            ValidationErrorView::EmptyGroupName { group_id } => "group ["@ + group_id
                + "] name cannot be empty"@,
            ValidationErrorView::EmptyGroupCategory { group_id, index } => "group ["@ + group_id
                + "]: category ["@ + decimal(index) + "] cannot be empty"@,
        }
    }

    /// The message of what lies behind the error, where the error is the
    /// context of another.
    pub open spec fn cause(self) -> Option<Seq<char>> {
        match self {
            ValidationErrorView::InvalidRule { rule_id, field, problem } => Some(problem.spec_message()),
            _ => None,
        }
    }

    /// The messages of the error, from its own to that of its cause.
    pub open spec fn chain(self) -> Seq<Seq<char>> {
        match self.cause() {
            Some(cause) => seq![self.message(), cause],
            None => seq![self.message()],
        }
    }
}

impl ValidationError {
    /// The message of the error.
    pub fn message(&self) -> (text: String)
        ensures
            text@ == self@.message(),
    {
        match self {
            ValidationError::EmptyFoundation => String::from_str("foundation cannot be empty"),
            ValidationError::EmptyMembersCategory => String::from_str("members category cannot be empty"),
            ValidationError::EmptyCategoryName { category_id } => {
                let mut text = String::from_str("category [");
                text.append(category_id.as_str());
                text.append("] name cannot be empty");
                text
            },
            ValidationError::EmptySubcategory { category_id, index } => {
                let position = decimal_string(*index);
                let mut text = String::from_str("category [");
                text.append(category_id.as_str());
                text.append("]: subcategory [");
                text.append(position.as_str());
                text.append("] cannot be empty");
                text
            },
            ValidationError::InvalidColor { slot } => {
                let mut text = String::from_str(slot.name());
                text.append(" is not valid (format: \"rgba(0, 107, 204, 1)\")");
                text
            },
            ValidationError::InvalidRule { rule_id, field, problem } => {
                let mut text = String::from_str("rule [");
                text.append(rule_id.as_str());
                text.append("] is not valid (field: [");
                text.append(field.as_str());
                text.append("])");
                text
            },
            ValidationError::EmptyGroupName { group_id } => {
                let mut text = String::from_str("group [");
                text.append(group_id.as_str());
                text.append("] name cannot be empty");
                text
            },
            ValidationError::EmptyGroupCategory { group_id, index } => {
                let position = decimal_string(*index);
                let mut text = String::from_str("group [");
                text.append(group_id.as_str());
                text.append("]: category [");
                text.append(position.as_str());
                text.append("] cannot be empty");
                text
            },
        }
    }

    /// The message of what lies behind the error, where the error is the
    /// context of another.
    pub fn cause(&self) -> (text: Option<String>)
        ensures
            text.deep_view() == self@.cause(),
    {
        match self {
            ValidationError::InvalidRule { rule_id, field, problem } => Some(problem.message()),
            _ => None,
        }
    }

    /// The messages of the error, from its own to that of its cause.
    pub fn chain(&self) -> (texts: Vec<String>)
        ensures
            texts.deep_view() == self@.chain(),
    {
        let mut texts: Vec<String> = Vec::new();
        texts.push(self.message());
        if let Some(cause) = self.cause() {
            texts.push(cause);
        }
        assert(texts.deep_view() =~= self@.chain());
        texts
    }
}

/// Why no settings could be handed out.
#[derive(Clone, Debug, PartialEq, Eq)]
pub enum SettingsError {
    /// The source names neither a file nor a url.
    SourceNotProvided,
    /// The server answered the request for the settings with a status other
    /// than 200. `reason` is the phrase that stands for the status code,
    /// where there is one.
    UnexpectedStatus { status: u16, reason: Option<String> },
    /// The settings were read, and they break a rule.
    NotValid { error: ValidationError },
}

/// The mathematical value of a [`SettingsError`].
pub enum SettingsErrorView {
    SourceNotProvided,
    UnexpectedStatus { status: u16, reason: Option<Seq<char>> },
    NotValid { error: ValidationErrorView },
}

impl View for SettingsError {
    type V = SettingsErrorView;

    open spec fn view(&self) -> SettingsErrorView {
        match *self {
            SettingsError::SourceNotProvided => SettingsErrorView::SourceNotProvided,
            SettingsError::UnexpectedStatus { status, reason } => SettingsErrorView::UnexpectedStatus {
                status,
                reason: reason.deep_view(),
            },
            SettingsError::NotValid { error } => SettingsErrorView::NotValid { error: error@ },
        }
    }
}

/// A status as it is shown: its code, a blank, and the phrase that stands
/// for the code. A code that has no phrase is shown as unknown.
pub open spec fn shown_status(status: u16, reason: Option<Seq<char>>) -> Seq<char> {
    decimal(status as nat) + " "@ + match reason {
        Some(phrase) => phrase,
        None => "<unknown status code>"@,
    }
}

impl SettingsErrorView {
    /// The message of the error.
    pub open spec fn message(self) -> Seq<char> {
        match self {
            SettingsErrorView::SourceNotProvided => "settings file or url not provided"@,
            SettingsErrorView::UnexpectedStatus { status, reason } =>
                "unexpected status code getting landscape settings file: "@ + shown_status(
                    status,
                    reason,
                ),
            SettingsErrorView::NotValid { error } => "the settings provided are not valid"@,
        }
    }

    /// The messages of the error, from its own to that of its root cause.
    pub open spec fn chain(self) -> Seq<Seq<char>> {
        match self {
            SettingsErrorView::NotValid { error } => seq![self.message()] + error.chain(),
            _ => seq![self.message()],
        }
    }
}

/// Shows a status: its code, a blank, and the phrase that stands for the
/// code, or a note that the code is unknown.
pub fn status_string(status: u16, reason: &Option<String>) -> (text: String)
    ensures
        text@ == shown_status(status, reason.deep_view()),
{
    let mut text = decimal_string(status as usize);
    text.append(" ");
    match reason {
        Some(phrase) => text.append(phrase.as_str()),
        None => text.append("<unknown status code>"),
    }
    assert(text@ =~= shown_status(status, reason.deep_view()));
    text
}

impl SettingsError {
    /// The message of the error.
    pub fn message(&self) -> (text: String)
        ensures
            text@ == self@.message(),
    {
        match self {
            SettingsError::SourceNotProvided => String::from_str("settings file or url not provided"),
            SettingsError::UnexpectedStatus { status, reason } => {
                let shown = status_string(*status, reason);
                let mut text = String::from_str(
                    "unexpected status code getting landscape settings file: ",
                );
                text.append(shown.as_str());
                text
            },
            SettingsError::NotValid { error } => String::from_str("the settings provided are not valid"),
        }
    }

    /// The messages of the error, from its own to that of its root cause.
    pub fn chain(&self) -> (texts: Vec<String>)
        ensures
            texts.deep_view() == self@.chain(),
    {
        let mut texts: Vec<String> = Vec::new();
        texts.push(self.message());
        if let SettingsError::NotValid { error } = self {
            let mut causes = error.chain();
            assert(causes.deep_view() =~= error@.chain());
            let ghost before = texts.deep_view();
            let ghost added = causes.deep_view();
            texts.append(&mut causes);
            assert(texts.deep_view() =~= before + added);
        }
        assert(texts.deep_view() =~= self@.chain());
        texts
    }
}

} // verus!
