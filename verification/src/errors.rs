//! What a validation pass can report, and how a report reads.

use vstd::prelude::*;
use crate::decimal::decimal;
use crate::decimal::decimal_text;

verus! {

/// A mandatory attribute that a component lacks.
#[derive(Clone, Copy, Debug, PartialEq, Eq)]
pub enum RequiredField {
    /// The style of a button.
    ButtonStyle,
    /// The target of a link button.
    LinkButtonUrl,
    /// The custom id of a button that is not a link.
    ButtonCustomId,
    /// The custom id of a select menu.
    SelectMenuCustomId,
    /// The label of a select option.
    OptionLabel,
    /// The value of a select option.
    OptionValue,
}

/// A text whose length, counted in characters, is limited.
#[derive(Clone, Copy, Debug, PartialEq, Eq)]
pub enum TextField {
    CustomId,
    ButtonLabel,
    Placeholder,
    OptionLabel,
    OptionValue,
    OptionDescription,
    EmbedTitle,
    EmbedDescription,
    EmbedFieldName,
    EmbedFieldValue,
}

/// A quantity whose size is limited.
#[derive(Clone, Copy, Debug, PartialEq, Eq)]
pub enum Counted {
    /// Action rows of a message.
    ActionRows,
    /// Buttons of one action row.
    Buttons,
    /// Select menus of one action row.
    SelectMenus,
    /// Options of a select menu.
    Options,
    /// The least number of options a user must pick.
    MinValues,
    /// The greatest number of options a user may pick.
    MaxValues,
    /// Fields of an embed.
    EmbedFields,
}

/// The two kinds of component that an action row can hold.
#[derive(Clone, Copy, Debug, PartialEq, Eq)]
pub enum ComponentKind {
    Button,
    SelectMenu,
}

/// A limited quantity: either the length of a text or a count.
#[derive(Clone, Copy, Debug, PartialEq, Eq)]
pub enum Measure {
    Length(TextField),
    Count(Counted),
}

/// The first rule that a message breaks.
#[derive(Debug, PartialEq, Eq)]
pub enum ValidationError {
    /// A mandatory attribute is absent.
    MissingRequiredField(RequiredField),
    /// A text is shorter or longer than its limit allows.
    LengthOutOfRange { field: TextField, length: usize, min: usize, max: usize },
    /// A quantity is smaller or larger than its limit allows.
    CountOutOfRange { counted: Counted, count: usize, min: usize, max: usize },
    /// A custom id is used by a second component of the same message.
    DuplicateCustomId(String),
    /// A component of the given kind joins an action row that already holds
    /// the other kind.
    ConflictingComponentKinds(ComponentKind),
    /// A select menu asks for more picks at least than it allows at most.
    InvertedRange { min_values: u8, max_values: u8 },
    /// An action row holds no component.
    EmptyRow,
}

/// A [`ValidationError`] as a mathematical value: texts are character
/// sequences and numbers are unbounded.
pub enum Violation {
    MissingRequiredField(RequiredField),
    LengthOutOfRange { field: TextField, length: nat, min: nat, max: nat },
    CountOutOfRange { counted: Counted, count: nat, min: nat, max: nat },
    DuplicateCustomId(Seq<char>),
    ConflictingComponentKinds(ComponentKind),
    InvertedRange { min_values: nat, max_values: nat },
    EmptyRow,
}

impl View for ValidationError {
    type V = Violation;

    open spec fn view(&self) -> Violation {
        match *self {
            ValidationError::MissingRequiredField(field) => Violation::MissingRequiredField(field),
            ValidationError::LengthOutOfRange { field, length, min, max } => {
                Violation::LengthOutOfRange {
                    field,
                    length: length as nat,
                    min: min as nat,
                    max: max as nat,
                }
            },
            ValidationError::CountOutOfRange { counted, count, min, max } => {
                Violation::CountOutOfRange {
                    counted,
                    count: count as nat,
                    min: min as nat,
                    max: max as nat,
                }
            },
            ValidationError::DuplicateCustomId(id) => Violation::DuplicateCustomId(id@),
            ValidationError::ConflictingComponentKinds(kind) => {
                Violation::ConflictingComponentKinds(kind)
            },
            ValidationError::InvertedRange { min_values, max_values } => {
                Violation::InvertedRange {
                    min_values: min_values as nat,
                    max_values: max_values as nat,
                }
            },
            ValidationError::EmptyRow => Violation::EmptyRow,
        }
    }
}

/// The result of a check as a mathematical value.
pub open spec fn verdict(result: Result<(), ValidationError>) -> Result<(), Violation> {
    match result {
        Ok(_) => Ok(()),
        Err(error) => Err(error@),
    }
}

/// The earlier of two results that is a failure, if either is.
pub open spec fn first_failure(
    earlier: Result<(), Violation>,
    later: Result<(), Violation>,
) -> Result<(), Violation> {
    if earlier is Err {
        earlier
    } else {
        later
    }
}

impl RequiredField {
    /// The sentence that asks for the attribute.
    pub open spec fn demand(self) -> Seq<char> {
        match self {
            RequiredField::ButtonStyle => "Button style must be set!"@,
            RequiredField::LinkButtonUrl => "Url of a Link button must be set!"@,
            RequiredField::ButtonCustomId => "Custom ID of a NonLink button must be set!"@,
            RequiredField::SelectMenuCustomId => "Custom ID of a Select menu must be set!"@,
            RequiredField::OptionLabel => "Label of a menu option must be set!"@,
            RequiredField::OptionValue => "Value of a menu option must be set!"@,
        }
    }

    pub fn demand_text(&self) -> (text: &'static str)
        ensures
            text@ == self.demand(),
    {
        match self {
            RequiredField::ButtonStyle => "Button style must be set!",
            RequiredField::LinkButtonUrl => "Url of a Link button must be set!",
            RequiredField::ButtonCustomId => "Custom ID of a NonLink button must be set!",
            RequiredField::SelectMenuCustomId => "Custom ID of a Select menu must be set!",
            RequiredField::OptionLabel => "Label of a menu option must be set!",
            RequiredField::OptionValue => "Value of a menu option must be set!",
        }
    }
}

impl TextField {
    /// How a description names the length of this text.
    pub open spec fn title(self) -> Seq<char> {
        match self {
            TextField::CustomId => "Custom ID length"@,
            TextField::ButtonLabel => "Label length"@,
            TextField::Placeholder => "Placeholder length"@,
            TextField::OptionLabel => "Label length"@,
            TextField::OptionValue => "Value length"@,
            TextField::OptionDescription => "Description length"@,
            TextField::EmbedTitle => "Embed title length"@,
            TextField::EmbedDescription => "Embed description length"@,
            TextField::EmbedFieldName => "Embed field name length"@,
            TextField::EmbedFieldValue => "Embed field value length"@,
        }
    }

    pub fn title_text(&self) -> (text: &'static str)
        ensures
            text@ == self.title(),
    {
        match self {
            TextField::CustomId => "Custom ID length",
            TextField::ButtonLabel => "Label length",
            TextField::Placeholder => "Placeholder length",
            TextField::OptionLabel => "Label length",
            TextField::OptionValue => "Value length",
            TextField::OptionDescription => "Description length",
            TextField::EmbedTitle => "Embed title length",
            TextField::EmbedDescription => "Embed description length",
            TextField::EmbedFieldName => "Embed field name length",
            TextField::EmbedFieldValue => "Embed field value length",
        }
    }
}

impl Counted {
    /// How a description names this quantity.
    pub open spec fn title(self) -> Seq<char> {
        match self {
            Counted::ActionRows => "Action row count"@,
            Counted::Buttons => "Button count"@,
            Counted::SelectMenus => "Select menu count"@,
            Counted::Options => "Option count"@,
            Counted::MinValues => "Min values"@,
            Counted::MaxValues => "Max values"@,
            Counted::EmbedFields => "Embed field count"@,
        }
    }

    pub fn title_text(&self) -> (text: &'static str)
        ensures
            text@ == self.title(),
    {
        match self {
            Counted::ActionRows => "Action row count",
            Counted::Buttons => "Button count",
            Counted::SelectMenus => "Select menu count",
            Counted::Options => "Option count",
            Counted::MinValues => "Min values",
            Counted::MaxValues => "Max values",
            Counted::EmbedFields => "Embed field count",
        }
    }
}

impl ComponentKind {
    /// The sentence that reports a component of this kind joining a row of
    /// the other kind.
    pub open spec fn conflict(self) -> Seq<char> {
        match self {
            ComponentKind::Button => {
                "An Action Row containing buttons cannot also contain a select menu"@
            },
            ComponentKind::SelectMenu => {
                "An Action Row containing a select menu cannot also contain buttons"@
            },
        }
    }

    pub fn conflict_text(&self) -> (text: &'static str)
        ensures
            text@ == self.conflict(),
    {
        match self {
            ComponentKind::Button => {
                "An Action Row containing buttons cannot also contain a select menu"
            },
            ComponentKind::SelectMenu => {
                "An Action Row containing a select menu cannot also contain buttons"
            },
        }
    }
}

impl Measure {
    /// The violation that reports `value` outside `[min, max]` for this
    /// quantity.
    pub open spec fn breach(self, value: nat, min: nat, max: nat) -> Violation {
        match self {
            Measure::Length(field) => {
                Violation::LengthOutOfRange { field, length: value, min, max }
            },
            Measure::Count(counted) => {
                Violation::CountOutOfRange { counted, count: value, min, max }
            },
        }
    }
}

/// The sentence that reports `value` outside `[min, max]`.
pub open spec fn out_of_range(title: Seq<char>, value: nat, min: nat, max: nat) -> Seq<char> {
    title + " ("@ + decimal(value) + ") not in the ["@ + decimal(min) + ", "@ + decimal(max)
        + "] interval"@
}

fn out_of_range_text(title: &str, value: usize, min: usize, max: usize) -> (text: String)
    ensures
        text@ == out_of_range(title@, value as nat, min as nat, max as nat),
{
    let mut text = title.to_owned();
    text.append(" (");
    text.append(decimal_text(value).as_str());
    text.append(") not in the [");
    text.append(decimal_text(min).as_str());
    text.append(", ");
    text.append(decimal_text(max).as_str());
    text.append("] interval");
    text
}

impl Violation {
    /// The description of the violation, as a person reads it.
    pub open spec fn text(self) -> Seq<char> {
        match self {
            Violation::MissingRequiredField(field) => field.demand(),
            Violation::LengthOutOfRange { field, length, min, max } => {
                out_of_range(field.title(), length, min, max)
            },
            Violation::CountOutOfRange { counted, count, min, max } => {
                out_of_range(counted.title(), count, min, max)
            },
            Violation::DuplicateCustomId(id) => {
                "Attempt to use the same custom ID ("@ + id + ") twice!"@
            },
            Violation::ConflictingComponentKinds(kind) => kind.conflict(),
            Violation::InvertedRange { min_values, max_values } => {
                "Min values ("@ + decimal(min_values) + ") more than max values ("@ + decimal(
                    max_values,
                ) + ")"@
            },
            Violation::EmptyRow => "Empty action row detected!"@,
        }
    }
}

impl ValidationError {
    /// The description of the error, as a person reads it.
    pub fn message(&self) -> (text: String)
        ensures
            text@ == self@.text(),
    {
        match self {
            ValidationError::MissingRequiredField(field) => field.demand_text().to_owned(),
            ValidationError::LengthOutOfRange { field, length, min, max } => {
                out_of_range_text(field.title_text(), *length, *min, *max)
            },
            ValidationError::CountOutOfRange { counted, count, min, max } => {
                out_of_range_text(counted.title_text(), *count, *min, *max)
            },
            ValidationError::DuplicateCustomId(id) => {
                let mut text = "Attempt to use the same custom ID (".to_owned();
                text.append(id.as_str());
                text.append(") twice!");
                text
            },
            ValidationError::ConflictingComponentKinds(kind) => kind.conflict_text().to_owned(),
            ValidationError::InvertedRange { min_values, max_values } => {
                let mut text = "Min values (".to_owned();
                text.append(decimal_text(*min_values as usize).as_str());
                text.append(") more than max values (");
                text.append(decimal_text(*max_values as usize).as_str());
                text.append(")");
                text
            },
            ValidationError::EmptyRow => "Empty action row detected!".to_owned(),
        }
    }
}

} // verus!
