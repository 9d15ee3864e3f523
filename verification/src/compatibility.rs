//! The check of a message tree against the platform's limits.
//!
//! Every kind of entity is checked in the same way: its own rules in a fixed
//! order, then its children from first to last, all against one
//! [`MessageContext`] that is handed on from entity to entity. The first
//! broken rule of an entity ends the check of that entity. Its later siblings
//! are still visited, so that what they register is registered; what the
//! check reports is the first failure in the order of the visit.

use vstd::prelude::*;
use crate::context::ContextModel;
use crate::context::MessageContext;
use crate::context::Outcome;
use crate::errors::first_failure;
use crate::errors::verdict;
use crate::errors::Counted;
use crate::errors::Measure;
use crate::errors::RequiredField;
use crate::errors::TextField;
use crate::errors::ValidationError;
use crate::errors::Violation;
use crate::interval::checked_against;
use crate::interval::interval_check;
use crate::interval::Interval;
use crate::models::ActionRow;
use crate::models::Button;
use crate::models::ButtonStyles;
use crate::models::Embed;
use crate::models::EmbedField;
use crate::models::Message;
use crate::models::NonCompositeComponent;
use crate::models::SelectMenu;
use crate::models::SelectOption;

verus! {

/// An entity of the message tree for which the platform states limits:
/// counts, lengths, uniqueness among other components, restrictions on
/// children.
pub trait DiscordApiCompatible {
    /// What the check of this entity reports when the pass is in state
    /// `before`, and the state in which it leaves the pass.
    spec fn outcome(&self, before: ContextModel) -> Outcome;

    /// Checks this entity and everything below it.
    fn check_compatibility(&self, context: &mut MessageContext) -> (result: Result<
        (),
        ValidationError,
    >)
        requires
            old(context).well_formed(),
        ensures
            final(context).well_formed(),
            verdict(result) == self.outcome(old(context)@).result,
            final(context)@ == self.outcome(old(context)@).context,
    ;
}

/// The check of siblings from first to last: each one starts from the state
/// that its predecessor left, and the report is the first failure among them.
pub open spec fn outcome_of_all<T: DiscordApiCompatible>(
    items: Seq<T>,
    before: ContextModel,
) -> Outcome
    decreases items.len(),
{
    if items.len() == 0 {
        Outcome { result: Ok(()), context: before }
    } else {
        let earlier = outcome_of_all(items.drop_last(), before);
        let last = items.last().outcome(earlier.context);
        Outcome { result: first_failure(earlier.result, last.result), context: last.context }
    }
}

/// Checks siblings from first to last.
pub fn check_all<T: DiscordApiCompatible>(items: &Vec<T>, context: &mut MessageContext) -> (result:
    Result<(), ValidationError>)
    requires
        old(context).well_formed(),
    ensures
        final(context).well_formed(),
        verdict(result) == outcome_of_all(items@, old(context)@).result,
        final(context)@ == outcome_of_all(items@, old(context)@).context,
{
    let mut first: Result<(), ValidationError> = Ok(());
    let mut i: usize = 0;
    while i < items.len()
        invariant
            i <= items@.len(),
            context.well_formed(),
            verdict(first) == outcome_of_all(items@.take(i as int), old(context)@).result,
            context@ == outcome_of_all(items@.take(i as int), old(context)@).context,
        decreases items@.len() - i,
    {
        let checked = items[i].check_compatibility(context);
        if first.is_ok() {
            first = checked;
        }
        proof {
            assert(items@.take(i + 1).drop_last() =~= items@.take(i as int));
        }
        i += 1;
    }
    proof {
        assert(items@.take(i as int) =~= items@);
    }
    first
}

/// The rule for a text that may be absent: if present, its length in
/// characters lies within `limit`.
pub open spec fn optional_text(
    text: Option<String>,
    limit: Interval<usize>,
    field: TextField,
) -> Result<(), Violation> {
    match text {
        None => Ok(()),
        Some(text) => checked_against(limit, text@.len(), Measure::Length(field)),
    }
}

/// The rule for a text that must be present, with its length in characters
/// within `limit`.
pub open spec fn required_text(
    text: Option<String>,
    required: RequiredField,
    limit: Interval<usize>,
    field: TextField,
) -> Result<(), Violation> {
    match text {
        None => Err(Violation::MissingRequiredField(required)),
        Some(text) => checked_against(limit, text@.len(), Measure::Length(field)),
    }
}

/// The rule for a number of picks that may be absent: if present, it lies
/// within `limit`.
pub open spec fn optional_count(value: Option<u8>, limit: Interval<u8>, counted: Counted) -> Result<
    (),
    Violation,
> {
    match value {
        None => Ok(()),
        Some(value) => checked_against(limit.widened(), value as nat, Measure::Count(counted)),
    }
}

fn check_text(text: &String, limit: &Interval<usize>, field: TextField) -> (result: Result<
    (),
    ValidationError,
>)
    ensures
        verdict(result) == checked_against(*limit, text@.len(), Measure::Length(field)),
{
    interval_check(limit, &text.as_str().unicode_len(), Measure::Length(field))
}

fn check_optional_text(text: &Option<String>, limit: &Interval<usize>, field: TextField) -> (result:
    Result<(), ValidationError>)
    ensures
        verdict(result) == optional_text(*text, *limit, field),
{
    match text {
        None => Ok(()),
        Some(text) => check_text(text, limit, field),
    }
}

fn check_required_text(
    text: &Option<String>,
    required: RequiredField,
    limit: &Interval<usize>,
    field: TextField,
) -> (result: Result<(), ValidationError>)
    ensures
        verdict(result) == required_text(*text, required, *limit, field),
{
    match text {
        None => Err(ValidationError::MissingRequiredField(required)),
        Some(text) => check_text(text, limit, field),
    }
}

fn check_optional_count(value: Option<u8>, limit: &Interval<u8>, counted: Counted) -> (result:
    Result<(), ValidationError>)
    ensures
        verdict(result) == optional_count(value, *limit, counted),
{
    match value {
        None => Ok(()),
        Some(value) => interval_check(&limit.widen(), &(value as usize), Measure::Count(counted)),
    }
}

impl SelectOption {
    /// The rules of an option, in the order in which they are tested: the
    /// label, the value, the description.
    pub open spec fn verdict(&self) -> Result<(), Violation> {
        first_failure(
            required_text(
                self.label,
                RequiredField::OptionLabel,
                SelectOption::label_len_limit(),
                TextField::OptionLabel,
            ),
            first_failure(
                required_text(
                    self.value,
                    RequiredField::OptionValue,
                    SelectOption::value_len_limit(),
                    TextField::OptionValue,
                ),
                optional_text(
                    self.description,
                    SelectOption::description_len_limit(),
                    TextField::OptionDescription,
                ),
            ),
        )
    }
}

impl DiscordApiCompatible for SelectOption {
    /// An option registers nothing: the state of the pass stays as it is.
    open spec fn outcome(&self, before: ContextModel) -> Outcome {
        Outcome { result: self.verdict(), context: before }
    }

    fn check_compatibility(&self, _context: &mut MessageContext) -> (result: Result<
        (),
        ValidationError,
    >) {
        check_required_text(
            &self.label,
            RequiredField::OptionLabel,
            &SelectOption::label_len_interval(),
            TextField::OptionLabel,
        )?;
        check_required_text(
            &self.value,
            RequiredField::OptionValue,
            &SelectOption::value_len_interval(),
            TextField::OptionValue,
        )?;
        check_optional_text(
            &self.description,
            &SelectOption::description_len_interval(),
            TextField::OptionDescription,
        )
    }
}

impl SelectMenu {
    /// The rule that ties the two numbers of picks together.
    pub open spec fn picks_in_order(&self) -> Result<(), Violation> {
        match (self.min_values, self.max_values) {
            (Some(min_values), Some(max_values)) if min_values > max_values => Err(
                Violation::InvertedRange {
                    min_values: min_values as nat,
                    max_values: max_values as nat,
                },
            ),
            _ => Ok(()),
        }
    }

    /// The rules of a select menu about its own fields, in the order in
    /// which they are tested: the number of options, each number of picks
    /// alone, the two together, the placeholder.
    pub open spec fn verdict(&self) -> Result<(), Violation> {
        first_failure(
            checked_against(
                SelectMenu::option_count_limit(),
                self.options@.len(),
                Measure::Count(Counted::Options),
            ),
            first_failure(
                optional_count(self.min_values, SelectMenu::min_values_limit(), Counted::MinValues),
                first_failure(
                    optional_count(
                        self.max_values,
                        SelectMenu::max_values_limit(),
                        Counted::MaxValues,
                    ),
                    first_failure(
                        self.picks_in_order(),
                        optional_text(
                            self.placeholder,
                            SelectMenu::placeholder_len_limit(),
                            TextField::Placeholder,
                        ),
                    ),
                ),
            ),
        )
    }

    fn check_picks_in_order(&self) -> (result: Result<(), ValidationError>)
        ensures
            verdict(result) == self.picks_in_order(),
    {
        match (self.min_values, self.max_values) {
            (Some(min_values), Some(max_values)) => {
                if min_values > max_values {
                    Err(ValidationError::InvertedRange { min_values, max_values })
                } else {
                    Ok(())
                }
            },
            _ => Ok(()),
        }
    }
}

impl DiscordApiCompatible for SelectMenu {
    /// A select menu is registered before any of its own fields is looked
    /// at; its options come last.
    open spec fn outcome(&self, before: ContextModel) -> Outcome {
        match self.custom_id {
            None => Outcome {
                result: Err(Violation::MissingRequiredField(RequiredField::SelectMenuCustomId)),
                context: before,
            },
            Some(id) => {
                let registered = before.register_select_menu(id@);
                if registered.result is Err {
                    registered
                } else if self.verdict() is Err {
                    Outcome { result: self.verdict(), context: registered.context }
                } else {
                    outcome_of_all(self.options@, registered.context)
                }
            },
        }
    }

    fn check_compatibility(&self, context: &mut MessageContext) -> (result: Result<
        (),
        ValidationError,
    >) {
        match &self.custom_id {
            Some(id) => context.register_select_menu(id.as_str())?,
            None => {
                return Err(
                    ValidationError::MissingRequiredField(RequiredField::SelectMenuCustomId),
                );
            },
        }

        interval_check(
            &SelectMenu::option_count_interval(),
            &self.options.len(),
            Measure::Count(Counted::Options),
        )?;
        check_optional_count(
            self.min_values,
            &SelectMenu::min_values_interval(),
            Counted::MinValues,
        )?;
        check_optional_count(
            self.max_values,
            &SelectMenu::max_values_interval(),
            Counted::MaxValues,
        )?;
        self.check_picks_in_order()?;
        check_optional_text(
            &self.placeholder,
            &SelectMenu::placeholder_len_interval(),
            TextField::Placeholder,
        )?;

        check_all(&self.options, context)
    }
}

impl Button {
    /// The rule about the label of a button.
    pub open spec fn label_verdict(&self) -> Result<(), Violation> {
        optional_text(self.label, Message::label_len_limit(), TextField::ButtonLabel)
    }
}

impl DiscordApiCompatible for Button {
    /// The label comes first and the style second. A link button then needs
    /// its URL and registers nothing. Any other button needs its custom id
    /// and is registered under it.
    open spec fn outcome(&self, before: ContextModel) -> Outcome {
        if self.label_verdict() is Err {
            Outcome { result: self.label_verdict(), context: before }
        } else {
            match self.style {
                None => Outcome {
                    result: Err(Violation::MissingRequiredField(RequiredField::ButtonStyle)),
                    context: before,
                },
                Some(ButtonStyles::Link) => Outcome {
                    result: if self.url is None {
                        Err(Violation::MissingRequiredField(RequiredField::LinkButtonUrl))
                    } else {
                        Ok(())
                    },
                    context: before,
                },
                Some(_) => match self.custom_id {
                    None => Outcome {
                        result: Err(
                            Violation::MissingRequiredField(RequiredField::ButtonCustomId),
                        ),
                        context: before,
                    },
                    Some(id) => before.register_button(id@),
                },
            }
        }
    }

    fn check_compatibility(&self, context: &mut MessageContext) -> (result: Result<
        (),
        ValidationError,
    >) {
        check_optional_text(&self.label, &Message::label_len_interval(), TextField::ButtonLabel)?;

        match self.style {
            None => Err(ValidationError::MissingRequiredField(RequiredField::ButtonStyle)),
            Some(ButtonStyles::Link) => {
                if self.url.is_none() {
                    Err(ValidationError::MissingRequiredField(RequiredField::LinkButtonUrl))
                } else {
                    Ok(())
                }
            },
            // every other style is listed, so that a new style with other
            // requirements cannot slip through
            Some(ButtonStyles::Danger)
            | Some(ButtonStyles::Primary)
            | Some(ButtonStyles::Success)
            | Some(ButtonStyles::Secondary) => {
                match &self.custom_id {
                    Some(id) => context.register_button(id.as_str()),
                    None => Err(
                        ValidationError::MissingRequiredField(RequiredField::ButtonCustomId),
                    ),
                }
            },
        }
    }
}

impl DiscordApiCompatible for NonCompositeComponent {
    open spec fn outcome(&self, before: ContextModel) -> Outcome {
        match self {
            NonCompositeComponent::Button(button) => button.outcome(before),
            NonCompositeComponent::SelectMenu(menu) => menu.outcome(before),
        }
    }

    fn check_compatibility(&self, context: &mut MessageContext) -> (result: Result<
        (),
        ValidationError,
    >) {
        match self {
            NonCompositeComponent::Button(button) => button.check_compatibility(context),
            NonCompositeComponent::SelectMenu(menu) => menu.check_compatibility(context),
        }
    }
}

impl DiscordApiCompatible for ActionRow {
    /// Entering the row resets the counters, whatever follows. A row without
    /// components is rejected; otherwise its components are checked.
    open spec fn outcome(&self, before: ContextModel) -> Outcome {
        let entered = before.register_action_row();
        if self.components@.len() == 0 {
            Outcome { result: Err(Violation::EmptyRow), context: entered }
        } else {
            outcome_of_all(self.components@, entered)
        }
    }

    fn check_compatibility(&self, context: &mut MessageContext) -> (result: Result<
        (),
        ValidationError,
    >) {
        context.register_action_row();
        if self.components.len() == 0 {
            return Err(ValidationError::EmptyRow);
        }
        check_all(&self.components, context)
    }
}

impl EmbedField {
    /// The rules of a field: a name and a value, neither empty nor too long.
    pub open spec fn verdict(&self) -> Result<(), Violation> {
        first_failure(
            checked_against(
                EmbedField::name_len_limit(),
                self.name@.len(),
                Measure::Length(TextField::EmbedFieldName),
            ),
            checked_against(
                EmbedField::value_len_limit(),
                self.value@.len(),
                Measure::Length(TextField::EmbedFieldValue),
            ),
        )
    }
}

impl DiscordApiCompatible for EmbedField {
    /// A field registers nothing: the state of the pass stays as it is.
    open spec fn outcome(&self, before: ContextModel) -> Outcome {
        Outcome { result: self.verdict(), context: before }
    }

    fn check_compatibility(&self, _context: &mut MessageContext) -> (result: Result<
        (),
        ValidationError,
    >) {
        check_text(&self.name, &EmbedField::name_len_interval(), TextField::EmbedFieldName)?;
        check_text(&self.value, &EmbedField::value_len_interval(), TextField::EmbedFieldValue)
    }
}

impl Embed {
    /// The rules of an embed about its own fields, in the order in which
    /// they are tested: the title, the description, the number of fields.
    pub open spec fn verdict(&self) -> Result<(), Violation> {
        first_failure(
            optional_text(self.title, Embed::title_len_limit(), TextField::EmbedTitle),
            first_failure(
                optional_text(
                    self.description,
                    Embed::description_len_limit(),
                    TextField::EmbedDescription,
                ),
                checked_against(
                    Embed::field_count_limit(),
                    self.fields@.len(),
                    Measure::Count(Counted::EmbedFields),
                ),
            ),
        )
    }
}

impl DiscordApiCompatible for Embed {
    /// The embed's own rules first, then its fields.
    open spec fn outcome(&self, before: ContextModel) -> Outcome {
        if self.verdict() is Err {
            Outcome { result: self.verdict(), context: before }
        } else {
            outcome_of_all(self.fields@, before)
        }
    }

    fn check_compatibility(&self, context: &mut MessageContext) -> (result: Result<
        (),
        ValidationError,
    >) {
        check_optional_text(&self.title, &Embed::title_len_interval(), TextField::EmbedTitle)?;
        check_optional_text(
            &self.description,
            &Embed::description_len_interval(),
            TextField::EmbedDescription,
        )?;
        interval_check(
            &Embed::field_count_interval(),
            &self.fields.len(),
            Measure::Count(Counted::EmbedFields),
        )?;
        check_all(&self.fields, context)
    }
}

impl Message {
    /// The rule about the number of action rows.
    pub open spec fn row_count_verdict(&self) -> Result<(), Violation> {
        checked_against(
            Message::action_row_count_limit(),
            self.action_rows@.len(),
            Measure::Count(Counted::ActionRows),
        )
    }
}

impl DiscordApiCompatible for Message {
    /// With too many action rows nothing else is looked at. Otherwise every
    /// action row is checked, then every embed; a failure among the rows
    /// comes before one among the embeds.
    open spec fn outcome(&self, before: ContextModel) -> Outcome {
        if self.row_count_verdict() is Err {
            Outcome { result: self.row_count_verdict(), context: before }
        } else {
            let rows = outcome_of_all(self.action_rows@, before);
            let embeds = outcome_of_all(self.embeds@, rows.context);
            Outcome {
                result: first_failure(rows.result, embeds.result),
                context: embeds.context,
            }
        }
    }

    fn check_compatibility(&self, context: &mut MessageContext) -> (result: Result<
        (),
        ValidationError,
    >) {
        interval_check(
            &Message::action_row_count_interval(),
            &self.action_rows.len(),
            Measure::Count(Counted::ActionRows),
        )?;

        let rows = check_all(&self.action_rows, context);
        let embeds = check_all(&self.embeds, context);
        if rows.is_ok() {
            embeds
        } else {
            rows
        }
    }
}

} // verus!
