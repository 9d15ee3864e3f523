//! What holds of every validation pass.

use vstd::prelude::*;
use crate::compatibility::optional_text;
use crate::compatibility::outcome_of_all;
use crate::compatibility::required_text;
use crate::compatibility::DiscordApiCompatible;
use crate::context::ContextModel;
use crate::context::Outcome;
use crate::errors::Counted;
use crate::errors::RequiredField;
use crate::errors::TextField;
use crate::errors::Violation;
use crate::interval::Interval;
use crate::models::ActionRow;
use crate::models::Button;
use crate::models::ButtonStyles;
use crate::models::Embed;
use crate::models::EmbedField;
use crate::models::Message;
use crate::models::NonCompositeComponent;
use crate::models::SelectMenu;
use crate::models::SelectOption;

verus! {

/// The state of the pass just before the sibling at `index` is checked.
pub open spec fn context_before<T: DiscordApiCompatible>(
    items: Seq<T>,
    before: ContextModel,
    index: int,
) -> ContextModel {
    outcome_of_all(items.take(index), before).context
}

/// Each sibling starts from the state that its predecessor left.
pub proof fn lemma_context_handed_on<T: DiscordApiCompatible>(
    items: Seq<T>,
    before: ContextModel,
    index: int,
)
    requires
        0 <= index < items.len(),
    ensures
        context_before(items, before, 0) == before,
        context_before(items, before, index + 1) == items[index].outcome(
            context_before(items, before, index),
        ).context,
        outcome_of_all(items.take(index + 1), before).result is Ok <==> outcome_of_all(
            items.take(index),
            before,
        ).result is Ok && items[index].outcome(context_before(items, before, index)).result is Ok,
        context_before(items, before, items.len() as int) == outcome_of_all(items, before).context,
{
    assert(items.take(index + 1).drop_last() =~= items.take(index));
    assert(items.take(items.len() as int) =~= items);
}

/// Siblings pass together only if each of them passes in its turn.
pub proof fn lemma_all_pass_means_each_passes<T: DiscordApiCompatible>(
    items: Seq<T>,
    before: ContextModel,
    index: int,
)
    requires
        0 <= index < items.len(),
        outcome_of_all(items, before).result is Ok,
    ensures
        items[index].outcome(context_before(items, before, index)).result is Ok,
        outcome_of_all(items.take(index), before).result is Ok,
    decreases items.len(),
{
    if index == items.len() - 1 {
        assert(items.take(index) =~= items.drop_last());
    } else {
        lemma_all_pass_means_each_passes(items.drop_last(), before, index);
        assert(items.drop_last().take(index) =~= items.take(index));
    }
}

/// The report on siblings is the failure of the first of them that fails.
pub proof fn lemma_first_failure_is_reported<T: DiscordApiCompatible>(
    items: Seq<T>,
    before: ContextModel,
    index: int,
)
    requires
        0 <= index < items.len(),
        outcome_of_all(items.take(index), before).result is Ok,
        items[index].outcome(context_before(items, before, index)).result is Err,
    ensures
        outcome_of_all(items, before).result == items[index].outcome(
            context_before(items, before, index),
        ).result,
    decreases items.len(),
{
    if index == items.len() - 1 {
        assert(items.take(index) =~= items.drop_last());
    } else {
        assert(items.drop_last().take(index) =~= items.take(index));
        lemma_first_failure_is_reported(items.drop_last(), before, index);
    }
}

/// A message with more action rows than a message may hold is rejected for
/// their number, whatever the rows hold and whatever was registered before;
/// nothing is registered.
pub proof fn lemma_too_many_action_rows(message: Message, before: ContextModel)
    requires
        message.action_rows@.len() > Message::action_row_count_limit().max_allowed,
    ensures
        message.outcome(before) == (Outcome {
            result: Err(
                Violation::CountOutOfRange {
                    counted: Counted::ActionRows,
                    count: message.action_rows@.len(),
                    min: 0,
                    max: 5,
                },
            ),
            context: before,
        }),
{
}

/// An action row without components is rejected as empty.
pub proof fn lemma_empty_action_row(row: ActionRow, before: ContextModel)
    requires
        row.components@.len() == 0,
    ensures
        row.outcome(before).result == Err::<(), Violation>(Violation::EmptyRow),
{
}

/// A message that holds an action row without components does not pass.
pub proof fn lemma_message_with_empty_action_row(message: Message, before: ContextModel, row: int)
    requires
        0 <= row < message.action_rows@.len(),
        message.action_rows@[row].components@.len() == 0,
    ensures
        message.outcome(before).result is Err,
{
    if outcome_of_all(message.action_rows@, before).result is Ok {
        lemma_all_pass_means_each_passes(message.action_rows@, before, row);
    }
}

/// A button without a style is rejected for the missing style, whether or
/// not it has a custom id or a URL, provided that its label is not too long:
/// the label is the one thing that is tested before the style.
pub proof fn lemma_missing_style_comes_first(button: Button, before: ContextModel)
    requires
        button.style is None,
        button.label_verdict() is Ok,
    ensures
        button.outcome(before) == (Outcome {
            result: Err(Violation::MissingRequiredField(RequiredField::ButtonStyle)),
            context: before,
        }),
{
}

/// A select menu that asks for more picks at least than it allows at most is
/// rejected for that, even though each of the two numbers lies within its
/// own limit. This holds wherever the checks that come before pass: the menu
/// has a custom id, its registration succeeds, and the number of its options
/// is within the limit.
pub proof fn lemma_inverted_range(menu: SelectMenu, before: ContextModel)
    requires
        menu.custom_id matches Some(id) && before.register_select_menu(id@).result is Ok,
        SelectMenu::option_count_limit().admits(menu.options@.len() as int),
        menu.min_values matches Some(min_values) && SelectMenu::min_values_limit().admits(
            min_values as int,
        ),
        menu.max_values matches Some(max_values) && SelectMenu::max_values_limit().admits(
            max_values as int,
        ),
        menu.min_values->0 > menu.max_values->0,
    ensures
        menu.outcome(before).result == Err::<(), Violation>(
            Violation::InvertedRange {
                min_values: menu.min_values->0 as nat,
                max_values: menu.max_values->0 as nat,
            },
        ),
{
}

/// A limit on a length is inclusive at both bounds: a text passes exactly
/// when its number of characters lies between them. In particular a text of
/// exactly the greatest length passes, and one character more fails.
pub proof fn lemma_length_limit_is_inclusive(text: String, limit: Interval<usize>, field: TextField)
    ensures
        optional_text(Some(text), limit, field) is Ok <==> limit.min_allowed <= text@.len()
            <= limit.max_allowed,
        text@.len() == limit.max_allowed && limit.min_allowed <= limit.max_allowed
            ==> optional_text(Some(text), limit, field) is Ok,
        text@.len() == limit.max_allowed + 1 ==> optional_text(Some(text), limit, field) == Err::<
            (),
            Violation,
        >(
            Violation::LengthOutOfRange {
                field,
                length: text@.len(),
                min: limit.min_allowed as nat,
                max: limit.max_allowed as nat,
            },
        ),
        forall|required: RequiredField|
            required_text(Some(text), required, limit, field) == optional_text(
                Some(text),
                limit,
                field,
            ),
{
}

/// The counts of buttons and select menus are kept for each action row
/// alone: what the check of a row reports, and what it leaves, depends on
/// the state before it only through the custom ids, never through what
/// earlier rows counted.
pub proof fn lemma_counts_start_anew_in_each_row(row: ActionRow, a: ContextModel, b: ContextModel)
    requires
        a.custom_ids == b.custom_ids,
    ensures
        row.outcome(a) == row.outcome(b),
{
}

/// The custom id under which the check registers a component, once the
/// component has passed what is tested before: every select menu that has
/// one, and every button that has one and a style other than `Link`.
pub open spec fn registered_custom_id(component: NonCompositeComponent) -> Option<Seq<char>> {
    match component {
        NonCompositeComponent::Button(button) => match (button.style, button.custom_id) {
            (Some(ButtonStyles::Link), _) => None,
            (Some(_), Some(id)) => Some(id@),
            _ => None,
        },
        NonCompositeComponent::SelectMenu(menu) => match menu.custom_id {
            Some(id) => Some(id@),
            None => None,
        },
    }
}

/// One component stands before another in the order of the check.
pub open spec fn stands_before(row: int, index: int, later_row: int, later_index: int) -> bool {
    row < later_row || (row == later_row && index < later_index)
}

/// A custom id that is already registered cannot be registered again, be it
/// alone, for a button or for a select menu: the attempt reports the
/// duplicate and changes nothing. (An id of a length that is not allowed is
/// never registered, and is reported for its length.)
pub proof fn lemma_registered_custom_id_is_refused(before: ContextModel, id: Seq<char>)
    requires
        before.custom_ids.contains(id),
        Message::custom_id_len_limit().admits(id.len() as int),
    ensures
        before.register_custom_id(id) == (Outcome {
            result: Err(Violation::DuplicateCustomId(id)),
            context: before,
        }),
        before.register_button(id) == before.register_custom_id(id),
        before.register_select_menu(id) == before.register_custom_id(id),
{
}

/// Where a new custom id meets a row that is full, the count is what is
/// reported, also where the row holds the other kind of component as well:
/// the count is tested before the conflict. The id and the count stay
/// registered.
pub proof fn lemma_count_comes_before_conflict(before: ContextModel, id: Seq<char>)
    requires
        !before.custom_ids.contains(id),
        Message::custom_id_len_limit().admits(id.len() as int),
    ensures
        before.button_count >= ActionRow::button_count_limit().max_allowed
            ==> before.register_button(id) == (Outcome {
            result: Err(
                Violation::CountOutOfRange {
                    counted: Counted::Buttons,
                    count: before.button_count + 1,
                    min: 0,
                    max: 5,
                },
            ),
            context: ContextModel {
                custom_ids: before.custom_ids.insert(id),
                button_count: before.button_count + 1,
                ..before
            },
        }),
        before.select_menu_count >= ActionRow::select_menu_count_limit().max_allowed
            ==> before.register_select_menu(id) == (Outcome {
            result: Err(
                Violation::CountOutOfRange {
                    counted: Counted::SelectMenus,
                    count: before.select_menu_count + 1,
                    min: 0,
                    max: 1,
                },
            ),
            context: ContextModel {
                custom_ids: before.custom_ids.insert(id),
                select_menu_count: before.select_menu_count + 1,
                ..before
            },
        }),
{
}

/// Options register nothing: after them the state of the pass is what it was.
pub proof fn lemma_options_register_nothing(options: Seq<SelectOption>, before: ContextModel)
    ensures
        outcome_of_all(options, before).context == before,
    decreases options.len(),
{
    if options.len() > 0 {
        lemma_options_register_nothing(options.drop_last(), before);
    }
}

/// Checking a component never removes a custom id from the pass. If the
/// component passes, the custom id that it registers is known afterwards.
pub proof fn lemma_component_keeps_custom_ids(
    component: NonCompositeComponent,
    before: ContextModel,
)
    ensures
        before.custom_ids.subset_of(component.outcome(before).context.custom_ids),
        component.outcome(before).result is Ok ==> (registered_custom_id(component) matches Some(
            id,
        ) ==> component.outcome(before).context.custom_ids.contains(id)
            && Message::custom_id_len_limit().admits(id.len() as int)),
{
    match component {
        NonCompositeComponent::Button(button) => {},
        NonCompositeComponent::SelectMenu(menu) => {
            if let Some(id) = menu.custom_id {
                lemma_options_register_nothing(
                    menu.options@,
                    before.register_select_menu(id@).context,
                );
            }
        },
    }
}

/// None of the siblings ever removes a custom id from the pass.
pub open spec fn keep_custom_ids<T: DiscordApiCompatible>(items: Seq<T>) -> bool {
    forall|k: int, context: ContextModel|
        0 <= k < items.len() ==> context.custom_ids.subset_of(
            #[trigger] items[k].outcome(context).context.custom_ids,
        )
}

/// Along a run of siblings none of which removes a custom id, the set of
/// registered custom ids only grows.
pub proof fn lemma_custom_ids_grow_along<T: DiscordApiCompatible>(
    items: Seq<T>,
    before: ContextModel,
    from: int,
    to: int,
)
    requires
        0 <= from <= to <= items.len(),
        keep_custom_ids(items),
    ensures
        context_before(items, before, from).custom_ids.subset_of(
            context_before(items, before, to).custom_ids,
        ),
    decreases to - from,
{
    if from < to {
        lemma_custom_ids_grow_along(items, before, from, to - 1);
        lemma_context_handed_on(items, before, to - 1);
    }
}

/// No component ever removes a custom id from the pass.
pub proof fn lemma_components_keep_custom_ids(components: Seq<NonCompositeComponent>)
    ensures
        keep_custom_ids(components),
{
    assert forall|k: int, context: ContextModel|
        0 <= k < components.len() implies context.custom_ids.subset_of(
        #[trigger] components[k].outcome(context).context.custom_ids,
    ) by {
        lemma_component_keeps_custom_ids(components[k], context);
    }
}

/// Checking an action row never removes a custom id from the pass.
pub proof fn lemma_row_keeps_custom_ids(row: ActionRow, before: ContextModel)
    ensures
        before.custom_ids.subset_of(row.outcome(before).context.custom_ids),
{
    let entered = before.register_action_row();
    let components = row.components@;
    if components.len() > 0 {
        lemma_components_keep_custom_ids(components);
        lemma_custom_ids_grow_along(components, entered, 0, components.len() as int);
        lemma_context_handed_on(components, entered, 0);
    }
}

/// No action row ever removes a custom id from the pass.
pub proof fn lemma_rows_keep_custom_ids(rows: Seq<ActionRow>)
    ensures
        keep_custom_ids(rows),
{
    assert forall|k: int, context: ContextModel|
        0 <= k < rows.len() implies context.custom_ids.subset_of(
        #[trigger] rows[k].outcome(context).context.custom_ids,
    ) by {
        lemma_row_keeps_custom_ids(rows[k], context);
    }
}

/// Embeds and their fields register nothing: after them the state of the
/// pass is what it was.
pub proof fn lemma_embeds_register_nothing(embeds: Seq<Embed>, before: ContextModel)
    ensures
        outcome_of_all(embeds, before).context == before,
    decreases embeds.len(),
{
    if embeds.len() > 0 {
        lemma_embeds_register_nothing(embeds.drop_last(), before);
        lemma_fields_register_nothing(embeds.last().fields@, before);
    }
}

/// The fields of an embed register nothing.
pub proof fn lemma_fields_register_nothing(fields: Seq<EmbedField>, before: ContextModel)
    ensures
        outcome_of_all(fields, before).context == before,
    decreases fields.len(),
{
    if fields.len() > 0 {
        lemma_fields_register_nothing(fields.drop_last(), before);
    }
}

/// Checking a message never removes a custom id from the pass: the set of
/// registered custom ids only grows, and nothing clears it on the way.
pub proof fn lemma_message_keeps_custom_ids(message: Message, before: ContextModel)
    ensures
        before.custom_ids.subset_of(message.outcome(before).context.custom_ids),
{
    let rows = message.action_rows@;
    if message.row_count_verdict() is Ok {
        lemma_rows_keep_custom_ids(rows);
        lemma_custom_ids_grow_along(rows, before, 0, rows.len() as int);
        if rows.len() > 0 {
            lemma_context_handed_on(rows, before, 0);
        }
        lemma_embeds_register_nothing(message.embeds@, outcome_of_all(rows, before).context);
    }
}

/// A component whose custom id is already registered does not pass.
pub proof fn lemma_known_custom_id_fails_component(
    component: NonCompositeComponent,
    before: ContextModel,
)
    requires
        registered_custom_id(component) matches Some(id) && before.custom_ids.contains(id),
    ensures
        component.outcome(before).result is Err,
{
}

/// The state of the pass just before the component at `index` of the action
/// row at `row` is checked.
pub open spec fn context_before_component(
    message: Message,
    before: ContextModel,
    row: int,
    index: int,
) -> ContextModel {
    context_before(
        message.action_rows@[row].components@,
        context_before(message.action_rows@, before, row).register_action_row(),
        index,
    )
}

/// When the component at (`row`, `index`) passes in its turn, and everything
/// between it and a later component leaves the custom ids in place, the
/// later component meets the custom id that the earlier one registered.
proof fn lemma_custom_id_reaches_later_component(
    message: Message,
    before: ContextModel,
    row: int,
    index: int,
    later_row: int,
    later_index: int,
)
    requires
        0 <= row < message.action_rows@.len(),
        0 <= index < message.action_rows@[row].components@.len(),
        0 <= later_row < message.action_rows@.len(),
        0 <= later_index < message.action_rows@[later_row].components@.len(),
        stands_before(row, index, later_row, later_index),
        registered_custom_id(message.action_rows@[row].components@[index]) is Some,
        message.action_rows@[row].components@[index].outcome(
            context_before_component(message, before, row, index),
        ).result is Ok,
    ensures
        context_before_component(message, before, later_row, later_index).custom_ids.contains(
            registered_custom_id(message.action_rows@[row].components@[index])->0,
        ),
        Message::custom_id_len_limit().admits(
            registered_custom_id(message.action_rows@[row].components@[index])->0.len() as int,
        ),
{
    let rows = message.action_rows@;
    let components = rows[row].components@;
    let entered = context_before(rows, before, row).register_action_row();
    let id = registered_custom_id(components[index])->0;
    let later_components = rows[later_row].components@;
    let later_entered = context_before(rows, before, later_row).register_action_row();

    lemma_component_keeps_custom_ids(components[index], context_before(components, entered, index));
    lemma_context_handed_on(components, entered, index);
    assert(context_before(components, entered, index + 1).custom_ids.contains(id));

    lemma_components_keep_custom_ids(components);
    lemma_components_keep_custom_ids(later_components);
    lemma_rows_keep_custom_ids(rows);

    if row == later_row {
        lemma_custom_ids_grow_along(components, entered, index + 1, later_index);
    } else {
        lemma_custom_ids_grow_along(components, entered, index + 1, components.len() as int);
        lemma_context_handed_on(components, entered, index);
        lemma_context_handed_on(rows, before, row);
        assert(context_before(rows, before, row + 1).custom_ids.contains(id));
        lemma_custom_ids_grow_along(rows, before, row + 1, later_row);
        assert(later_entered.custom_ids.contains(id));
        lemma_context_handed_on(later_components, later_entered, 0);
        lemma_custom_ids_grow_along(later_components, later_entered, 0, later_index);
    }
}

/// Two components of one message that are registered under the same custom
/// id, in one action row or in two: the message does not pass, whatever was
/// registered before.
pub proof fn lemma_shared_custom_id_is_rejected(
    message: Message,
    before: ContextModel,
    row: int,
    index: int,
    later_row: int,
    later_index: int,
)
    requires
        0 <= row < message.action_rows@.len(),
        0 <= index < message.action_rows@[row].components@.len(),
        0 <= later_row < message.action_rows@.len(),
        0 <= later_index < message.action_rows@[later_row].components@.len(),
        stands_before(row, index, later_row, later_index),
        registered_custom_id(message.action_rows@[row].components@[index]) is Some,
        registered_custom_id(message.action_rows@[row].components@[index]) == registered_custom_id(
            message.action_rows@[later_row].components@[later_index],
        ),
    ensures
        message.outcome(before).result is Err,
{
    let rows = message.action_rows@;
    if message.outcome(before).result is Ok {
        let entered = context_before(rows, before, row).register_action_row();
        let later_entered = context_before(rows, before, later_row).register_action_row();
        lemma_all_pass_means_each_passes(rows, before, row);
        lemma_all_pass_means_each_passes(rows, before, later_row);
        lemma_all_pass_means_each_passes(rows[row].components@, entered, index);
        lemma_all_pass_means_each_passes(rows[later_row].components@, later_entered, later_index);
        lemma_custom_id_reaches_later_component(
            message,
            before,
            row,
            index,
            later_row,
            later_index,
        );
        lemma_known_custom_id_fails_component(
            rows[later_row].components@[later_index],
            context_before_component(message, before, later_row, later_index),
        );
    }
}

/// Two components of one message that are registered under the same custom
/// id: the message is rejected for the duplicate, wherever nothing fails
/// before the second of them is registered. That is: the number of action
/// rows is within the limit, the action rows before the second component's
/// own and the components before it in its row pass, and, if it is a button,
/// its label is not too long.
pub proof fn lemma_shared_custom_id_is_reported(
    message: Message,
    before: ContextModel,
    row: int,
    index: int,
    later_row: int,
    later_index: int,
)
    requires
        0 <= row < message.action_rows@.len(),
        0 <= index < message.action_rows@[row].components@.len(),
        0 <= later_row < message.action_rows@.len(),
        0 <= later_index < message.action_rows@[later_row].components@.len(),
        stands_before(row, index, later_row, later_index),
        registered_custom_id(message.action_rows@[row].components@[index]) is Some,
        registered_custom_id(message.action_rows@[row].components@[index]) == registered_custom_id(
            message.action_rows@[later_row].components@[later_index],
        ),
        message.row_count_verdict() is Ok,
        outcome_of_all(message.action_rows@.take(later_row), before).result is Ok,
        outcome_of_all(
            message.action_rows@[later_row].components@.take(later_index),
            context_before(message.action_rows@, before, later_row).register_action_row(),
        ).result is Ok,
        message.action_rows@[later_row].components@[later_index] matches NonCompositeComponent::Button(
            button,
        ) ==> button.label_verdict() is Ok,
    ensures
        message.outcome(before).result == Err::<(), Violation>(
            Violation::DuplicateCustomId(
                registered_custom_id(message.action_rows@[row].components@[index])->0,
            ),
        ),
{
    let rows = message.action_rows@;
    let components = rows[row].components@;
    let later_components = rows[later_row].components@;
    let entered = context_before(rows, before, row).register_action_row();
    let later_entered = context_before(rows, before, later_row).register_action_row();
    let id = registered_custom_id(components[index])->0;
    let meets = context_before_component(message, before, later_row, later_index);

    // the earlier component passes, as everything before the later one does
    if row == later_row {
        lemma_all_pass_means_each_passes(later_components.take(later_index), later_entered, index);
        assert(later_components.take(later_index).take(index) =~= components.take(index));
    } else {
        lemma_all_pass_means_each_passes(rows.take(later_row), before, row);
        assert(rows.take(later_row).take(row) =~= rows.take(row));
        lemma_all_pass_means_each_passes(components, entered, index);
    }
    lemma_custom_id_reaches_later_component(message, before, row, index, later_row, later_index);
    lemma_registered_custom_id_is_refused(meets, id);

    // so the later component is the first to fail, in its row and in the message
    lemma_first_failure_is_reported(later_components, later_entered, later_index);
    lemma_first_failure_is_reported(rows, before, later_row);
}

} // verus!
