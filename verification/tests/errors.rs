//! How each violation reads, and how numbers are written.

use webhook::decimal::decimal_text;
use webhook::errors::{
    ComponentKind, Counted, Measure, RequiredField, TextField, ValidationError,
};
use webhook::interval::{interval_check, Interval};
use webhook::models::{ActionRow, Embed, EmbedField, Message, SelectMenu, SelectOption};

#[test]
fn numbers_are_written_in_decimal() {
    assert_eq!(decimal_text(0), "0");
    assert_eq!(decimal_text(7), "7");
    assert_eq!(decimal_text(9), "9");
    assert_eq!(decimal_text(10), "10");
    assert_eq!(decimal_text(101), "101");
    assert_eq!(decimal_text(4096), "4096");
    assert_eq!(decimal_text(1234567890), "1234567890");
    assert_eq!(decimal_text(usize::MAX), usize::MAX.to_string());
}

#[test]
fn missing_fields_are_asked_for() {
    let text = |field: RequiredField| ValidationError::MissingRequiredField(field).message();
    assert_eq!(text(RequiredField::ButtonStyle), "Button style must be set!");
    assert_eq!(text(RequiredField::LinkButtonUrl), "Url of a Link button must be set!");
    assert_eq!(
        text(RequiredField::ButtonCustomId),
        "Custom ID of a NonLink button must be set!"
    );
    assert_eq!(
        text(RequiredField::SelectMenuCustomId),
        "Custom ID of a Select menu must be set!"
    );
    assert_eq!(text(RequiredField::OptionLabel), "Label of a menu option must be set!");
    assert_eq!(text(RequiredField::OptionValue), "Value of a menu option must be set!");
}

#[test]
fn lengths_out_of_range_name_the_text_the_length_and_the_interval() {
    let text = |field: TextField, length: usize, min: usize, max: usize| {
        ValidationError::LengthOutOfRange { field, length, min, max }.message()
    };
    assert_eq!(
        text(TextField::CustomId, 101, 1, 100),
        "Custom ID length (101) not in the [1, 100] interval"
    );
    assert_eq!(
        text(TextField::ButtonLabel, 81, 0, 80),
        "Label length (81) not in the [0, 80] interval"
    );
    assert_eq!(
        text(TextField::Placeholder, 151, 0, 150),
        "Placeholder length (151) not in the [0, 150] interval"
    );
    assert_eq!(
        text(TextField::OptionLabel, 0, 1, 100),
        "Label length (0) not in the [1, 100] interval"
    );
    assert_eq!(
        text(TextField::OptionValue, 0, 1, 100),
        "Value length (0) not in the [1, 100] interval"
    );
    assert_eq!(
        text(TextField::OptionDescription, 200, 0, 100),
        "Description length (200) not in the [0, 100] interval"
    );
    assert_eq!(
        text(TextField::EmbedTitle, 257, 0, 256),
        "Embed title length (257) not in the [0, 256] interval"
    );
    assert_eq!(
        text(TextField::EmbedDescription, 4097, 0, 4096),
        "Embed description length (4097) not in the [0, 4096] interval"
    );
    assert_eq!(
        text(TextField::EmbedFieldName, 0, 1, 256),
        "Embed field name length (0) not in the [1, 256] interval"
    );
    assert_eq!(
        text(TextField::EmbedFieldValue, 1025, 1, 1024),
        "Embed field value length (1025) not in the [1, 1024] interval"
    );
}

#[test]
fn counts_out_of_range_name_the_quantity_the_count_and_the_interval() {
    let text = |counted: Counted, count: usize, min: usize, max: usize| {
        ValidationError::CountOutOfRange { counted, count, min, max }.message()
    };
    assert_eq!(
        text(Counted::ActionRows, 6, 0, 5),
        "Action row count (6) not in the [0, 5] interval"
    );
    assert_eq!(text(Counted::Buttons, 6, 0, 5), "Button count (6) not in the [0, 5] interval");
    assert_eq!(
        text(Counted::SelectMenus, 2, 0, 1),
        "Select menu count (2) not in the [0, 1] interval"
    );
    assert_eq!(text(Counted::Options, 26, 1, 25), "Option count (26) not in the [1, 25] interval");
    assert_eq!(text(Counted::MinValues, 26, 0, 25), "Min values (26) not in the [0, 25] interval");
    assert_eq!(text(Counted::MaxValues, 0, 1, 25), "Max values (0) not in the [1, 25] interval");
    assert_eq!(
        text(Counted::EmbedFields, 26, 0, 25),
        "Embed field count (26) not in the [0, 25] interval"
    );
}

#[test]
fn the_other_violations_read_as_sentences() {
    assert_eq!(
        ValidationError::DuplicateCustomId("sadas".to_string()).message(),
        "Attempt to use the same custom ID (sadas) twice!"
    );
    assert_eq!(
        ValidationError::ConflictingComponentKinds(ComponentKind::Button).message(),
        "An Action Row containing buttons cannot also contain a select menu"
    );
    assert_eq!(
        ValidationError::ConflictingComponentKinds(ComponentKind::SelectMenu).message(),
        "An Action Row containing a select menu cannot also contain buttons"
    );
    assert_eq!(
        ValidationError::InvertedRange { min_values: 25, max_values: 1 }.message(),
        "Min values (25) more than max values (1)"
    );
    assert_eq!(ValidationError::EmptyRow.message(), "Empty action row detected!");
}

#[test]
fn an_interval_contains_its_bounds_and_what_lies_between() {
    let interval = Interval::from_min_max(1usize, 100usize);
    assert_eq!(interval.min_allowed, 1);
    assert_eq!(interval.max_allowed, 100);
    assert!(!interval.contains(&0));
    assert!(interval.contains(&1));
    assert!(interval.contains(&50));
    assert!(interval.contains(&100));
    assert!(!interval.contains(&101));

    let picks = Interval::from_min_max(0u8, 25u8);
    assert!(picks.contains(&0));
    assert!(picks.contains(&25));
    assert!(!picks.contains(&26));
    assert_eq!(picks.widen().min_allowed, 0usize);
    assert_eq!(picks.widen().max_allowed, 25usize);

    // nothing forces the bounds to be in order: such an interval is empty
    let inverted = Interval::from_min_max(5usize, 2usize);
    assert!(!inverted.contains(&2));
    assert!(!inverted.contains(&3));
    assert!(!inverted.contains(&5));
}

#[test]
fn an_interval_check_reports_the_value_and_both_bounds() {
    let interval = Interval::from_min_max(1usize, 25usize);
    assert_eq!(interval_check(&interval, &1, Measure::Count(Counted::Options)), Ok(()));
    assert_eq!(interval_check(&interval, &25, Measure::Count(Counted::Options)), Ok(()));
    assert_eq!(
        interval_check(&interval, &26, Measure::Count(Counted::Options)),
        Err(ValidationError::CountOutOfRange {
            counted: Counted::Options,
            count: 26,
            min: 1,
            max: 25
        })
    );
    assert_eq!(
        interval_check(&interval, &0, Measure::Length(TextField::OptionLabel)),
        Err(ValidationError::LengthOutOfRange {
            field: TextField::OptionLabel,
            length: 0,
            min: 1,
            max: 25
        })
    );
}

fn bounds(interval: Interval<usize>) -> (usize, usize) {
    (interval.min_allowed, interval.max_allowed)
}

#[test]
fn the_limits_are_those_of_the_platform() {
    assert_eq!(bounds(Message::action_row_count_interval()), (0, 5));
    assert_eq!(bounds(Message::label_len_interval()), (0, 80));
    assert_eq!(bounds(Message::custom_id_len_interval()), (1, 100));
    assert_eq!(bounds(ActionRow::button_count_interval()), (0, 5));
    assert_eq!(bounds(ActionRow::select_menu_count_interval()), (0, 1));
    assert_eq!(bounds(SelectMenu::option_count_interval()), (1, 25));
    assert_eq!(bounds(SelectMenu::placeholder_len_interval()), (0, 150));
    assert_eq!(bounds(SelectMenu::min_values_interval().widen()), (0, 25));
    assert_eq!(bounds(SelectMenu::max_values_interval().widen()), (1, 25));
    assert_eq!(bounds(SelectOption::label_len_interval()), (1, 100));
    assert_eq!(bounds(SelectOption::value_len_interval()), (1, 100));
    assert_eq!(bounds(SelectOption::description_len_interval()), (0, 100));
    assert_eq!(bounds(Embed::title_len_interval()), (0, 256));
    assert_eq!(bounds(Embed::description_len_interval()), (0, 4096));
    assert_eq!(bounds(Embed::field_count_interval()), (0, 25));
    assert_eq!(bounds(EmbedField::name_len_interval()), (1, 256));
    assert_eq!(bounds(EmbedField::value_len_interval()), (1, 1024));
}
