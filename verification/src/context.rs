//! The state that one validation pass carries from component to component.

use vstd::prelude::*;
use crate::errors::verdict;
use crate::errors::ComponentKind;
use crate::errors::Counted;
use crate::errors::Measure;
use crate::errors::TextField;
use crate::errors::ValidationError;
use crate::errors::Violation;
use crate::interval::checked_against;
use crate::interval::interval_check;
use crate::models::ActionRow;
use crate::models::Message;

verus! {

/// The state of a pass as a mathematical value.
pub struct ContextModel {
    /// The custom ids registered so far, anywhere in the message.
    pub custom_ids: Set<Seq<char>>,
    /// The buttons registered in the current action row.
    pub button_count: nat,
    /// The select menus registered in the current action row.
    pub select_menu_count: nat,
}

/// What a check reports, and the state in which it leaves the pass.
pub struct Outcome {
    pub result: Result<(), Violation>,
    pub context: ContextModel,
}

impl ContextModel {
    /// The state in which every pass starts.
    pub open spec fn fresh() -> ContextModel {
        ContextModel { custom_ids: Set::empty(), button_count: 0, select_menu_count: 0 }
    }

    /// Entering an action row: both counters start again at zero, the custom
    /// ids stay.
    pub open spec fn register_action_row(self) -> ContextModel {
        ContextModel { button_count: 0, select_menu_count: 0, ..self }
    }

    /// Registering a custom id. Its length is tested first, then whether it
    /// is already known. Only a success changes the state.
    pub open spec fn register_custom_id(self, id: Seq<char>) -> Outcome {
        let length = checked_against(
            Message::custom_id_len_limit(),
            id.len(),
            Measure::Length(TextField::CustomId),
        );
        if length is Err {
            Outcome { result: length, context: self }
        } else if self.custom_ids.contains(id) {
            Outcome { result: Err(Violation::DuplicateCustomId(id)), context: self }
        } else {
            Outcome {
                result: Ok(()),
                context: ContextModel { custom_ids: self.custom_ids.insert(id), ..self },
            }
        }
    }

    /// Registering a button under `id`: the id first; then the button is
    /// counted and the count tested; last, the row must hold no select menu.
    /// The id and the count stay registered when one of the later tests
    /// fails.
    pub open spec fn register_button(self, id: Seq<char>) -> Outcome {
        let registered = self.register_custom_id(id);
        if registered.result is Err {
            registered
        } else {
            let counted = ContextModel {
                button_count: registered.context.button_count + 1,
                ..registered.context
            };
            let within = checked_against(
                ActionRow::button_count_limit(),
                counted.button_count,
                Measure::Count(Counted::Buttons),
            );
            Outcome {
                result: if within is Err {
                    within
                } else if counted.select_menu_count > 0 {
                    Err(Violation::ConflictingComponentKinds(ComponentKind::Button))
                } else {
                    Ok(())
                },
                context: counted,
            }
        }
    }

    /// Registering a select menu under `id`: as for a button, with the two
    /// kinds exchanged.
    pub open spec fn register_select_menu(self, id: Seq<char>) -> Outcome {
        let registered = self.register_custom_id(id);
        if registered.result is Err {
            registered
        } else {
            let counted = ContextModel {
                select_menu_count: registered.context.select_menu_count + 1,
                ..registered.context
            };
            let within = checked_against(
                ActionRow::select_menu_count_limit(),
                counted.select_menu_count,
                Measure::Count(Counted::SelectMenus),
            );
            Outcome {
                result: if within is Err {
                    within
                } else if counted.button_count > 0 {
                    Err(Violation::ConflictingComponentKinds(ComponentKind::SelectMenu))
                } else {
                    Ok(())
                },
                context: counted,
            }
        }
    }
}

/// The state of one validation pass. A pass starts from [`MessageContext::new`]
/// and is not shared with another pass.
#[derive(Debug)]
pub struct MessageContext {
    custom_ids: Vec<String>,
    button_count_in_action_row: usize,
    select_menu_count_in_action_row: usize,
}

impl View for MessageContext {
    type V = ContextModel;

    closed spec fn view(&self) -> ContextModel {
        ContextModel {
            custom_ids: texts(self.custom_ids@),
            button_count: self.button_count_in_action_row as nat,
            select_menu_count: self.select_menu_count_in_action_row as nat,
        }
    }
}

/// The texts that `ids` holds, as a set.
spec fn texts(ids: Seq<String>) -> Set<Seq<char>> {
    Set::new(|id: Seq<char>| exists|i: int| 0 <= i < ids.len() && #[trigger] ids[i]@ == id)
}

impl MessageContext {
    /// The invariant of a pass: no custom id is stored twice, and no
    /// component was counted without its custom id having been stored.
    /// [`MessageContext::new`] establishes it and every method keeps it.
    pub closed spec fn well_formed(&self) -> bool {
        &&& forall|i: int, j: int|
            0 <= i < j < self.custom_ids@.len() ==> self.custom_ids@[i]@ != self.custom_ids@[j]@
        &&& self.button_count_in_action_row + self.select_menu_count_in_action_row
            <= self.custom_ids@.len()
    }

    pub fn new() -> (context: MessageContext)
        ensures
            context.well_formed(),
            context@ == ContextModel::fresh(),
    {
        let context = MessageContext {
            custom_ids: Vec::new(),
            button_count_in_action_row: 0,
            select_menu_count_in_action_row: 0,
        };
        assert(context@.custom_ids =~= Set::empty());
        context
    }

    fn knows(&self, id: &String) -> (known: bool)
        ensures
            known == self@.custom_ids.contains(id@),
    {
        let mut i: usize = 0;
        while i < self.custom_ids.len()
            invariant
                i <= self.custom_ids@.len(),
                forall|k: int| 0 <= k < i ==> self.custom_ids@[k]@ != id@,
            decreases self.custom_ids@.len() - i,
        {
            if self.custom_ids[i] == *id {
                return true;
            }
            i += 1;
        }
        false
    }

    /// Stores `id` unless it is already known, and says whether it did.
    fn enroll(&mut self, id: &str) -> (stored: bool)
        requires
            old(self).well_formed(),
        ensures
            final(self).well_formed(),
            stored == !old(self)@.custom_ids.contains(id@),
            stored ==> final(self)@.custom_ids == old(self)@.custom_ids.insert(id@),
            stored ==> final(self).custom_ids@.len() == old(self).custom_ids@.len() + 1,
            !stored ==> *final(self) == *old(self),
            final(self).button_count_in_action_row == old(self).button_count_in_action_row,
            final(self).select_menu_count_in_action_row == old(
                self,
            ).select_menu_count_in_action_row,
    {
        let owned = id.to_owned();
        if self.knows(&owned) {
            return false;
        }
        self.custom_ids.push(owned);
        proof {
            let before = old(self).custom_ids@;
            let after = self.custom_ids@;
            assert forall|other: Seq<char>| #[trigger]
                texts(after).contains(other) == texts(before).insert(id@).contains(other) by {
                if texts(before).contains(other) {
                    let i = choose|i: int| 0 <= i < before.len() && #[trigger] before[i]@ == other;
                    assert(after[i]@ == other);
                }
                if other == id@ {
                    assert(after[after.len() - 1]@ == other);
                }
            }
            assert(texts(after) =~= texts(before).insert(id@));
        }
        true
    }

    /// Registers `id` as [`Self::register_custom_id`] does, and says in
    /// addition what the row counters rely on.
    fn claim(&mut self, id: &str) -> (result: Result<(), ValidationError>)
        requires
            old(self).well_formed(),
        ensures
            final(self).well_formed(),
            verdict(result) == old(self)@.register_custom_id(id@).result,
            final(self)@ == old(self)@.register_custom_id(id@).context,
            result is Ok ==> final(self).custom_ids@.len() == old(self).custom_ids@.len() + 1,
            final(self).button_count_in_action_row == old(self).button_count_in_action_row,
            final(self).select_menu_count_in_action_row == old(
                self,
            ).select_menu_count_in_action_row,
    {
        interval_check(
            &Message::custom_id_len_interval(),
            &id.unicode_len(),
            Measure::Length(TextField::CustomId),
        )?;
        if !self.enroll(id) {
            return Err(ValidationError::DuplicateCustomId(id.to_owned()));
        }
        Ok(())
    }

    /// Switches to a new action row: what is registered next counts for that
    /// row. Call it once for each action row, before registering any of its
    /// components.
    pub fn register_action_row(&mut self)
        requires
            old(self).well_formed(),
        ensures
            final(self).well_formed(),
            final(self)@ == old(self)@.register_action_row(),
    {
        self.button_count_in_action_row = 0;
        self.select_menu_count_in_action_row = 0;
    }

    /// Registers a custom id. Buttons and select menus go through
    /// [`Self::register_button`] and [`Self::register_select_menu`], which
    /// count them as well.
    pub fn register_custom_id(&mut self, id: &str) -> (result: Result<(), ValidationError>)
        requires
            old(self).well_formed(),
        ensures
            final(self).well_formed(),
            verdict(result) == old(self)@.register_custom_id(id@).result,
            final(self)@ == old(self)@.register_custom_id(id@).context,
    {
        self.claim(id)
    }

    /// Registers a button of the current action row under its custom id.
    pub fn register_button(&mut self, id: &str) -> (result: Result<(), ValidationError>)
        requires
            old(self).well_formed(),
        ensures
            final(self).well_formed(),
            verdict(result) == old(self)@.register_button(id@).result,
            final(self)@ == old(self)@.register_button(id@).context,
    {
        self.claim(id)?;
        assert(self.custom_ids.len() <= usize::MAX);
        self.button_count_in_action_row += 1;

        interval_check(
            &ActionRow::button_count_interval(),
            &self.button_count_in_action_row,
            Measure::Count(Counted::Buttons),
        )?;

        if self.select_menu_count_in_action_row > 0 {
            return Err(ValidationError::ConflictingComponentKinds(ComponentKind::Button));
        }
        Ok(())
    }

    /// Registers a select menu of the current action row under its custom id.
    pub fn register_select_menu(&mut self, id: &str) -> (result: Result<(), ValidationError>)
        requires
            old(self).well_formed(),
        ensures
            final(self).well_formed(),
            verdict(result) == old(self)@.register_select_menu(id@).result,
            final(self)@ == old(self)@.register_select_menu(id@).context,
    {
        self.claim(id)?;
        assert(self.custom_ids.len() <= usize::MAX);
        self.select_menu_count_in_action_row += 1;

        interval_check(
            &ActionRow::select_menu_count_interval(),
            &self.select_menu_count_in_action_row,
            Measure::Count(Counted::SelectMenus),
        )?;

        if self.button_count_in_action_row > 0 {
            return Err(ValidationError::ConflictingComponentKinds(ComponentKind::SelectMenu));
        }
        Ok(())
    }
}

} // verus!
