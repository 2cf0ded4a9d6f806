//! Laws of the wizard, stated over its mathematical value and proved once
//! for every state and every input.

use vstd::prelude::*;
use crate::config::Field;
use crate::config::MyStackingConfig;
use crate::message::Message;
use crate::message::Transfer;
use crate::screen::Screen;
use crate::wizard::Wizard;

verus! {

/// Going forward and then back returns to the very same state, whenever
/// going forward moved to another screen at all.
pub proof fn next_then_back_returns(w: Wizard)
    requires
        w.go_next().screen != w.screen,
    ensures
        w.go_next().go_back() == w,
{
}

/// Going forward moves to another screen exactly when the current screen
/// lets the user continue. It then moves one step, and touches neither a
/// field nor the configuration record.
pub proof fn next_moves_iff_allowed(w: Wizard)
    ensures
        w.go_next().screen != w.screen <==> w.can_continue(),
        w.can_continue() ==> w.go_next().screen.position() == w.screen.position() + 1,
        w.go_next().fields == w.fields,
        w.go_next().config == w.config,
{
}

/// Going back on the first screen changes nothing.
pub proof fn back_at_start_is_noop(w: Wizard)
    requires
        w.screen == Screen::Start,
    ensures
        w.go_back() == w,
{
}

/// Going back moves to another screen exactly when the current screen is
/// not the first. It then moves one step, and touches neither a field nor
/// the configuration record.
pub proof fn back_moves_iff_not_first(w: Wizard)
    ensures
        w.go_back().screen != w.screen <==> w.screen != Screen::Start,
        w.screen != Screen::Start ==> w.go_back().screen.position() == w.screen.position() - 1,
        w.go_back().fields == w.fields,
        w.go_back().config == w.config,
{
}

/// Going forward on the last screen changes nothing, whatever the fields
/// hold.
pub proof fn next_at_result_is_noop(w: Wizard)
    requires
        w.screen == Screen::Result,
    ensures
        w.go_next() == w,
{
}

/// On the first screen the user may continue exactly when none of the four
/// fields is empty.
pub proof fn start_gate(w: Wizard)
    requires
        w.screen == Screen::Start,
    ensures
        w.can_continue() <==> (w.fields.siril_path.len() > 0 && w.fields.data_path.len() > 0
            && w.fields.work_path.len() > 0 && w.fields.output_path.len() > 0),
        w.can_continue() <==> forall|field: Field| #[trigger] w.fields.get(field).len() > 0,
{
    w.fields.complete_means_every_field();
}

/// What the configuration record holds plays no part in whether the user
/// may continue.
pub proof fn gate_ignores_record(w: Wizard, v: Wizard)
    requires
        w.screen == v.screen,
        w.fields == v.fields,
    ensures
        w.can_continue() == v.can_continue(),
{
}

/// After a field was set, the input field and the configuration record both
/// hold the new text under that name; every other field, in both, and the
/// screen are as before.
pub proof fn set_field_syncs(w: Wizard, field: Field, value: Seq<char>)
    ensures
        w.set_field(field, value).fields.get(field) == value,
        w.set_field(field, value).config.get(field) == value,
        forall|other: Field|
            other != field ==> #[trigger] w.set_field(field, value).fields.get(other)
                == w.fields.get(other),
        forall|other: Field|
            other != field ==> #[trigger] w.set_field(field, value).config.get(other)
                == w.config.get(other),
        w.set_field(field, value).screen == w.screen,
{
}

/// An edit never asks anything of storage, and navigation never touches a
/// field or the configuration record.
pub proof fn edits_and_navigation_apart(w: Wizard, message: Message)
    ensures
        message.edit() is Some ==> w.request(message) == Transfer::Nothing,
        message.edit() is None ==> w.update(message).fields == w.fields && w.update(
            message,
        ).config == w.config,
{
}

/// Leaving the first screen forward asks for exactly one save, of the
/// configuration record as it stands at that moment.
pub proof fn entering_selection_saves(w: Wizard)
    requires
        w.screen == Screen::Start,
        w.can_continue(),
    ensures
        w.update(Message::NextPressed).screen == Screen::Selection,
        w.request(Message::NextPressed) == Transfer::Save(w.config),
{
}

/// Coming back to the first screen asks for exactly one load.
pub proof fn entering_start_loads(w: Wizard)
    requires
        w.screen == Screen::Selection,
    ensures
        w.update(Message::BackPressed).screen == Screen::Start,
        w.request(Message::BackPressed) == Transfer::Load,
{
}

/// An input that leaves the screen as it is asks nothing of storage.
pub proof fn staying_asks_nothing(w: Wizard, message: Message)
    requires
        w.update(message).screen == w.screen,
    ensures
        w.request(message) == Transfer::Nothing,
{
}

/// A wizard that has just started shows the first screen, which asks for a
/// load, and does not let the user continue.
pub proof fn initial_state()
    ensures
        Wizard::initial().on_enter() == Transfer::Load,
        !Wizard::initial().can_continue(),
{
}

/// While the input fields and the configuration record hold the same
/// texts, every user input keeps them so.
pub proof fn update_keeps_sync(w: Wizard, message: Message)
    requires
        w.fields == w.config,
    ensures
        w.update(message).fields == w.update(message).config,
{
}

/// A failed load changes nothing; a load that succeeded changes the
/// configuration record and nothing else.
pub proof fn load_touches_only_the_record(w: Wizard, stored: Option<MyStackingConfig>)
    ensures
        stored is None ==> w.loaded(stored) == w,
        w.loaded(stored).screen == w.screen,
        w.loaded(stored).fields == w.fields,
        stored matches Some(record) ==> w.loaded(stored).config == record@,
{
}

} // verus!
