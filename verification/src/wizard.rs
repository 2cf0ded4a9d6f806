//! The wizard itself: the current screen, the four input fields, and the
//! configuration record that mirrors them.

use vstd::prelude::*;
use crate::config::Field;
use crate::config::MyStackingConfig;
use crate::config::Paths;
use crate::message::Message;
use crate::message::Persistence;
use crate::message::Transfer;
use crate::screen::Screen;

verus! {

/// The mathematical value of a wizard.
pub struct Wizard {
    /// The screen that is shown.
    pub screen: Screen,
    /// The texts of the four input fields.
    pub fields: Paths,
    /// The configuration record.
    pub config: Paths,
}

impl Wizard {
    /// A freshly started wizard: first screen, nothing entered, nothing
    /// configured.
    pub open spec fn initial() -> Wizard {
        Wizard { screen: Screen::Start, fields: Paths::unset(), config: Paths::unset() }
    }

    /// Whether the user may leave the current screen in forward direction.
    pub open spec fn can_continue(self) -> bool {
        match self.screen {
            Screen::Start => self.fields.complete(),
            Screen::Selection => true,
            Screen::Result => false,
        }
    }

    /// The wizard one screen back; unchanged on the first screen.
    pub open spec fn go_back(self) -> Wizard {
        match Screen::at(self.screen.position() - 1) {
            Some(screen) => Wizard { screen, ..self },
            None => self,
        }
    }

    /// The wizard one screen forward; unchanged where the current screen
    /// does not let the user continue, and on the last screen.
    pub open spec fn go_next(self) -> Wizard {
        match Screen::at(self.screen.position() + 1) {
            Some(screen) if self.can_continue() => Wizard { screen, ..self },
            _ => self,
        }
    }

    /// The wizard with `value` written to `field`, in the input field and in
    /// the configuration record alike.
    pub open spec fn set_field(self, field: Field, value: Seq<char>) -> Wizard {
        Wizard {
            fields: self.fields.set(field, value),
            config: self.config.set(field, value),
            ..self
        }
    }

    /// The wizard after one user input.
    pub open spec fn update(self, message: Message) -> Wizard {
        match message {
            Message::BackPressed => self.go_back(),
            Message::NextPressed => self.go_next(),
            _ => {
                let (field, value) = message.edit().unwrap();
                self.set_field(field, value)
            },
        }
    }

    /// What entering the current screen asks of storage: the first screen
    /// reads the stored record, the second writes the current one, the last
    /// asks for nothing.
    pub open spec fn on_enter(self) -> Transfer {
        match self.screen {
            Screen::Start => Transfer::Load,
            Screen::Selection => Transfer::Save(self.config),
            Screen::Result => Transfer::Nothing,
        }
    }

    /// What storage has to do after `message`: what the new screen asks for
    /// if the input led to another screen, and nothing if it did not.
    pub open spec fn request(self, message: Message) -> Transfer {
        let after = self.update(message);
        if after.screen != self.screen {
            after.on_enter()
        } else {
            Transfer::Nothing
        }
    }

    /// The wizard after storage answered a load: a record that was read
    /// replaces the configuration record, a failed read changes nothing. The
    /// input fields are left alone either way.
    pub open spec fn loaded(self, stored: Option<MyStackingConfig>) -> Wizard {
        match stored {
            Some(record) => Wizard { config: record@, ..self },
            None => self,
        }
    }
}

/// The wizard's state.
#[derive(Debug)]
pub struct MyStacking {
    pub screen: Screen,
    pub siril_path: String,
    pub data_path: String,
    pub work_path: String,
    pub output_path: String,
    pub config: MyStackingConfig,
}

impl View for MyStacking {
    type V = Wizard;

    open spec fn view(&self) -> Wizard {
        Wizard {
            screen: self.screen,
            fields: Paths {
                siril_path: self.siril_path@,
                data_path: self.data_path@,
                work_path: self.work_path@,
                output_path: self.output_path@,
            },
            config: self.config@,
        }
    }
}

impl Clone for MyStacking {
    /// An independent copy in the same state.
    fn clone(&self) -> (r: Self)
        ensures
            r == *self,
    {
        MyStacking {
            screen: self.screen,
            siril_path: self.siril_path.clone(),
            data_path: self.data_path.clone(),
            work_path: self.work_path.clone(),
            output_path: self.output_path.clone(),
            config: self.config.clone(),
        }
    }
}

impl PartialEq for MyStacking {
    /// Two wizards are equal when they show the same screen and hold the
    /// same texts, in the input fields and in the record.
    fn eq(&self, other: &Self) -> (r: bool) {
        self.screen == other.screen && self.siril_path == other.siril_path && self.data_path
            == other.data_path && self.work_path == other.work_path && self.output_path
            == other.output_path && self.config == other.config
    }
}

impl Eq for MyStacking {

}

impl vstd::std_specs::cmp::PartialEqSpecImpl for MyStacking {
    open spec fn obeys_eq_spec() -> bool {
        true
    }

    open spec fn eq_spec(&self, other: &Self) -> bool {
        self@ == other@
    }
}

impl Default for MyStacking {
    /// A freshly started wizard.
    fn default() -> (r: Self)
        ensures
            r@ == Wizard::initial(),
    {
        MyStacking {
            screen: Screen::Start,
            siril_path: String::new(),
            data_path: String::new(),
            work_path: String::new(),
            output_path: String::new(),
            config: MyStackingConfig::default(),
        }
    }
}

impl MyStacking {
    /// Whether the user may leave the current screen in forward direction:
    /// on the first screen once all four fields are filled in, on the second
    /// always, on the last never.
    pub fn can_continue(&self) -> (r: bool)
        ensures
            r == self@.can_continue(),
    {
        match self.screen {
            Screen::Start => !self.siril_path.as_str().is_empty()
                && !self.data_path.as_str().is_empty() && !self.work_path.as_str().is_empty()
                && !self.output_path.as_str().is_empty(),
            Screen::Selection => true,
            Screen::Result => false,
        }
    }

    /// Moves one screen back; does nothing on the first screen.
    pub fn go_back(&mut self)
        ensures
            final(self)@ == old(self)@.go_back(),
    {
        if let Some(screen) = self.screen.previous() {
            self.screen = screen;
        }
    }

    /// Moves one screen forward if the current screen lets the user
    /// continue; does nothing otherwise.
    pub fn go_next(&mut self)
        ensures
            final(self)@ == old(self)@.go_next(),
    {
        if self.can_continue() {
            if let Some(screen) = self.screen.next() {
                self.screen = screen;
            }
        }
    }

    /// Writes `value` to `field`, in the input field and in the configuration
    /// record alike. The text is taken as it is.
    pub fn set_field(&mut self, field: Field, value: String)
        ensures
            final(self)@ == old(self)@.set_field(field, value@),
    {
        let copy = value.clone();
        match field {
            Field::SirilPath => {
                self.siril_path = copy;
            },
            Field::DataPath => {
                self.data_path = copy;
            },
            Field::WorkPath => {
                self.work_path = copy;
            },
            Field::OutputPath => {
                self.output_path = copy;
            },
        }
        self.config.set(field, value);
    }

    /// Handles one user input.
    pub fn update(&mut self, message: Message)
        ensures
            final(self)@ == old(self)@.update(message),
    {
        match message {
            Message::BackPressed => self.go_back(),
            Message::NextPressed => self.go_next(),
            Message::SirilPathChanged(value) => self.set_field(Field::SirilPath, value),
            Message::DataPathChanged(value) => self.set_field(Field::DataPath, value),
            Message::WorkPathChanged(value) => self.set_field(Field::WorkPath, value),
            Message::OutputPathChanged(value) => self.set_field(Field::OutputPath, value),
        }
    }

    /// What entering the current screen asks of storage.
    pub fn on_enter(&self) -> (r: Persistence)
        ensures
            r@ == self@.on_enter(),
    {
        match self.screen {
            Screen::Start => Persistence::Load,
            Screen::Selection => Persistence::Save(self.config.clone()),
            Screen::Result => Persistence::Nothing,
        }
    }

    /// Handles one user input and says what storage has to do next: the
    /// request of the screen that was entered, or nothing where the screen
    /// stayed the same.
    pub fn handle(&mut self, message: Message) -> (r: Persistence)
        ensures
            final(self)@ == old(self)@.update(message),
            r@ == old(self)@.request(message),
    {
        let before = self.screen;
        self.update(message);
        if self.screen != before {
            self.on_enter()
        } else {
            Persistence::Nothing
        }
    }

    /// Takes in what storage answered to a load. A record that was read
    /// replaces the configuration record; `None`, a failed read, changes
    /// nothing. The input fields are left alone either way.
    pub fn loaded(&mut self, stored: Option<MyStackingConfig>)
        ensures
            final(self)@ == old(self)@.loaded(stored),
    {
        if let Some(record) = stored {
            self.config = record;
        }
    }
}

} // verus!
