//! What the user can do to the wizard, and what the wizard asks of its host.

use vstd::prelude::*;
use crate::config::Field;
use crate::config::MyStackingConfig;
use crate::config::Paths;

verus! {

/// One user input.
#[derive(Debug)]
pub enum Message {
    BackPressed,
    NextPressed,
    SirilPathChanged(String),
    DataPathChanged(String),
    WorkPathChanged(String),
    OutputPathChanged(String),
}

impl Clone for Message {
    /// The same input once more.
    fn clone(&self) -> (r: Self)
        ensures
            r == *self,
    {
        match self {
            Message::BackPressed => Message::BackPressed,
            Message::NextPressed => Message::NextPressed,
            Message::SirilPathChanged(value) => Message::SirilPathChanged(value.clone()),
            Message::DataPathChanged(value) => Message::DataPathChanged(value.clone()),
            Message::WorkPathChanged(value) => Message::WorkPathChanged(value.clone()),
            Message::OutputPathChanged(value) => Message::OutputPathChanged(value.clone()),
        }
    }
}

impl Message {
    /// The edit that the message carries: which setting, and its new text.
    /// The two navigation messages carry none.
    pub open spec fn edit(self) -> Option<(Field, Seq<char>)> {
        match self {
            Message::BackPressed => None,
            Message::NextPressed => None,
            Message::SirilPathChanged(value) => Some((Field::SirilPath, value@)),
            Message::DataPathChanged(value) => Some((Field::DataPath, value@)),
            Message::WorkPathChanged(value) => Some((Field::WorkPath, value@)),
            Message::OutputPathChanged(value) => Some((Field::OutputPath, value@)),
        }
    }
}

/// The mathematical value of a storage request.
pub enum Transfer {
    /// Nothing is to be done.
    Nothing,
    /// The stored record is to be read.
    Load,
    /// These settings are to be written.
    Save(Paths),
}

/// What the host has to do with durable storage after an input was handled.
#[derive(Debug)]
pub enum Persistence {
    /// Nothing is to be done.
    Nothing,
    /// Read the stored record and hand the outcome to
    /// [`crate::wizard::MyStacking::loaded`].
    Load,
    /// Write this record.
    Save(MyStackingConfig),
}

impl View for Persistence {
    type V = Transfer;

    open spec fn view(&self) -> Transfer {
        match self {
            Persistence::Nothing => Transfer::Nothing,
            Persistence::Load => Transfer::Load,
            Persistence::Save(record) => Transfer::Save(record@),
        }
    }
}

impl Clone for Persistence {
    /// The same request once more.
    fn clone(&self) -> (r: Self)
        ensures
            r == *self,
    {
        match self {
            Persistence::Nothing => Persistence::Nothing,
            Persistence::Load => Persistence::Load,
            Persistence::Save(record) => Persistence::Save(record.clone()),
        }
    }
}

impl PartialEq for Persistence {
    /// Two requests are equal when they ask for the same thing and, for a
    /// save, carry the same four texts.
    fn eq(&self, other: &Self) -> (r: bool) {
        match (self, other) {
            (Persistence::Nothing, Persistence::Nothing) => true,
            (Persistence::Load, Persistence::Load) => true,
            (Persistence::Save(mine), Persistence::Save(theirs)) => mine == theirs,
            _ => false,
        }
    }
}

impl Eq for Persistence {

}

impl vstd::std_specs::cmp::PartialEqSpecImpl for Persistence {
    open spec fn obeys_eq_spec() -> bool {
        true
    }

    open spec fn eq_spec(&self, other: &Self) -> bool {
        self@ == other@
    }
}

} // verus!
