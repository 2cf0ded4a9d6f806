//! The four path settings and the configuration record that stores them.

use vstd::prelude::*;

verus! {

/// Names one of the four path settings.
#[derive(Debug, Clone, Copy, PartialEq, Eq, Structural)]
pub enum Field {
    SirilPath,
    DataPath,
    WorkPath,
    OutputPath,
}

/// The mathematical value of a set of path settings: four texts, where the
/// empty text means "not set".
pub struct Paths {
    pub siril_path: Seq<char>,
    pub data_path: Seq<char>,
    pub work_path: Seq<char>,
    pub output_path: Seq<char>,
}

impl Paths {
    /// The settings with nothing set.
    pub open spec fn unset() -> Paths {
        Paths {
            siril_path: Seq::empty(),
            data_path: Seq::empty(),
            work_path: Seq::empty(),
            output_path: Seq::empty(),
        }
    }

    /// The text stored under `field`.
    pub open spec fn get(self, field: Field) -> Seq<char> {
        match field {
            Field::SirilPath => self.siril_path,
            Field::DataPath => self.data_path,
            Field::WorkPath => self.work_path,
            Field::OutputPath => self.output_path,
        }
    }

    /// The settings with `value` stored under `field` and the other three
    /// left alone.
    pub open spec fn set(self, field: Field, value: Seq<char>) -> Paths {
        match field {
            Field::SirilPath => Paths { siril_path: value, ..self },
            Field::DataPath => Paths { data_path: value, ..self },
            Field::WorkPath => Paths { work_path: value, ..self },
            Field::OutputPath => Paths { output_path: value, ..self },
        }
    }

    /// True when every one of the four settings is non-empty.
    pub open spec fn complete(self) -> bool {
        &&& self.siril_path.len() > 0
        &&& self.data_path.len() > 0
        &&& self.work_path.len() > 0
        &&& self.output_path.len() > 0
    }

    /// The settings are complete exactly when no name leads to an empty
    /// text.
    pub proof fn complete_means_every_field(self)
        ensures
            self.complete() <==> forall|field: Field| #[trigger] self.get(field).len() > 0,
    {
        if forall|field: Field| #[trigger] self.get(field).len() > 0 {
            assert(self.get(Field::SirilPath).len() > 0);
            assert(self.get(Field::DataPath).len() > 0);
            assert(self.get(Field::WorkPath).len() > 0);
            assert(self.get(Field::OutputPath).len() > 0);
        }
    }

    /// Reading a setting that was just written gives the written text;
    /// reading any other setting gives what it held before.
    pub proof fn get_after_set(self, field: Field, value: Seq<char>, other: Field)
        ensures
            self.set(field, value).get(other) == if other == field {
                value
            } else {
                self.get(other)
            },
    {
    }
}

/// The configuration record that is loaded from and saved to durable
/// storage.
#[derive(Debug)]
pub struct MyStackingConfig {
    pub siril_path: String,
    pub data_path: String,
    pub work_path: String,
    pub output_path: String,
}

impl View for MyStackingConfig {
    type V = Paths;

    open spec fn view(&self) -> Paths {
        Paths {
            siril_path: self.siril_path@,
            data_path: self.data_path@,
            work_path: self.work_path@,
            output_path: self.output_path@,
        }
    }
}

impl Default for MyStackingConfig {
    /// A record with nothing set.
    fn default() -> (r: Self)
        ensures
            r@ == Paths::unset(),
    {
        MyStackingConfig {
            siril_path: String::new(),
            data_path: String::new(),
            work_path: String::new(),
            output_path: String::new(),
        }
    }
}

impl Clone for MyStackingConfig {
    /// An independent copy that holds the same four texts.
    fn clone(&self) -> (r: Self)
        ensures
            r == *self,
    {
        MyStackingConfig {
            siril_path: self.siril_path.clone(),
            data_path: self.data_path.clone(),
            work_path: self.work_path.clone(),
            output_path: self.output_path.clone(),
        }
    }
}

impl PartialEq for MyStackingConfig {
    /// Two records are equal when they hold the same four texts.
    fn eq(&self, other: &Self) -> (r: bool) {
        self.siril_path == other.siril_path && self.data_path == other.data_path
            && self.work_path == other.work_path && self.output_path == other.output_path
    }
}

impl Eq for MyStackingConfig {

}

impl vstd::std_specs::cmp::PartialEqSpecImpl for MyStackingConfig {
    open spec fn obeys_eq_spec() -> bool {
        true
    }

    open spec fn eq_spec(&self, other: &Self) -> bool {
        self@ == other@
    }
}

impl MyStackingConfig {
    /// Stores `value` under `field`, as it is: nothing is trimmed or checked.
    pub fn set(&mut self, field: Field, value: String)
        ensures
            final(self)@ == old(self)@.set(field, value@),
    {
        match field {
            Field::SirilPath => {
                self.siril_path = value;
            },
            Field::DataPath => {
                self.data_path = value;
            },
            Field::WorkPath => {
                self.work_path = value;
            },
            Field::OutputPath => {
                self.output_path = value;
            },
        }
    }
}

} // verus!
