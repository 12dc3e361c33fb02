//! The language models a chat can be held with.

use vstd::prelude::*;

verus! {

/// A language model of the completion service.
#[derive(Clone, Copy, Debug, PartialEq, Eq, Structural)]
pub enum Model {
    /// A capable model tuned for chat at a reduced cost.
    Gpt35,
    /// A more capable model, meant for complex tasks.
    Gpt4,
}

impl Default for Model {
    /// The model that is used where none is asked for.
    fn default() -> (model: Model)
        ensures
            model == Model::Gpt35,
    {
        Model::Gpt35
    }
}

impl Model {
    /// The identifier under which the completion service knows the model.
    pub open spec fn spec_name(self) -> Seq<char> {
        match self {
            Model::Gpt35 => "gpt-3.5-turbo"@,
            Model::Gpt4 => "gpt-4"@,
        }
    }

    /// Returns the identifier under which the completion service knows the model.
    pub fn name(self) -> (name: &'static str)
        ensures
            name@ == self.spec_name(),
    {
        match self {
            Model::Gpt35 => "gpt-3.5-turbo",
            Model::Gpt4 => "gpt-4",
        }
    }
}

} // verus!
