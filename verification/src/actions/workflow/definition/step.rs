//! The arguments that a step hands to the action it uses.

use crate::dict::Dict;
use vstd::prelude::*;
use vstd::string::*;

verus! {

/// The values of a map of texts as plain texts.
pub open spec fn texts(dict: Dict<String>) -> Map<Seq<char>, Seq<char>> {
    Map::new(|key: Seq<char>| dict@.contains_key(key), |key: Seq<char>| dict@[key]@)
}

/// A text that may be absent, as plain values.
pub open spec fn text_of(text: Option<String>) -> Option<Seq<char>> {
    match text {
        Some(text) => Some(text@),
        None => None,
    }
}

/// The arguments of a step, by the action that takes them.
#[derive(Debug)]
pub enum Argument {
    Checkout { clean: Option<bool> },
    SetupConda { update_conda: Option<bool>, conda_channels: Option<String> },
    GitHubScript { script: String },
    Other(Dict<String>),
}

/// The arguments of a step as plain values.
pub enum ArgumentView {
    Checkout { clean: Option<bool> },
    SetupConda { update_conda: Option<bool>, conda_channels: Option<Seq<char>> },
    GitHubScript { script: Seq<char> },
    Other(Map<Seq<char>, Seq<char>>),
}

impl View for Argument {
    type V = ArgumentView;

    open spec fn view(&self) -> ArgumentView {
        match *self {
            Argument::Checkout { clean } => ArgumentView::Checkout { clean },
            Argument::SetupConda { update_conda, conda_channels } => ArgumentView::SetupConda {
                update_conda,
                conda_channels: text_of(conda_channels),
            },
            Argument::GitHubScript { script } => ArgumentView::GitHubScript { script: script@ },
            Argument::Other(map) => ArgumentView::Other(texts(map)),
        }
    }
}

impl Argument {
    /// Arguments of an action that this module knows nothing of: one name
    /// with its value.
    pub fn new_other(name: &str, value: &str) -> (argument: Self)
        ensures
            argument@ == ArgumentView::Other(map![name@ => value@]),
    {
        let mut map: Dict<String> = Dict::new();
        map.insert(String::from_str(name), String::from_str(value));
        assert(texts(map) =~= map![name@ => value@]);
        Argument::Other(map)
    }
}

} // verus!
