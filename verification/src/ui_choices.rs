//! The answers collected for one statement line before it is classified.
use vstd::prelude::*;
use crate::entry_manager::Pattern;
use crate::raw_entry::Direction;
use crate::Sphere;

verus! {

/// Flips the sphere of a matched pattern for a single entry; the stored
/// pattern is left as it is.
#[derive(Debug, Clone, Copy, PartialEq, Eq, Structural)]
pub struct PatternOverride {
    pub is_personal: bool,
}

/// Everything the prompts may have collected for one entry. Which fields are
/// filled depends on whether a stored pattern matched, on the direction of
/// the entry and on whether a new pattern is to be learned.
pub struct UiChoices<'a> {
    pub existing_pattern: Option<&'a Pattern>,
    pub pattern_override: Option<PatternOverride>,
    pub category: Option<String>,
    pub transfer: Option<bool>,
    pub sphere: Option<Sphere>,
    pub create_pattern: Option<bool>,
    pub snippet: Option<String>,
    pub require_confirmation: Option<bool>,
}

impl<'a> UiChoices<'a> {
    /// The fields that classification reads for an entry of the given
    /// direction are all present.
    pub open spec fn complete_for(&self, direction: Direction) -> bool {
        self.existing_pattern is Some || {
            &&& self.create_pattern is Some
            &&& self.category is Some
            &&& self.transfer is Some
            &&& direction == Direction::Outbound ==> self.sphere is Some
            &&& self.create_pattern == Some(true) ==> {
                &&& self.snippet is Some
                &&& direction == Direction::Outbound ==> self.require_confirmation is Some
            }
        }
    }

    /// A bundle with no answer in it.
    pub fn empty() -> (choices: UiChoices<'a>)
        ensures
            choices.existing_pattern is None,
            choices.pattern_override is None,
            choices.category is None,
            choices.transfer is None,
            choices.sphere is None,
            choices.create_pattern is None,
            choices.snippet is None,
            choices.require_confirmation is None,
    {
        UiChoices {
            existing_pattern: None,
            pattern_override: None,
            category: None,
            transfer: None,
            sphere: None,
            create_pattern: None,
            snippet: None,
            require_confirmation: None,
        }
    }

    /// Tests whether [`Self::complete_for`] holds, so that a caller outside
    /// the verified code can check before it classifies.
    pub fn is_complete_for(&self, direction: Direction) -> (complete: bool)
        ensures
            complete == self.complete_for(direction),
    {
        if self.existing_pattern.is_some() {
            return true;
        }
        let outbound = match direction {
            Direction::Outbound => true,
            Direction::Inbound => false,
        };
        match self.create_pattern {
            None => false,
            Some(create) => {
                self.category.is_some() && self.transfer.is_some() && (!outbound
                    || self.sphere.is_some()) && (!create || (self.snippet.is_some() && (!outbound
                    || self.require_confirmation.is_some())))
            },
        }
    }
}

} // verus!
