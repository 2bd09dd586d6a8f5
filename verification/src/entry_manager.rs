//! The decision that turns collected answers into a classification.
use vstd::prelude::*;
use crate::raw_entry::Direction;
use crate::text::{contains, occurs_in};
use crate::ui_choices::{PatternOverride, UiChoices};
use crate::Sphere;

verus! {

/// A learned rule: every entry of the pattern's direction whose description
/// contains `snippet` is assigned to `category`.
#[derive(Debug, PartialEq)]
pub enum Pattern {
    Inbound { snippet: String, category: String, assign_as_income: bool },
    Outbound {
        snippet: String,
        category: String,
        assign_as_expense: bool,
        assign_as_personal: bool,
        require_confirmation: bool,
    },
}

/// What a [`Pattern`] holds, as mathematical values.
pub enum PatternView {
    Inbound { snippet: Seq<char>, category: Seq<char>, assign_as_income: bool },
    Outbound {
        snippet: Seq<char>,
        category: Seq<char>,
        assign_as_expense: bool,
        assign_as_personal: bool,
        require_confirmation: bool,
    },
}

impl View for Pattern {
    type V = PatternView;

    open spec fn view(&self) -> PatternView {
        match *self {
            Pattern::Inbound { snippet, category, assign_as_income } => PatternView::Inbound {
                snippet: snippet@,
                category: category@,
                assign_as_income,
            },
            Pattern::Outbound {
                snippet,
                category,
                assign_as_expense,
                assign_as_personal,
                require_confirmation,
            } => PatternView::Outbound {
                snippet: snippet@,
                category: category@,
                assign_as_expense,
                assign_as_personal,
                require_confirmation,
            },
        }
    }
}

impl PatternView {
    /// The text that the pattern looks for.
    pub open spec fn snippet(self) -> Seq<char> {
        match self {
            PatternView::Inbound { snippet, .. } => snippet,
            PatternView::Outbound { snippet, .. } => snippet,
        }
    }

    /// The category that the pattern assigns.
    pub open spec fn category(self) -> Seq<char> {
        match self {
            PatternView::Inbound { category, .. } => category,
            PatternView::Outbound { category, .. } => category,
        }
    }

    /// The direction of the entries that the pattern is meant for.
    pub open spec fn direction(self) -> Direction {
        match self {
            PatternView::Inbound { .. } => Direction::Inbound,
            PatternView::Outbound { .. } => Direction::Outbound,
        }
    }

    /// The pattern's snippet occurs in `description`, case and all.
    pub open spec fn matches(self, description: Seq<char>) -> bool {
        occurs_in(self.snippet(), description)
    }
}

impl Pattern {
    /// The text that the pattern looks for.
    pub fn snippet(&self) -> (snippet: &String)
        ensures
            snippet@ == self@.snippet(),
    {
        match self {
            Pattern::Inbound { snippet, .. } => snippet,
            Pattern::Outbound { snippet, .. } => snippet,
        }
    }

    /// The category that the pattern assigns.
    pub fn category(&self) -> (category: &String)
        ensures
            category@ == self@.category(),
    {
        match self {
            Pattern::Inbound { category, .. } => category,
            Pattern::Outbound { category, .. } => category,
        }
    }

    /// Whether the pattern's snippet occurs in `description`.
    pub fn matches(&self, description: &str) -> (matched: bool)
        ensures
            matched == self@.matches(description@),
    {
        contains(description, self.snippet().as_str())
    }
}

/// The outcome of classifying one entry.
#[derive(Debug, PartialEq)]
pub enum Classification<'a> {
    ExistingPattern(&'a Pattern, Option<PatternOverride>),
    NewPatternInbound { snippet: String, category: String, assign_as_income: bool },
    NewPatternOutbound {
        snippet: String,
        category: String,
        assign_as_expense: bool,
        assign_as_personal: bool,
        require_confirmation: bool,
    },
    NoPatternInbound { category: String, assign_as_income: bool },
    NoPatternOutbound { category: String, assign_as_expense: bool, assign_as_personal: bool },
}

/// What a [`Classification`] holds, as mathematical values.
pub enum ClassificationView {
    ExistingPattern(PatternView, Option<PatternOverride>),
    NewPatternInbound { snippet: Seq<char>, category: Seq<char>, assign_as_income: bool },
    NewPatternOutbound {
        snippet: Seq<char>,
        category: Seq<char>,
        assign_as_expense: bool,
        assign_as_personal: bool,
        require_confirmation: bool,
    },
    NoPatternInbound { category: Seq<char>, assign_as_income: bool },
    NoPatternOutbound { category: Seq<char>, assign_as_expense: bool, assign_as_personal: bool },
}

impl<'a> View for Classification<'a> {
    type V = ClassificationView;

    open spec fn view(&self) -> ClassificationView {
        match *self {
            Classification::ExistingPattern(pattern, pattern_override) => {
                ClassificationView::ExistingPattern(pattern@, pattern_override)
            },
            Classification::NewPatternInbound { snippet, category, assign_as_income } => {
                ClassificationView::NewPatternInbound {
                    snippet: snippet@,
                    category: category@,
                    assign_as_income,
                }
            },
            Classification::NewPatternOutbound {
                snippet,
                category,
                assign_as_expense,
                assign_as_personal,
                require_confirmation,
            } => ClassificationView::NewPatternOutbound {
                snippet: snippet@,
                category: category@,
                assign_as_expense,
                assign_as_personal,
                require_confirmation,
            },
            Classification::NoPatternInbound { category, assign_as_income } => {
                ClassificationView::NoPatternInbound { category: category@, assign_as_income }
            },
            Classification::NoPatternOutbound {
                category,
                assign_as_expense,
                assign_as_personal,
            } => ClassificationView::NoPatternOutbound {
                category: category@,
                assign_as_expense,
                assign_as_personal,
            },
        }
    }
}

/// The classification that a direction and a bundle of answers determine.
///
/// A matched pattern wins over every other answer. Without one, the
/// direction picks the inbound or the outbound variants, `create_pattern`
/// picks between learning a pattern and a one-off assignment, a transfer is
/// neither income nor expense, and the sphere decides `assign_as_personal`.
pub open spec fn classification_of<'a>(direction: Direction, choices: UiChoices<'a>)
    -> Classification<'a> {
    match choices.existing_pattern {
        Some(pattern) => Classification::ExistingPattern(pattern, choices.pattern_override),
        None => match direction {
            Direction::Inbound => if choices.create_pattern->0 {
                Classification::NewPatternInbound {
                    snippet: choices.snippet->0,
                    category: choices.category->0,
                    assign_as_income: !choices.transfer->0,
                }
            } else {
                Classification::NoPatternInbound {
                    category: choices.category->0,
                    assign_as_income: !choices.transfer->0,
                }
            },
            Direction::Outbound => if choices.create_pattern->0 {
                Classification::NewPatternOutbound {
                    snippet: choices.snippet->0,
                    category: choices.category->0,
                    assign_as_expense: !choices.transfer->0,
                    assign_as_personal: choices.sphere->0 == Sphere::Personal,
                    require_confirmation: choices.require_confirmation->0,
                }
            } else {
                Classification::NoPatternOutbound {
                    category: choices.category->0,
                    assign_as_expense: !choices.transfer->0,
                    assign_as_personal: choices.sphere->0 == Sphere::Personal,
                }
            },
        },
    }
}

/// Classifies an entry of the given direction from the collected answers.
///
/// The caller must have filled every field that the taken branch reads.
pub fn create_classification_from_choices<'a>(
    direction: Direction,
    choices: UiChoices<'a>,
) -> (result: Classification<'a>)
    requires
        choices.complete_for(direction),
    ensures
        result == classification_of(direction, choices),
{
    match choices.existing_pattern {
        Some(pattern) => Classification::ExistingPattern(pattern, choices.pattern_override),
        None => match direction {
            Direction::Inbound => {
                if choices.create_pattern.unwrap() {
                    Classification::NewPatternInbound {
                        snippet: choices.snippet.unwrap(),
                        category: choices.category.unwrap(),
                        assign_as_income: !choices.transfer.unwrap(),
                    }
                } else {
                    Classification::NoPatternInbound {
                        category: choices.category.unwrap(),
                        assign_as_income: !choices.transfer.unwrap(),
                    }
                }
            },
            Direction::Outbound => {
                let assign_as_personal = match choices.sphere.unwrap() {
                    Sphere::Personal => true,
                    Sphere::Work => false,
                };
                if choices.create_pattern.unwrap() {
                    Classification::NewPatternOutbound {
                        snippet: choices.snippet.unwrap(),
                        category: choices.category.unwrap(),
                        assign_as_expense: !choices.transfer.unwrap(),
                        assign_as_personal,
                        require_confirmation: choices.require_confirmation.unwrap(),
                    }
                } else {
                    Classification::NoPatternOutbound {
                        category: choices.category.unwrap(),
                        assign_as_expense: !choices.transfer.unwrap(),
                        assign_as_personal,
                    }
                }
            },
        },
    }
}

/// A matched pattern decides alone: whatever the other answers are, the
/// classification is the pattern with the override.
pub proof fn lemma_existing_pattern_wins<'a>(
    pattern: &'a Pattern,
    direction: Direction,
    choices: UiChoices<'a>,
)
    requires
        choices.existing_pattern == Some(pattern),
    ensures
        classification_of(direction, choices) == Classification::ExistingPattern(
            pattern,
            choices.pattern_override,
        ),
        choices.pattern_override is None ==> classification_of(direction, choices)
            == Classification::ExistingPattern(pattern, None),
{
}

} // verus!
