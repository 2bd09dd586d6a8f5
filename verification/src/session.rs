//! One run over a list of statement lines.
//!
//! For each line the caller asks [`Session::next`] what to do, puts the
//! question it gets to the person at the terminal, stores the answer in the
//! [`Answers`] and asks again, until the line is to be skipped or
//! classified. [`Session::process`] then records the line.
use vstd::prelude::*;
use crate::config::{found_pattern, Config, ConfigView};
use crate::entry_manager::{
    create_classification_from_choices, Classification, ClassificationView, Pattern, PatternView,
};
use crate::raw_entry::{Direction, RawEntry, RawEntryView};
use crate::report::{ActivityReport, CategorisedEntry, CategorisedEntryView};
use crate::text::texts;
use crate::ui_choices::{PatternOverride, UiChoices};
use crate::{EntryType, Sphere};

verus! {

/// What the person at the terminal has answered so far for one entry.
#[derive(Debug)]
pub struct Answers {
    /// Whether to skip an entry that was processed before in this run.
    pub skip_duplicate: Option<bool>,
    /// Whether to assign the entry to the other sphere than the matched
    /// pattern does.
    pub sphere_override: Option<bool>,
    pub category: Option<String>,
    /// Whether the person asked to name a category that is not known yet.
    pub new_category: bool,
    pub transfer: Option<bool>,
    /// Whether the entry is personal rather than work.
    pub personal: Option<bool>,
    pub create_pattern: Option<bool>,
    pub snippet: Option<String>,
    pub require_confirmation: Option<bool>,
}

/// What [`Answers`] hold, as mathematical values.
pub struct AnswersView {
    pub skip_duplicate: Option<bool>,
    pub sphere_override: Option<bool>,
    pub category: Option<Seq<char>>,
    pub new_category: bool,
    pub transfer: Option<bool>,
    pub personal: Option<bool>,
    pub create_pattern: Option<bool>,
    pub snippet: Option<Seq<char>>,
    pub require_confirmation: Option<bool>,
}

impl View for Answers {
    type V = AnswersView;

    open spec fn view(&self) -> AnswersView {
        AnswersView {
            skip_duplicate: self.skip_duplicate,
            sphere_override: self.sphere_override,
            category: match self.category {
                Some(category) => Some(category@),
                None => None,
            },
            new_category: self.new_category,
            transfer: self.transfer,
            personal: self.personal,
            create_pattern: self.create_pattern,
            snippet: match self.snippet {
                Some(snippet) => Some(snippet@),
                None => None,
            },
            require_confirmation: self.require_confirmation,
        }
    }
}

/// A question to the person at the terminal.
#[derive(Debug, Clone, Copy, PartialEq, Eq, Structural)]
pub enum Question {
    SkipDuplicate,
    SphereOverride { normally_personal: bool },
    Category,
    NewCategory,
    Transfer,
    Personal,
    CreatePattern,
    Snippet,
    RequireConfirmation { personal: bool },
}

/// What is to be done next for an entry.
#[derive(Debug, Clone, Copy, PartialEq, Eq, Structural)]
pub enum Next {
    Ask(Question),
    Skip,
    Classify,
}

/// What became of an entry.
#[derive(Debug, Clone, Copy, PartialEq, Eq, Structural)]
pub enum Processed {
    Skipped,
    Recorded,
}

/// What the catalogue learns from a classification.
#[derive(Debug)]
pub struct Lesson {
    pub category: Option<String>,
    pub pattern: Option<Pattern>,
}

/// What a [`Lesson`] holds, as mathematical values.
pub struct LessonView {
    pub category: Option<Seq<char>>,
    pub pattern: Option<PatternView>,
}

impl View for Lesson {
    type V = LessonView;

    open spec fn view(&self) -> LessonView {
        LessonView {
            category: match self.category {
                Some(category) => Some(category@),
                None => None,
            },
            pattern: match self.pattern {
                Some(pattern) => Some(pattern@),
                None => None,
            },
        }
    }
}

/// The next step for an entry that a stored pattern matches: the sphere
/// is confirmed for an outbound pattern that asks for it, and for no other.
pub open spec fn next_with_pattern(pattern: PatternView, answers: AnswersView) -> Next {
    match pattern {
        PatternView::Outbound { assign_as_personal, require_confirmation, .. } => {
            if require_confirmation && answers.sphere_override is None {
                Next::Ask(Question::SphereOverride { normally_personal: assign_as_personal })
            } else {
                Next::Classify
            }
        },
        PatternView::Inbound { .. } => Next::Classify,
    }
}

/// The next step for an entry that no stored pattern matches: category
/// (a known one, or a new one where the person asked for that), transfer,
/// sphere (for an outbound entry that is no transfer), whether to learn a
/// pattern, and for a pattern its snippet and (again for an outbound entry
/// that is no transfer) whether it is to be confirmed.
pub open spec fn next_without_pattern(direction: Direction, answers: AnswersView) -> Next {
    if answers.category is None {
        if answers.new_category {
            Next::Ask(Question::NewCategory)
        } else {
            Next::Ask(Question::Category)
        }
    } else if answers.transfer is None {
        Next::Ask(Question::Transfer)
    } else if !answers.transfer->0 && direction == Direction::Outbound && answers.personal
        is None {
        Next::Ask(Question::Personal)
    } else if answers.create_pattern is None {
        Next::Ask(Question::CreatePattern)
    } else if answers.create_pattern->0 && answers.snippet is None {
        Next::Ask(Question::Snippet)
    } else if answers.create_pattern->0 && direction == Direction::Outbound
        && !answers.transfer->0 && answers.require_confirmation is None {
        Next::Ask(Question::RequireConfirmation { personal: answers.personal->0 })
    } else {
        Next::Classify
    }
}

/// The sphere of an entry that no stored pattern matches: transfers and
/// inbound entries are personal, for the rest the answer decides.
pub open spec fn sphere_of(direction: Direction, answers: Answers) -> Sphere {
    if answers.transfer->0 {
        Sphere::Personal
    } else {
        match direction {
            Direction::Outbound => if answers.personal->0 {
                Sphere::Personal
            } else {
                Sphere::Work
            },
            Direction::Inbound => Sphere::Personal,
        }
    }
}

/// The override that the answers give for a matched pattern: the other
/// sphere than the pattern's, where the pattern asks for confirmation and
/// the answer was to change it.
pub open spec fn override_of(pattern: PatternView, answers: Answers) -> Option<PatternOverride> {
    match pattern {
        PatternView::Outbound { assign_as_personal, require_confirmation, .. } => {
            if require_confirmation && answers.sphere_override == Some(true) {
                Some(PatternOverride { is_personal: !assign_as_personal })
            } else {
                None
            }
        },
        PatternView::Inbound { .. } => None,
    }
}

/// Whether a new pattern is to be confirmed each time: never for inbound
/// entries and transfers, else as answered.
pub open spec fn confirmation_of(direction: Direction, answers: Answers) -> bool {
    match direction {
        Direction::Inbound => false,
        Direction::Outbound => if answers.transfer->0 {
            false
        } else {
            answers.require_confirmation->0
        },
    }
}

/// The bundle that is handed to the classifier for an entry.
pub open spec fn choices_of<'a>(
    existing: Option<&'a Pattern>,
    direction: Direction,
    answers: Answers,
) -> UiChoices<'a> {
    match existing {
        Some(pattern) => UiChoices {
            existing_pattern: Some(pattern),
            pattern_override: override_of(pattern@, answers),
            category: None,
            transfer: None,
            sphere: None,
            create_pattern: None,
            snippet: None,
            require_confirmation: None,
        },
        None => UiChoices {
            existing_pattern: None,
            pattern_override: None,
            category: answers.category,
            transfer: answers.transfer,
            sphere: Some(sphere_of(direction, answers)),
            create_pattern: answers.create_pattern,
            snippet: if answers.create_pattern->0 {
                answers.snippet
            } else {
                None
            },
            require_confirmation: if answers.create_pattern->0 {
                Some(confirmation_of(direction, answers))
            } else {
                None
            },
        },
    }
}

/// The sphere that a classification assigns: an override wins over the
/// pattern, inbound entries are personal, outbound ones go by
/// `assign_as_personal`.
pub open spec fn sphere_assigned(classification: ClassificationView) -> Sphere {
    let personal = match classification {
        ClassificationView::ExistingPattern(_, Some(pattern_override)) => {
            pattern_override.is_personal
        },
        ClassificationView::ExistingPattern(pattern, None) => match pattern {
            PatternView::Inbound { .. } => true,
            PatternView::Outbound { assign_as_personal, .. } => assign_as_personal,
        },
        ClassificationView::NewPatternInbound { .. } => true,
        ClassificationView::NewPatternOutbound { assign_as_personal, .. } => assign_as_personal,
        ClassificationView::NoPatternInbound { .. } => true,
        ClassificationView::NoPatternOutbound { assign_as_personal, .. } => assign_as_personal,
    };
    if personal {
        Sphere::Personal
    } else {
        Sphere::Work
    }
}

/// The type that a classification assigns: income or expense by
/// direction, and a transfer where the entry is neither.
pub open spec fn type_assigned(classification: ClassificationView) -> EntryType {
    match classification {
        ClassificationView::ExistingPattern(PatternView::Inbound { assign_as_income, .. }, _)
        | ClassificationView::NewPatternInbound { assign_as_income, .. }
        | ClassificationView::NoPatternInbound { assign_as_income, .. } => if assign_as_income {
            EntryType::Income
        } else {
            EntryType::Transfer
        },
        ClassificationView::ExistingPattern(PatternView::Outbound { assign_as_expense, .. }, _)
        | ClassificationView::NewPatternOutbound { assign_as_expense, .. }
        | ClassificationView::NoPatternOutbound { assign_as_expense, .. } => if assign_as_expense {
            EntryType::Expense
        } else {
            EntryType::Transfer
        },
    }
}

/// The category that a classification assigns.
pub open spec fn category_assigned(classification: ClassificationView) -> Seq<char> {
    match classification {
        ClassificationView::ExistingPattern(pattern, _) => pattern.category(),
        ClassificationView::NewPatternInbound { category, .. } => category,
        ClassificationView::NewPatternOutbound { category, .. } => category,
        ClassificationView::NoPatternInbound { category, .. } => category,
        ClassificationView::NoPatternOutbound { category, .. } => category,
    }
}

/// The entry that goes into the report: description, amount and date of
/// the statement line, with what the classification assigns.
pub open spec fn categorised(entry: RawEntryView, classification: ClassificationView)
    -> CategorisedEntryView {
    CategorisedEntryView {
        sphere: sphere_assigned(classification),
        category: category_assigned(classification),
        description: entry.description,
        amount: entry.amount,
        entry_type: type_assigned(classification),
        date: entry.date,
    }
}

/// What the catalogue learns: nothing from a matched pattern, else the
/// category, and the pattern where one is to be learned.
pub open spec fn lesson_of(classification: ClassificationView) -> LessonView {
    match classification {
        ClassificationView::ExistingPattern(_, _) => LessonView { category: None, pattern: None },
        ClassificationView::NewPatternInbound { snippet, category, assign_as_income } => {
            LessonView {
                category: Some(category),
                pattern: Some(PatternView::Inbound { snippet, category, assign_as_income }),
            }
        },
        ClassificationView::NewPatternOutbound {
            snippet,
            category,
            assign_as_expense,
            assign_as_personal,
            require_confirmation,
        } => LessonView {
            category: Some(category),
            pattern: Some(
                PatternView::Outbound {
                    snippet,
                    category,
                    assign_as_expense,
                    assign_as_personal,
                    require_confirmation,
                },
            ),
        },
        ClassificationView::NoPatternInbound { category, .. } => LessonView {
            category: Some(category),
            pattern: None,
        },
        ClassificationView::NoPatternOutbound { category, .. } => LessonView {
            category: Some(category),
            pattern: None,
        },
    }
}

impl ConfigView {
    /// The catalogue after a lesson: with the category, if there is one,
    /// and then with the pattern, if there is one.
    pub open spec fn learned(self, lesson: LessonView) -> ConfigView {
        let with_category = match lesson.category {
            Some(category) => self.with_category(category),
            None => self,
        };
        match lesson.pattern {
            Some(pattern) => with_category.with_pattern(pattern),
            None => with_category,
        }
    }
}

impl Config {
    /// Takes in what a classification teaches: a category that is not
    /// known yet is added, and so is a new pattern.
    pub fn learn(&mut self, lesson: Lesson)
        ensures
            final(self)@ == old(self)@.learned(lesson@),
            old(self)@.well_formed() ==> final(self)@.well_formed(),
    {
        match lesson.category {
            Some(category) => {
                self.add_category(category.as_str());
            },
            None => {},
        }
        match lesson.pattern {
            Some(pattern) => {
                self.learn_pattern(pattern);
            },
            None => {},
        }
    }
}

/// Turns a classified statement line into the entry for the report and
/// the lesson for the catalogue.
pub fn categorise(entry: RawEntry, classification: Classification) -> (outcome: (
    CategorisedEntry,
    Lesson,
))
    ensures
        outcome.0@ == categorised(entry@, classification@),
        outcome.1@ == lesson_of(classification@),
{
    let (sphere, category, entry_type, lesson) = match classification {
        Classification::ExistingPattern(pattern, pattern_override) => {
            let personal = match pattern_override {
                Some(chosen) => chosen.is_personal,
                None => match pattern {
                    Pattern::Inbound { .. } => true,
                    Pattern::Outbound { assign_as_personal, .. } => *assign_as_personal,
                },
            };
            let entry_type = match pattern {
                Pattern::Inbound { assign_as_income, .. } => if *assign_as_income {
                    EntryType::Income
                } else {
                    EntryType::Transfer
                },
                Pattern::Outbound { assign_as_expense, .. } => if *assign_as_expense {
                    EntryType::Expense
                } else {
                    EntryType::Transfer
                },
            };
            (
                if personal {
                    Sphere::Personal
                } else {
                    Sphere::Work
                },
                pattern.category().clone(),
                entry_type,
                Lesson { category: None, pattern: None },
            )
        },
        Classification::NewPatternInbound { snippet, category, assign_as_income } => (
            Sphere::Personal,
            category.clone(),
            if assign_as_income {
                EntryType::Income
            } else {
                EntryType::Transfer
            },
            Lesson {
                category: Some(category.clone()),
                pattern: Some(Pattern::Inbound { snippet, category, assign_as_income }),
            },
        ),
        Classification::NewPatternOutbound {
            snippet,
            category,
            assign_as_expense,
            assign_as_personal,
            require_confirmation,
        } => (
            if assign_as_personal {
                Sphere::Personal
            } else {
                Sphere::Work
            },
            category.clone(),
            if assign_as_expense {
                EntryType::Expense
            } else {
                EntryType::Transfer
            },
            Lesson {
                category: Some(category.clone()),
                pattern: Some(
                    Pattern::Outbound {
                        snippet,
                        category,
                        assign_as_expense,
                        assign_as_personal,
                        require_confirmation,
                    },
                ),
            },
        ),
        Classification::NoPatternInbound { category, assign_as_income } => (
            Sphere::Personal,
            category.clone(),
            if assign_as_income {
                EntryType::Income
            } else {
                EntryType::Transfer
            },
            Lesson { category: Some(category), pattern: None },
        ),
        Classification::NoPatternOutbound { category, assign_as_expense, assign_as_personal } => (
            if assign_as_personal {
                Sphere::Personal
            } else {
                Sphere::Work
            },
            category.clone(),
            if assign_as_expense {
                EntryType::Expense
            } else {
                EntryType::Transfer
            },
            Lesson { category: Some(category), pattern: None },
        ),
    };
    (
        CategorisedEntry {
            sphere,
            category,
            description: entry.description,
            amount: entry.amount,
            entry_type,
            date: entry.date,
        },
        lesson,
    )
}

/// The state of a run: the catalogue, the report so far, and the
/// fingerprints of the lines that were recorded.
#[derive(Debug)]
pub struct Session {
    pub config: Config,
    pub report: ActivityReport,
    pub processed_fingerprints: Vec<String>,
}

/// What a [`Session`] holds, as mathematical values.
pub struct SessionView {
    pub config: ConfigView,
    pub report: Seq<CategorisedEntryView>,
    pub processed: Seq<Seq<char>>,
}

impl View for Session {
    type V = SessionView;

    open spec fn view(&self) -> SessionView {
        SessionView {
            config: self.config@,
            report: self.report@,
            processed: texts(self.processed_fingerprints@),
        }
    }
}

impl SessionView {
    /// An entry with this fingerprint was recorded before in this run.
    pub open spec fn has_seen(self, fingerprint: Seq<char>) -> bool {
        self.processed.contains(fingerprint)
    }

    /// The pattern that the catalogue has for an entry.
    pub open spec fn pattern_for(self, entry: RawEntryView) -> Option<PatternView> {
        found_pattern(self.config.bucket(entry.direction), entry.description)
    }

    /// What is to be done next for an entry, given the answers so far.
    ///
    /// An entry that was seen before is first put to the person, who may
    /// skip it. Otherwise, and if the person goes on, the questions depend
    /// on whether the catalogue has a pattern for the entry.
    pub open spec fn next_step(self, entry: RawEntryView, answers: AnswersView) -> Next {
        if self.has_seen(entry.fingerprint) && answers.skip_duplicate is None {
            Next::Ask(Question::SkipDuplicate)
        } else if self.has_seen(entry.fingerprint) && answers.skip_duplicate == Some(true) {
            Next::Skip
        } else {
            match self.pattern_for(entry) {
                Some(pattern) => next_with_pattern(pattern, answers),
                None => next_without_pattern(entry.direction, answers),
            }
        }
    }

    /// The run after an entry was recorded with a classification.
    pub open spec fn recorded(self, entry: RawEntryView, classification: ClassificationView)
        -> SessionView {
        SessionView {
            config: self.config.learned(lesson_of(classification)),
            report: self.report.push(categorised(entry, classification)),
            processed: self.processed.push(entry.fingerprint),
        }
    }
}

impl Answers {
    /// No answer yet.
    pub fn none() -> (answers: Answers)
        ensures
            answers.skip_duplicate is None,
            answers.sphere_override is None,
            answers.category is None,
            !answers.new_category,
            answers.transfer is None,
            answers.personal is None,
            answers.create_pattern is None,
            answers.snippet is None,
            answers.require_confirmation is None,
    {
        Answers {
            skip_duplicate: None,
            sphere_override: None,
            category: None,
            new_category: false,
            transfer: None,
            personal: None,
            create_pattern: None,
            snippet: None,
            require_confirmation: None,
        }
    }
}

/// The bundle for the classifier, made of the matched pattern, if any, and
/// the answers.
pub fn choices_from<'a>(
    existing: Option<&'a Pattern>,
    direction: Direction,
    answers: Answers,
) -> (choices: UiChoices<'a>)
    requires
        match existing {
            Some(pattern) => next_with_pattern(pattern@, answers@) == Next::Classify,
            None => next_without_pattern(direction, answers@) == Next::Classify,
        },
    ensures
        choices == choices_of(existing, direction, answers),
        choices.complete_for(direction),
{
    match existing {
        Some(pattern) => {
            let pattern_override = match pattern {
                Pattern::Outbound { assign_as_personal, require_confirmation, .. } => {
                    if *require_confirmation && answers.sphere_override.unwrap() {
                        Some(PatternOverride { is_personal: !*assign_as_personal })
                    } else {
                        None
                    }
                },
                Pattern::Inbound { .. } => None,
            };
            UiChoices {
                existing_pattern: Some(pattern),
                pattern_override,
                category: None,
                transfer: None,
                sphere: None,
                create_pattern: None,
                snippet: None,
                require_confirmation: None,
            }
        },
        None => {
            let transfer = answers.transfer.unwrap();
            let create_pattern = answers.create_pattern.unwrap();
            let outbound = match direction {
                Direction::Outbound => true,
                Direction::Inbound => false,
            };
            let sphere = if !transfer && outbound && !answers.personal.unwrap() {
                Sphere::Work
            } else {
                Sphere::Personal
            };
            let require_confirmation = if create_pattern {
                Some(outbound && !transfer && answers.require_confirmation.unwrap())
            } else {
                None
            };
            UiChoices {
                existing_pattern: None,
                pattern_override: None,
                category: answers.category,
                transfer: Some(transfer),
                sphere: Some(sphere),
                create_pattern: Some(create_pattern),
                snippet: if create_pattern {
                    answers.snippet
                } else {
                    None
                },
                require_confirmation,
            }
        },
    }
}

impl Session {
    /// A run that starts with the given catalogue, an empty report and
    /// nothing processed.
    pub fn new(config: Config) -> (session: Session)
        ensures
            session@.config == config@,
            session@.report == Seq::<CategorisedEntryView>::empty(),
            session@.processed == Seq::<Seq<char>>::empty(),
    {
        let session = Session {
            config,
            report: ActivityReport::new(),
            processed_fingerprints: Vec::new(),
        };
        assert(session@.processed =~= Seq::empty());
        session
    }

    /// Whether an entry with the same fingerprint was recorded before in
    /// this run.
    pub fn has_seen(&self, entry: &RawEntry) -> (seen: bool)
        ensures
            seen == self@.has_seen(entry.fingerprint@),
    {
        let mut index: usize = 0;
        while index < self.processed_fingerprints.len()
            invariant
                index <= self.processed_fingerprints.len(),
                forall|earlier: int|
                    0 <= earlier < index ==> (#[trigger] texts(
                        self.processed_fingerprints@,
                    )[earlier]) != entry.fingerprint@,
            decreases self.processed_fingerprints.len() - index,
        {
            if self.processed_fingerprints[index] == entry.fingerprint {
                assert(texts(self.processed_fingerprints@)[index as int] == entry.fingerprint@);
                return true;
            }
            index += 1;
        }
        false
    }

    /// What is to be done next for an entry, given the answers so far.
    pub fn next(&self, entry: &RawEntry, answers: &Answers) -> (next: Next)
        ensures
            next == self@.next_step(entry@, answers@),
    {
        if self.has_seen(entry) {
            match answers.skip_duplicate {
                None => { return Next::Ask(Question::SkipDuplicate); },
                Some(true) => { return Next::Skip; },
                Some(false) => {},
            }
        }
        let outbound = match entry.direction {
            Direction::Outbound => true,
            Direction::Inbound => false,
        };
        match self.config.find_pattern(entry) {
            Some(pattern) => match pattern {
                Pattern::Outbound { assign_as_personal, require_confirmation, .. } => {
                    if *require_confirmation && answers.sphere_override.is_none() {
                        Next::Ask(
                            Question::SphereOverride { normally_personal: *assign_as_personal },
                        )
                    } else {
                        Next::Classify
                    }
                },
                Pattern::Inbound { .. } => Next::Classify,
            },
            None => {
                if answers.category.is_none() {
                    if answers.new_category {
                        return Next::Ask(Question::NewCategory);
                    } else {
                        return Next::Ask(Question::Category);
                    }
                }
                let transfer = match answers.transfer {
                    Some(transfer) => transfer,
                    None => { return Next::Ask(Question::Transfer); },
                };
                if !transfer && outbound && answers.personal.is_none() {
                    return Next::Ask(Question::Personal);
                }
                let create_pattern = match answers.create_pattern {
                    Some(create_pattern) => create_pattern,
                    None => { return Next::Ask(Question::CreatePattern); },
                };
                if create_pattern && answers.snippet.is_none() {
                    return Next::Ask(Question::Snippet);
                }
                if create_pattern && outbound && !transfer
                    && answers.require_confirmation.is_none() {
                    return Next::Ask(
                        Question::RequireConfirmation { personal: answers.personal.unwrap() },
                    );
                }
                Next::Classify
            },
        }
    }

    /// Finishes an entry for which no question is open.
    ///
    /// An entry that is to be skipped leaves the run as it was: report,
    /// catalogue and processed fingerprints. Any other entry is classified
    /// from the answers; its categorised form goes to the end of the
    /// report, the catalogue learns what the classification teaches, and
    /// the entry's fingerprint is noted.
    pub fn process(&mut self, entry: RawEntry, answers: Answers) -> (done: Processed)
        requires
            !(old(self)@.next_step(entry@, answers@) is Ask),
        ensures
            old(self)@.next_step(entry@, answers@) == Next::Skip ==> done == Processed::Skipped
                && *final(self) == *old(self),
            old(self)@.next_step(entry@, answers@) == Next::Classify ==> done == Processed::Recorded
                && final(self)@ == old(self)@.recorded(
                entry@,
                classification_for(&old(self).config, entry, answers)@,
            ),
            old(self)@.has_seen(entry.fingerprint@) && answers.skip_duplicate == Some(true) ==> done
                == Processed::Skipped && *final(self) == *old(self),
            old(self)@.config.well_formed() ==> final(self)@.config.well_formed(),
    {
        if self.has_seen(&entry) {
            match answers.skip_duplicate {
                Some(true) => { return Processed::Skipped; },
                _ => {},
            }
        }
        let fingerprint = entry.fingerprint.clone();
        let direction = entry.direction;
        let existing = self.config.find_pattern(&entry);
        let choices = choices_from(existing, direction, answers);
        let classification = create_classification_from_choices(direction, choices);
        let (categorised_entry, lesson) = categorise(entry, classification);
        self.config.learn(lesson);
        self.report.add(categorised_entry);
        self.processed_fingerprints.push(fingerprint);
        assert(texts(self.processed_fingerprints@) =~= old(self)@.processed.push(fingerprint@));
        Processed::Recorded
    }
}

/// An entry that was seen before and that the person chose to skip is
/// skipped, whatever else was answered: [`Session::process`] then leaves
/// report, catalogue and fingerprints as they were.
pub proof fn lemma_skipped_duplicate(session: SessionView, entry: RawEntryView, answers: AnswersView)
    requires
        session.has_seen(entry.fingerprint),
        answers.skip_duplicate == Some(true),
    ensures
        session.next_step(entry, answers) == Next::Skip,
{
}

/// The classification that [`Session::process`] gives an entry.
pub open spec fn classification_for<'a>(config: &'a Config, entry: RawEntry, answers: Answers)
    -> Classification<'a> {
    crate::entry_manager::classification_of(
        entry.direction,
        choices_of(
            config.stored_match(entry.direction, entry.description@),
            entry.direction,
            answers,
        ),
    )
}

} // verus!
