//! What is shown at the terminal and how what is typed there is read.
//!
//! Nothing here prints or reads: each function gives the text to show, or
//! reads one line that was typed.
use vstd::prelude::*;
use vstd::string::StringExecFns;
use crate::amount::AmountView;
use crate::raw_entry::{display_text, RawEntry, RawEntryView};
use crate::report::{
    borrowed_views, group_views, of_type, ActivityReport, CategorisedActivityReport,
    CategorisedEntryView, ReportCategory, ReportCategoryView,
};
use crate::session::{Answers, AnswersView, Next, Question, SessionView};
use crate::text::{same_text, texts, trim, trimmed};
use crate::{EntryType, Sphere};

verus! {

/// `left` comes before `right`, or is equal to it, when strings are
/// compared character by character, a shorter string before its
/// extensions.
pub open spec fn text_le(left: Seq<char>, right: Seq<char>) -> bool
    decreases left.len(),
{
    if left.len() == 0 {
        true
    } else if right.len() == 0 {
        false
    } else if left[0] != right[0] {
        (left[0] as u32) < (right[0] as u32)
    } else {
        text_le(left.drop_first(), right.drop_first())
    }
}

/// A list of strings is in ascending order.
pub open spec fn ascending(list: Seq<Seq<char>>) -> bool {
    forall|i: int, j: int|
        0 <= i <= j < list.len() ==> text_le(#[trigger] list[i], #[trigger] list[j])
}

/// Trusted: `sort` on a vector of strings. The strings are the same ones,
/// each as often as before, in ascending order.
#[verifier::external_body]
fn sort_strings(list: &mut Vec<String>)
    ensures
        final(list)@.len() == old(list)@.len(),
        texts(final(list)@).to_multiset() == texts(old(list)@).to_multiset(),
        ascending(texts(final(list)@)),
{
    list.sort();
}

/// The answer to a question with two answers: `Some(true)` for `yes`,
/// `Some(false)` for `no`, where what was typed is one of them once
/// trimmed.
pub open spec fn choice(input: Seq<char>, yes: Seq<char>, no: Seq<char>) -> Option<bool> {
    if trimmed(input) == yes {
        Some(true)
    } else if trimmed(input) == no {
        Some(false)
    } else {
        None
    }
}

/// The answer to the question whether an entry is a transfer: `y` is yes,
/// `n` and an empty line are no.
pub open spec fn transfer_answer(input: Seq<char>) -> Option<bool> {
    if trimmed(input).len() == 0 || trimmed(input) == "n"@ {
        Some(false)
    } else if trimmed(input) == "y"@ {
        Some(true)
    } else {
        None
    }
}

/// The text that was typed, trimmed, unless nothing is left of it.
pub open spec fn text_answer(input: Seq<char>) -> Option<Seq<char>> {
    if trimmed(input).len() == 0 {
        None
    } else {
        Some(trimmed(input))
    }
}

/// The word for a sphere.
pub open spec fn sphere_word(personal: bool) -> Seq<char> {
    if personal {
        "personal"@
    } else {
        "work"@
    }
}

/// The text of a question.
pub open spec fn prompt_text(question: Question) -> Seq<char> {
    match question {
        Question::SkipDuplicate => "Would you like to skip this entry [y/n]?"@,
        Question::SphereOverride { normally_personal } => {
            "This type of entry is normally assigned to "@ + sphere_word(normally_personal)
                + ", would you prefer to assing this entry to "@ + sphere_word(!normally_personal)
                + " [y/n]?"@
        },
        Question::Category => "Enter the existing category, or leave blank to add a new category:"@,
        Question::NewCategory => "New category:"@,
        Question::Transfer => "Does this entry represent a transfer between accounts? [n/y]"@,
        Question::Personal => "Is this a work or a personal entry [p/w]?"@,
        Question::CreatePattern => "Would you like to create a pattern from this entry [y/n]?"@,
        Question::Snippet => "Please provide the snippet"@,
        Question::RequireConfirmation { personal } => {
            "Should this always be assigned to "@ + sphere_word(personal) + " [y/n]?"@
        },
    }
}

/// Where the dialogue about the category stands.
#[derive(Debug, Clone, Copy, PartialEq, Eq, Structural)]
pub enum CategoryStage {
    /// The name of a known category was asked for.
    Existing,
    /// The name of a new category was asked for.
    New,
}

/// How the dialogue about the category goes on after a line was typed.
#[derive(Debug, PartialEq, Eq)]
pub enum CategoryStep {
    /// The category is chosen.
    Chosen(String),
    /// The line was empty: the name of a new category is asked for.
    AskNew,
    /// The line named no known category: the question is put again.
    Unknown(String),
    /// No name was given for the new category: the dialogue starts over.
    Invalid,
}

/// What a [`CategoryStep`] holds, as mathematical values.
pub enum CategoryStepView {
    Chosen(Seq<char>),
    AskNew,
    Unknown(Seq<char>),
    Invalid,
}

impl View for CategoryStep {
    type V = CategoryStepView;

    open spec fn view(&self) -> CategoryStepView {
        match *self {
            CategoryStep::Chosen(name) => CategoryStepView::Chosen(name@),
            CategoryStep::AskNew => CategoryStepView::AskNew,
            CategoryStep::Unknown(name) => CategoryStepView::Unknown(name@),
            CategoryStep::Invalid => CategoryStepView::Invalid,
        }
    }
}

/// The step that a typed line leads to in the dialogue about the category.
pub open spec fn category_step(existing: Seq<Seq<char>>, stage: CategoryStage, input: Seq<char>)
    -> CategoryStepView {
    match stage {
        CategoryStage::Existing => if trimmed(input).len() == 0 {
            CategoryStepView::AskNew
        } else if existing.contains(trimmed(input)) {
            CategoryStepView::Chosen(trimmed(input))
        } else {
            CategoryStepView::Unknown(trimmed(input))
        },
        CategoryStage::New => if trimmed(input).len() == 0 {
            CategoryStepView::Invalid
        } else {
            CategoryStepView::Chosen(trimmed(input))
        },
    }
}

/// The answer that is kept: the new one, or the one before where what was
/// typed is no answer.
pub open spec fn kept(new: Option<bool>, before: Option<bool>) -> Option<bool> {
    match new {
        Some(answer) => Some(answer),
        None => before,
    }
}

/// The answers after a line was typed in reply to a question. A line that
/// is no answer to the question leaves them as they were, with one
/// exception: no name for a new category sends the dialogue back to the
/// known categories.
pub open spec fn heard(
    before: AnswersView,
    question: Question,
    input: Seq<char>,
    categories: Seq<Seq<char>>,
) -> AnswersView {
    match question {
        Question::SkipDuplicate => AnswersView {
            skip_duplicate: kept(choice(input, "y"@, "n"@), before.skip_duplicate),
            ..before
        },
        Question::SphereOverride { .. } => AnswersView {
            sphere_override: kept(choice(input, "y"@, "n"@), before.sphere_override),
            ..before
        },
        Question::Category => match category_step(categories, CategoryStage::Existing, input) {
            CategoryStepView::Chosen(name) => AnswersView { category: Some(name), ..before },
            CategoryStepView::AskNew => AnswersView { new_category: true, ..before },
            _ => before,
        },
        Question::NewCategory => match category_step(categories, CategoryStage::New, input) {
            CategoryStepView::Chosen(name) => AnswersView { category: Some(name), ..before },
            _ => AnswersView { new_category: false, ..before },
        },
        Question::Transfer => AnswersView {
            transfer: kept(transfer_answer(input), before.transfer),
            ..before
        },
        Question::Personal => AnswersView {
            personal: kept(choice(input, "p"@, "w"@), before.personal),
            ..before
        },
        Question::CreatePattern => AnswersView {
            create_pattern: kept(choice(input, "y"@, "n"@), before.create_pattern),
            ..before
        },
        Question::Snippet => AnswersView {
            snippet: match text_answer(input) {
                Some(snippet) => Some(snippet),
                None => before.snippet,
            },
            ..before
        },
        Question::RequireConfirmation { .. } => AnswersView {
            require_confirmation: kept(choice(input, "n"@, "y"@), before.require_confirmation),
            ..before
        },
    }
}

/// The line shown when what was typed is no answer to the question, and
/// `None` when it is one.
pub open spec fn complaint(question: Question, input: Seq<char>, categories: Seq<Seq<char>>)
    -> Option<Seq<char>> {
    let invalid = Some("That is not a valid selection, please try again"@);
    match question {
        Question::Category => match category_step(categories, CategoryStage::Existing, input) {
            CategoryStepView::Unknown(name) => Some(
                "The category "@ + name + " does not exist. Please try again."@,
            ),
            _ => None,
        },
        Question::NewCategory => match category_step(categories, CategoryStage::New, input) {
            CategoryStepView::Invalid => Some("That category is invalid. Please try again."@),
            _ => None,
        },
        Question::Transfer => if transfer_answer(input) is None {
            invalid
        } else {
            None
        },
        Question::Snippet => if text_answer(input) is None {
            invalid
        } else {
            None
        },
        Question::Personal => if choice(input, "p"@, "w"@) is None {
            invalid
        } else {
            None
        },
        Question::RequireConfirmation { .. } => if choice(input, "n"@, "y"@) is None {
            invalid
        } else {
            None
        },
        Question::SkipDuplicate | Question::SphereOverride { .. } | Question::CreatePattern => {
            if choice(input, "y"@, "n"@) is None {
                invalid
            } else {
                None
            }
        },
    }
}

/// The lines that one group of the report is shown as: an empty line, the
/// category with the total of its expenses, a rule, and the expenses one
/// by one. `None` where the total cannot be held.
pub open spec fn group_lines(group: ReportCategoryView) -> Option<Seq<Seq<char>>> {
    match group.total_for(EntryType::Expense) {
        Some(total) => Some(
            seq![
                ""@,
                group.description + " "@ + total.text(),
                "********************************************"@,
            ] + of_type(group.entries, EntryType::Expense).map_values(
                |entry: CategorisedEntryView| entry.text(),
            ),
        ),
        None => None,
    }
}

/// The lines of the groups of a list, one group after the other.
pub open spec fn groups_lines(groups: Seq<ReportCategoryView>) -> Option<Seq<Seq<char>>>
    decreases groups.len(),
{
    if groups.len() == 0 {
        Some(Seq::empty())
    } else {
        match (groups_lines(groups.drop_last()), group_lines(groups.last())) {
            (Some(earlier), Some(last)) => Some(earlier + last),
            _ => None,
        }
    }
}

/// The lines that the groups of one sphere are shown as: the heading, a
/// rule, the groups, and an empty line.
pub open spec fn section_lines(heading: Seq<char>, groups: Seq<ReportCategoryView>) -> Option<
    Seq<Seq<char>>,
> {
    match groups_lines(groups) {
        Some(lines) => Some(seq![heading, "-----------------------------"@] + lines + seq![""@]),
        None => None,
    }
}

/// The lines that a grouped report is shown as: the personal expenses,
/// then the work expenses.
pub open spec fn report_lines(
    personal: Seq<ReportCategoryView>,
    work: Seq<ReportCategoryView>,
) -> Option<Seq<Seq<char>>> {
    match (
        section_lines("Categorised Personal Expenses"@, personal),
        section_lines("Categorised Work Expenses"@, work),
    ) {
        (Some(first), Some(second)) => Some(first + second),
        _ => None,
    }
}

/// The lines that the expense totals of a report are shown as: a heading
/// between empty lines, then the personal and the work expenses. `None`
/// where a total cannot be held.
pub open spec fn totals_lines(personal: Option<AmountView>, work: Option<AmountView>) -> Option<
    Seq<Seq<char>>,
> {
    match (personal, work) {
        (Some(personal), Some(work)) => Some(
            seq![
                ""@,
                "REPORT"@,
                ""@,
                "Personal Expense: "@ + personal.text(),
                "Work Expense: "@ + work.text(),
            ],
        ),
        _ => None,
    }
}

/// The view of a list of lines that may be missing.
pub open spec fn optional_texts(lines: Option<Vec<String>>) -> Option<Seq<Seq<char>>> {
    match lines {
        Some(list) => Some(texts(list@)),
        None => None,
    }
}

/// The view of a text that may be missing.
pub open spec fn optional_text(text: Option<String>) -> Option<Seq<char>> {
    match text {
        Some(t) => Some(t@),
        None => None,
    }
}

/// Reads an answer that is one of two words.
fn read_choice(input: &str, yes: &str, no: &str) -> (answer: Option<bool>)
    ensures
        answer == choice(input@, yes@, no@),
{
    let typed = trim(input);
    if same_text(typed, yes) {
        Some(true)
    } else if same_text(typed, no) {
        Some(false)
    } else {
        None
    }
}

/// Reads an answer that is a text.
fn read_text(input: &str) -> (answer: Option<String>)
    ensures
        optional_text(answer) == text_answer(input@),
{
    let typed = trim(input);
    if typed.is_empty() {
        None
    } else {
        Some(typed.to_owned())
    }
}

/// Puts the lines of `more` behind those of `lines`.
fn append_lines(lines: &mut Vec<String>, more: Vec<String>)
    ensures
        texts(final(lines)@) == texts(old(lines)@) + texts(more@),
{
    let mut rest = more;
    lines.append(&mut rest);
    assert(texts(lines@) =~= texts(old(lines)@) + texts(more@));
}

/// The terminal.
pub struct UI {}

impl UI {
    /// The line that an entry is shown as.
    pub fn display_entry(&self, entry: &RawEntry) -> (line: String)
        ensures
            line@ == display_text(entry@),
    {
        entry.to_string()
    }

    /// The question for the sphere, in its short form.
    pub fn type_prompt(&self) -> (line: String)
        ensures
            line@ == "Enter 'p' for personal or 'w' for work"@,
    {
        "Enter 'p' for personal or 'w' for work".to_owned()
    }

    /// The sphere that a typed line stands for: `personal` for `p`, `work`
    /// for anything else.
    pub fn get_type(&self, choice: &str) -> (sphere: &'static str)
        ensures
            sphere@ == sphere_word(trimmed(choice@) == "p"@),
    {
        if same_text(trim(choice), "p") {
            "personal"
        } else {
            "work"
        }
    }

    /// The line that tells which category a pattern chose.
    pub fn display_automap(&self, category: &str) -> (line: String)
        ensures
            line@ == "Automagically mapped to "@ + category@,
    {
        let mut line = "Automagically mapped to ".to_owned();
        line.append(category);
        line
    }

    /// The lines that the known categories are shown as: a heading, an
    /// empty line, and the categories in ascending order.
    pub fn display_categories(&self, categories: &Vec<String>) -> (lines: Vec<String>)
        ensures
            lines@.len() == categories@.len() + 2,
            lines@[0]@ == "Existing categories"@,
            lines@[1]@ == ""@,
            texts(lines@).skip(2).to_multiset() == texts(categories@).to_multiset(),
            ascending(texts(lines@).skip(2)),
    {
        let mut sorted = categories.clone();
        assert(texts(sorted@) =~= texts(categories@)) by {
            assert(sorted@.len() == categories@.len());
            assert forall|i: int| 0 <= i < sorted@.len() implies sorted@[i] == categories@[i] by {}
        }
        sort_strings(&mut sorted);
        let mut lines: Vec<String> = Vec::new();
        lines.push("Existing categories".to_owned());
        lines.push("".to_owned());
        let ghost ordered = sorted@;
        lines.append(&mut sorted);
        assert(texts(lines@).skip(2) =~= texts(ordered));
        lines
    }

    /// The step that a typed line leads to in the dialogue about the
    /// category.
    pub fn capture_category(
        &self,
        existing_categories: &Vec<String>,
        stage: CategoryStage,
        input: &str,
    ) -> (step: CategoryStep)
        ensures
            step@ == category_step(texts(existing_categories@), stage, input@),
    {
        let typed = trim(input);
        match stage {
            CategoryStage::Existing => {
                if typed.is_empty() {
                    return CategoryStep::AskNew;
                }
                let mut index: usize = 0;
                while index < existing_categories.len()
                    invariant
                        index <= existing_categories.len(),
                        typed@ == trimmed(input@),
                        typed@.len() != 0,
                        stage == CategoryStage::Existing,
                        forall|earlier: int|
                            0 <= earlier < index ==> (#[trigger] texts(
                                existing_categories@,
                            )[earlier]) != typed@,
                    decreases existing_categories.len() - index,
                {
                    if same_text(existing_categories[index].as_str(), typed) {
                        assert(texts(existing_categories@)[index as int] == typed@);
                        return CategoryStep::Chosen(typed.to_owned());
                    }
                    index += 1;
                }
                CategoryStep::Unknown(typed.to_owned())
            },
            CategoryStage::New => {
                if typed.is_empty() {
                    CategoryStep::Invalid
                } else {
                    CategoryStep::Chosen(typed.to_owned())
                }
            },
        }
    }

    /// The line that tells that a category is not known.
    pub fn unknown_category(&self, name: &str) -> (line: String)
        ensures
            line@ == "The category "@ + name@ + " does not exist. Please try again."@,
    {
        let mut line = "The category ".to_owned();
        line.append(name);
        line.append(" does not exist. Please try again.");
        line
    }

    /// Whether the entry is a transfer between accounts.
    pub fn is_transfer(&self, input: &str) -> (answer: Option<bool>)
        ensures
            answer == transfer_answer(input@),
    {
        let typed = trim(input);
        if typed.is_empty() || same_text(typed, "n") {
            Some(false)
        } else if same_text(typed, "y") {
            Some(true)
        } else {
            None
        }
    }

    /// Whether the entry is personal (`p`) rather than work (`w`).
    pub fn is_personal(&self, input: &str) -> (answer: Option<bool>)
        ensures
            answer == choice(input@, "p"@, "w"@),
    {
        read_choice(input, "p", "w")
    }

    /// Whether a pattern is to be made of the entry.
    pub fn create_pattern(&self, input: &str) -> (answer: Option<bool>)
        ensures
            answer == choice(input@, "y"@, "n"@),
    {
        read_choice(input, "y", "n")
    }

    /// The snippet of the new pattern.
    pub fn snippet(&self, input: &str) -> (answer: Option<String>)
        ensures
            optional_text(answer) == text_answer(input@),
    {
        read_text(input)
    }

    /// Whether the new pattern is to be confirmed each time. The question
    /// asks whether the sphere is always the same, so `n` is yes.
    pub fn require_confirmation(&self, input: &str) -> (answer: Option<bool>)
        ensures
            answer == choice(input@, "n"@, "y"@),
    {
        read_choice(input, "n", "y")
    }

    /// The question for a pattern, in its short form.
    pub fn pattern_prompt(&self) -> (line: String)
        ensures
            line@ == "Provide a pattern for this category or just hit enter"@,
    {
        "Provide a pattern for this category or just hit enter".to_owned()
    }

    /// The pattern that was typed, if any.
    pub fn capture_pattern(&self, input: &str) -> (answer: Option<String>)
        ensures
            optional_text(answer) == text_answer(input@),
    {
        read_text(input)
    }

    /// The line that tells that an entry was processed before.
    pub fn display_duplicate(&self) -> (line: String)
        ensures
            line@ == "An entry identical to this one has already been processed during this run"@,
    {
        "An entry identical to this one has already been processed during this run".to_owned()
    }

    /// Whether an entry that was processed before is to be skipped.
    pub fn skip_duplicate(&self, input: &str) -> (answer: Option<bool>)
        ensures
            answer == choice(input@, "y"@, "n"@),
    {
        read_choice(input, "y", "n")
    }

    /// The line that tells that an entry is skipped.
    pub fn skipping_duplicate(&self) -> (line: String)
        ensures
            line@ == "The entry has been skipped and will not be processed"@,
    {
        "The entry has been skipped and will not be processed".to_owned()
    }

    /// Whether the entry goes to the other sphere than its pattern says.
    pub fn sphere_override(&self, input: &str) -> (answer: Option<bool>)
        ensures
            answer == choice(input@, "y"@, "n"@),
    {
        read_choice(input, "y", "n")
    }

    /// The line that tells that an answer was none of those asked for.
    pub fn invalid_selection(&self) -> (line: String)
        ensures
            line@ == "That is not a valid selection, please try again"@,
    {
        "That is not a valid selection, please try again".to_owned()
    }

    /// The word for a sphere.
    fn sphere_name(personal: bool) -> (word: &'static str)
        ensures
            word@ == sphere_word(personal),
    {
        if personal {
            "personal"
        } else {
            "work"
        }
    }

    /// The text of a question.
    pub fn prompt(&self, question: Question) -> (line: String)
        ensures
            line@ == prompt_text(question),
    {
        match question {
            Question::SkipDuplicate => "Would you like to skip this entry [y/n]?".to_owned(),
            Question::SphereOverride { normally_personal } => {
                let mut line = "This type of entry is normally assigned to ".to_owned();
                line.append(UI::sphere_name(normally_personal));
                line.append(", would you prefer to assing this entry to ");
                line.append(UI::sphere_name(!normally_personal));
                line.append(" [y/n]?");
                line
            },
            Question::Category => {
                "Enter the existing category, or leave blank to add a new category:".to_owned()
            },
            Question::NewCategory => "New category:".to_owned(),
            Question::Transfer => {
                "Does this entry represent a transfer between accounts? [n/y]".to_owned()
            },
            Question::Personal => "Is this a work or a personal entry [p/w]?".to_owned(),
            Question::CreatePattern => {
                "Would you like to create a pattern from this entry [y/n]?".to_owned()
            },
            Question::Snippet => "Please provide the snippet".to_owned(),
            Question::RequireConfirmation { personal } => {
                let mut line = "Should this always be assigned to ".to_owned();
                line.append(UI::sphere_name(personal));
                line.append(" [y/n]?");
                line
            },
        }
    }

    /// Takes in the line that was typed in reply to a question. Returns the
    /// line to show where what was typed is no answer.
    pub fn hear(
        &self,
        question: Question,
        input: &str,
        answers: &mut Answers,
        categories: &Vec<String>,
    ) -> (message: Option<String>)
        ensures
            final(answers)@ == heard(old(answers)@, question, input@, texts(categories@)),
            optional_text(message) == complaint(question, input@, texts(categories@)),
    {
        match question {
            Question::SkipDuplicate => match self.skip_duplicate(input) {
                Some(answer) => {
                    answers.skip_duplicate = Some(answer);
                    None
                },
                None => Some(self.invalid_selection()),
            },
            Question::SphereOverride { .. } => match self.sphere_override(input) {
                Some(answer) => {
                    answers.sphere_override = Some(answer);
                    None
                },
                None => Some(self.invalid_selection()),
            },
            Question::Category => match self.capture_category(
                categories,
                CategoryStage::Existing,
                input,
            ) {
                CategoryStep::Chosen(name) => {
                    answers.category = Some(name);
                    None
                },
                CategoryStep::AskNew => {
                    answers.new_category = true;
                    None
                },
                CategoryStep::Unknown(name) => Some(self.unknown_category(name.as_str())),
                CategoryStep::Invalid => None,
            },
            Question::NewCategory => match self.capture_category(
                categories,
                CategoryStage::New,
                input,
            ) {
                CategoryStep::Chosen(name) => {
                    answers.category = Some(name);
                    None
                },
                _ => {
                    answers.new_category = false;
                    Some("That category is invalid. Please try again.".to_owned())
                },
            },
            Question::Transfer => match self.is_transfer(input) {
                Some(answer) => {
                    answers.transfer = Some(answer);
                    None
                },
                None => Some(self.invalid_selection()),
            },
            Question::Personal => match self.is_personal(input) {
                Some(answer) => {
                    answers.personal = Some(answer);
                    None
                },
                None => Some(self.invalid_selection()),
            },
            Question::CreatePattern => match self.create_pattern(input) {
                Some(answer) => {
                    answers.create_pattern = Some(answer);
                    None
                },
                None => Some(self.invalid_selection()),
            },
            Question::Snippet => match self.snippet(input) {
                Some(snippet) => {
                    answers.snippet = Some(snippet);
                    None
                },
                None => Some(self.invalid_selection()),
            },
            Question::RequireConfirmation { .. } => match self.require_confirmation(input) {
                Some(answer) => {
                    answers.require_confirmation = Some(answer);
                    None
                },
                None => Some(self.invalid_selection()),
            },
        }
    }

    /// The lines that the expense totals of a report are shown as.
    pub fn display_totals(&self, report: &ActivityReport) -> (lines: Option<Vec<String>>)
        ensures
            optional_texts(lines) == totals_lines(
                report.total_for(Sphere::Personal, EntryType::Expense),
                report.total_for(Sphere::Work, EntryType::Expense),
            ),
    {
        let personal = match report.total(Sphere::Personal, EntryType::Expense) {
            Some(total) => total,
            None => { return None; },
        };
        let work = match report.total(Sphere::Work, EntryType::Expense) {
            Some(total) => total,
            None => { return None; },
        };
        let mut personal_line = "Personal Expense: ".to_owned();
        personal_line.append(personal.to_string().as_str());
        let mut work_line = "Work Expense: ".to_owned();
        work_line.append(work.to_string().as_str());
        let mut lines: Vec<String> = Vec::new();
        lines.push("".to_owned());
        lines.push("REPORT".to_owned());
        lines.push("".to_owned());
        lines.push(personal_line);
        lines.push(work_line);
        assert(texts(lines@) =~= totals_lines(Some(personal@), Some(work@))->0);
        Some(lines)
    }

    /// The lines that one group is shown as.
    fn display_group(&self, group: &ReportCategory) -> (lines: Option<Vec<String>>)
        ensures
            optional_texts(lines) == group_lines(group@),
    {
        let total = match group.total(EntryType::Expense) {
            Some(total) => total,
            None => { return None; },
        };
        let mut title = group.description.clone();
        title.append(" ");
        title.append(total.to_string().as_str());
        let mut lines: Vec<String> = Vec::new();
        lines.push("".to_owned());
        lines.push(title);
        lines.push("********************************************".to_owned());
        let ghost head = texts(lines@);
        let expenses = group.expense_entries();
        let ghost shown = borrowed_views(expenses@);
        let mut index: usize = 0;
        while index < expenses.len()
            invariant
                index <= expenses.len(),
                shown == borrowed_views(expenses@),
                texts(lines@) == head + shown.take(index as int).map_values(
                    |entry: CategorisedEntryView| entry.text(),
                ),
            decreases expenses.len() - index,
        {
            let ghost before = texts(lines@);
            lines.push(expenses[index].to_string());
            assert(texts(lines@) =~= before.push(shown[index as int].text()));
            assert(shown.take(index + 1) =~= shown.take(index as int).push(shown[index as int]));
            index += 1;
        }
        assert(shown.take(index as int) =~= shown);
        Some(lines)
    }

    /// The lines that the groups of one sphere are shown as.
    pub fn display_category_expenses(
        &self,
        heading: &str,
        categories: &Vec<ReportCategory>,
    ) -> (lines: Option<Vec<String>>)
        ensures
            optional_texts(lines) == section_lines(
                heading@,
                group_views(categories@),
            ),
    {
        let ghost groups = group_views(categories@);
        let mut lines: Vec<String> = Vec::new();
        lines.push(heading.to_owned());
        lines.push("-----------------------------".to_owned());
        let ghost head = texts(lines@);
        let mut index: usize = 0;
        assert(groups.take(0) =~= Seq::empty());
        while index < categories.len()
            invariant
                index <= categories.len(),
                groups == group_views(categories@),
                groups_lines(groups.take(index as int)) == Some(texts(lines@).skip(2)),
                texts(lines@).take(2) == head,
                lines@.len() >= 2,
            decreases categories.len() - index,
        {
            assert(groups.take(index + 1).drop_last() =~= groups.take(index as int));
            assert(groups.take(index + 1).last() == categories@[index as int]@);
            match self.display_group(&categories[index]) {
                Some(more) => {
                    let ghost before = texts(lines@);
                    append_lines(&mut lines, more);
                    assert(texts(lines@).skip(2) =~= before.skip(2) + texts(more@));
                    assert(texts(lines@).take(2) =~= before.take(2));
                },
                None => {
                    proof {
                        lemma_lines_stay_none(groups, index + 1);
                    }
                    return None;
                },
            }
            index += 1;
        }
        assert(groups.take(index as int) =~= groups);
        let ghost before = texts(lines@);
        lines.push("".to_owned());
        assert(texts(lines@) =~= before.take(2) + before.skip(2) + seq![""@]);
        Some(lines)
    }

    /// The lines that a grouped report is shown as, or `None` where a total
    /// cannot be held.
    pub fn display_categorised_report(&self, cat_report: &CategorisedActivityReport) -> (lines:
        Option<Vec<String>>)
        ensures
            optional_texts(lines) == report_lines(
                group_views(cat_report.personal@),
                group_views(cat_report.work@),
            ),
    {
        let mut lines = match self.display_category_expenses(
            "Categorised Personal Expenses",
            &cat_report.personal,
        ) {
            Some(lines) => lines,
            None => { return None; },
        };
        match self.display_category_expenses("Categorised Work Expenses", &cat_report.work) {
            Some(more) => {
                append_lines(&mut lines, more);
                Some(lines)
            },
            None => None,
        }
    }
}

/// An answer that is taken in settles its question: the question that is
/// put next is another one.
pub proof fn lemma_answer_settles_question(
    session: SessionView,
    entry: RawEntryView,
    answers: AnswersView,
    question: Question,
    input: Seq<char>,
    categories: Seq<Seq<char>>,
)
    requires
        session.next_step(entry, answers) == Next::Ask(question),
        complaint(question, input, categories) is None,
    ensures
        session.next_step(entry, heard(answers, question, input, categories)) != Next::Ask(
            question,
        ),
{
}

/// Once the groups up to some place cannot all be shown, the whole list
/// cannot.
proof fn lemma_lines_stay_none(groups: Seq<ReportCategoryView>, upto: int)
    requires
        0 <= upto <= groups.len(),
        groups_lines(groups.take(upto)) is None,
    ensures
        groups_lines(groups) is None,
    decreases groups.len() - upto,
{
    if upto < groups.len() {
        assert(groups.take(upto + 1).drop_last() =~= groups.take(upto));
        lemma_lines_stay_none(groups, upto + 1);
    } else {
        assert(groups.take(upto) =~= groups);
    }
}

} // verus!
