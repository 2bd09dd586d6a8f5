//! The activity report: the entries classified in one run, their totals,
//! and their grouping by category.
use vstd::prelude::*;
use vstd::string::StringExecFns;
use crate::amount::{Amount, AmountView};
use crate::calendar::{Date, DateView};
use crate::text::texts;
use crate::{EntryType, Sphere};

verus! {

/// A statement line with its classification.
#[derive(Debug, Clone, PartialEq)]
pub struct CategorisedEntry {
    pub sphere: Sphere,
    pub category: String,
    pub description: String,
    pub amount: Amount,
    pub entry_type: EntryType,
    pub date: Date,
}

/// What a [`CategorisedEntry`] holds, as mathematical values.
pub struct CategorisedEntryView {
    pub sphere: Sphere,
    pub category: Seq<char>,
    pub description: Seq<char>,
    pub amount: AmountView,
    pub entry_type: EntryType,
    pub date: DateView,
}

impl View for CategorisedEntry {
    type V = CategorisedEntryView;

    open spec fn view(&self) -> CategorisedEntryView {
        CategorisedEntryView {
            sphere: self.sphere,
            category: self.category@,
            description: self.description@,
            amount: self.amount@,
            entry_type: self.entry_type,
            date: self.date@,
        }
    }
}

impl CategorisedEntryView {
    /// The entry is of the given type and, where a sphere is asked for, of
    /// that sphere.
    pub open spec fn counts_for(self, sphere: Option<Sphere>, entry_type: EntryType) -> bool {
        self.entry_type == entry_type && (sphere is None || sphere == Some(self.sphere))
    }

    /// The line that the entry is shown as: date, description and amount,
    /// separated by single spaces.
    pub open spec fn text(self) -> Seq<char> {
        self.date.text() + " "@ + self.description + " "@ + self.amount.text()
    }
}

impl CategorisedEntry {
    /// The entry on one line.
    pub fn to_string(&self) -> (line: String)
        ensures
            line@ == self@.text(),
    {
        let mut line = self.date.to_string();
        line.append(" ");
        line.append(self.description.as_str());
        line.append(" ");
        line.append(self.amount.to_string().as_str());
        line
    }
}

/// The sum of the amounts of the entries that count, added one after the
/// other to `start` in the order of the list. `None` as soon as a sum
/// cannot be held.
pub open spec fn total_of(
    entries: Seq<CategorisedEntryView>,
    start: AmountView,
    sphere: Option<Sphere>,
    entry_type: EntryType,
) -> Option<AmountView>
    decreases entries.len(),
{
    if entries.len() == 0 {
        Some(start)
    } else {
        match total_of(entries.drop_last(), start, sphere, entry_type) {
            Some(total) => if entries.last().counts_for(sphere, entry_type) {
                total.plus(entries.last().amount)
            } else {
                Some(total)
            },
            None => None,
        }
    }
}

/// The same sum as [`total_of`] where every addition is plain to see (see
/// [`crate::amount::plain_sum`]), and `None` where one is not.
pub open spec fn plain_total_of(
    entries: Seq<CategorisedEntryView>,
    start: AmountView,
    sphere: Option<Sphere>,
    entry_type: EntryType,
) -> Option<AmountView>
    decreases entries.len(),
{
    if entries.len() == 0 {
        Some(start)
    } else {
        match plain_total_of(entries.drop_last(), start, sphere, entry_type) {
            Some(total) => if entries.last().counts_for(sphere, entry_type) {
                total.plain_plus(entries.last().amount)
            } else {
                Some(total)
            },
            None => None,
        }
    }
}

/// The entries of the list that are of the given type, in order.
pub open spec fn of_type(entries: Seq<CategorisedEntryView>, entry_type: EntryType) -> Seq<
    CategorisedEntryView,
>
    decreases entries.len(),
{
    if entries.len() == 0 {
        entries
    } else if entries.last().entry_type == entry_type {
        of_type(entries.drop_last(), entry_type).push(entries.last())
    } else {
        of_type(entries.drop_last(), entry_type)
    }
}

/// The entries of the list that belong to a category and a sphere, in
/// order.
pub open spec fn members(
    entries: Seq<CategorisedEntryView>,
    category: Seq<char>,
    sphere: Sphere,
) -> Seq<CategorisedEntryView>
    decreases entries.len(),
{
    if entries.len() == 0 {
        entries
    } else if entries.last().category == category && entries.last().sphere == sphere {
        members(entries.drop_last(), category, sphere).push(entries.last())
    } else {
        members(entries.drop_last(), category, sphere)
    }
}

/// Once the running total of a list cannot be held, no longer list has a
/// total.
pub proof fn lemma_total_stays_none(
    entries: Seq<CategorisedEntryView>,
    upto: int,
    start: AmountView,
    sphere: Option<Sphere>,
    entry_type: EntryType,
)
    requires
        0 <= upto <= entries.len(),
        total_of(entries.take(upto), start, sphere, entry_type) is None,
    ensures
        total_of(entries, start, sphere, entry_type) is None,
    decreases entries.len() - upto,
{
    if upto < entries.len() {
        assert(entries.take(upto + 1).drop_last() =~= entries.take(upto));
        lemma_total_stays_none(entries, upto + 1, start, sphere, entry_type);
    } else {
        assert(entries.take(upto) =~= entries);
    }
}

/// Once the plain total of a list is not to be had, that of no longer list
/// is.
pub proof fn lemma_plain_total_stays_none(
    entries: Seq<CategorisedEntryView>,
    upto: int,
    start: AmountView,
    sphere: Option<Sphere>,
    entry_type: EntryType,
)
    requires
        0 <= upto <= entries.len(),
        plain_total_of(entries.take(upto), start, sphere, entry_type) is None,
    ensures
        plain_total_of(entries, start, sphere, entry_type) is None,
    decreases entries.len() - upto,
{
    if upto < entries.len() {
        assert(entries.take(upto + 1).drop_last() =~= entries.take(upto));
        lemma_plain_total_stays_none(entries, upto + 1, start, sphere, entry_type);
    } else {
        assert(entries.take(upto) =~= entries);
    }
}

/// The views of a list of entries, in order.
pub open spec fn entry_views(entries: Seq<CategorisedEntry>) -> Seq<CategorisedEntryView> {
    entries.map_values(|entry: CategorisedEntry| entry@)
}

/// The views of a list of borrowed entries, in order.
pub open spec fn borrowed_views(entries: Seq<&CategorisedEntry>) -> Seq<CategorisedEntryView> {
    entries.map_values(|entry: &CategorisedEntry| entry@)
}

/// The view of an amount that may be missing.
pub open spec fn optional_amount(amount: Option<Amount>) -> Option<AmountView> {
    crate::amount::view_of(amount)
}

/// The running total over a list of borrowed entries.
fn sum_matching(
    entries: &Vec<&CategorisedEntry>,
    start: Amount,
    sphere: Option<Sphere>,
    entry_type: EntryType,
) -> (total: Option<Amount>)
    ensures
        optional_amount(total) == total_of(borrowed_views(entries@), start@, sphere, entry_type),
        plain_total_of(borrowed_views(entries@), start@, sphere, entry_type) is Some
            ==> optional_amount(total) == plain_total_of(
            borrowed_views(entries@),
            start@,
            sphere,
            entry_type,
        ),
{
    let ghost views = borrowed_views(entries@);
    let mut total = start;
    let mut index: usize = 0;
    assert(views.take(0) =~= Seq::empty());
    while index < entries.len()
        invariant
            index <= entries.len(),
            views == borrowed_views(entries@),
            Some(total@) == total_of(views.take(index as int), start@, sphere, entry_type),
            plain_total_of(views.take(index as int), start@, sphere, entry_type) is Some ==> Some(
                total@,
            ) == plain_total_of(views.take(index as int), start@, sphere, entry_type),
        decreases entries.len() - index,
    {
        let entry = entries[index];
        assert(views.take(index + 1).drop_last() =~= views.take(index as int));
        assert(views.take(index + 1).last() == entry@);
        let counts = entry.entry_type == entry_type && match sphere {
            Some(wanted) => entry.sphere == wanted,
            None => true,
        };
        if counts {
            match total.checked_add(&entry.amount) {
                Some(sum) => {
                    total = sum;
                },
                None => {
                    proof {
                        lemma_total_stays_none(views, index + 1, start@, sphere, entry_type);
                        lemma_plain_total_stays_none(views, index + 1, start@, sphere, entry_type);
                    }
                    return None;
                },
            }
        }
        index += 1;
    }
    assert(views.take(index as int) =~= views);
    Some(total)
}

/// The entries of a list that are of the given type, in order.
fn select_type<'a>(entries: &Vec<&'a CategorisedEntry>, entry_type: EntryType) -> (selected: Vec<
    &'a CategorisedEntry,
>)
    ensures
        borrowed_views(selected@) == of_type(borrowed_views(entries@), entry_type),
{
    let ghost views = borrowed_views(entries@);
    let mut selected: Vec<&'a CategorisedEntry> = Vec::new();
    let mut index: usize = 0;
    assert(views.take(0) =~= Seq::empty());
    assert(borrowed_views(selected@) =~= Seq::empty());
    while index < entries.len()
        invariant
            index <= entries.len(),
            views == borrowed_views(entries@),
            borrowed_views(selected@) == of_type(views.take(index as int), entry_type),
        decreases entries.len() - index,
    {
        let entry = entries[index];
        assert(views.take(index + 1).drop_last() =~= views.take(index as int));
        assert(views.take(index + 1).last() == entry@);
        if entry.entry_type == entry_type {
            let ghost before = borrowed_views(selected@);
            selected.push(entry);
            assert(borrowed_views(selected@) =~= before.push(entry@));
        }
        index += 1;
    }
    assert(views.take(index as int) =~= views);
    selected
}

/// The entries classified in one run, in the order in which they were
/// recorded.
#[derive(Debug)]
pub struct ActivityReport {
    pub entries: Vec<CategorisedEntry>,
}

impl View for ActivityReport {
    type V = Seq<CategorisedEntryView>;

    open spec fn view(&self) -> Seq<CategorisedEntryView> {
        entry_views(self.entries@)
    }
}

impl ActivityReport {
    /// The total of the entries of a sphere and a type, added to zero in
    /// the order of the report.
    pub open spec fn total_for(&self, sphere: Sphere, entry_type: EntryType) -> Option<AmountView> {
        total_of(self@, AmountView { mantissa: 0, scale: 0 }, Some(sphere), entry_type)
    }

    /// The same total where every addition is plain to see, as for
    /// amounts of one scale that stay small.
    pub open spec fn plain_total_for(&self, sphere: Sphere, entry_type: EntryType) -> Option<
        AmountView,
    > {
        plain_total_of(self@, AmountView { mantissa: 0, scale: 0 }, Some(sphere), entry_type)
    }

    /// A report without entries.
    pub fn new() -> (report: ActivityReport)
        ensures
            report@ == Seq::<CategorisedEntryView>::empty(),
    {
        let report = ActivityReport { entries: Vec::new() };
        assert(report@ =~= Seq::empty());
        report
    }

    /// Records an entry at the end of the report. Nothing is left out: an
    /// entry that equals an earlier one is recorded again.
    pub fn add(&mut self, entry: CategorisedEntry)
        ensures
            final(self)@ == old(self)@.push(entry@),
    {
        self.entries.push(entry);
        assert(self@ =~= old(self)@.push(entry@));
    }

    /// The entries of the report, borrowed, in order.
    pub fn borrowed(&self) -> (entries: Vec<&CategorisedEntry>)
        ensures
            borrowed_views(entries@) == self@,
            entries@.len() == self.entries@.len(),
            forall|i: int|
                0 <= i < entries@.len() ==> *(#[trigger] entries@[i]) == self.entries@[i],
    {
        let mut entries: Vec<&CategorisedEntry> = Vec::new();
        let mut index: usize = 0;
        while index < self.entries.len()
            invariant
                index <= self.entries.len(),
                entries@.len() == index,
                forall|i: int| 0 <= i < index ==> *(#[trigger] entries@[i]) == self.entries@[i],
            decreases self.entries.len() - index,
        {
            entries.push(&self.entries[index]);
            index += 1;
        }
        assert(borrowed_views(entries@) =~= self@);
        entries
    }

    /// The sum of the amounts of the entries of a sphere and a type, or
    /// `None` where the sum cannot be held.
    pub fn total(&self, sphere: Sphere, entry_type: EntryType) -> (total: Option<Amount>)
        ensures
            optional_amount(total) == self.total_for(sphere, entry_type),
            self.plain_total_for(sphere, entry_type) is Some ==> optional_amount(total)
                == self.plain_total_for(sphere, entry_type),
    {
        sum_matching(&self.borrowed(), Amount::zero(), Some(sphere), entry_type)
    }

    /// The sum of the personal expenses.
    pub fn total_personal(&self) -> (total: Amount)
        requires
            self.total_for(Sphere::Personal, EntryType::Expense) is Some,
        ensures
            Some(total@) == self.total_for(Sphere::Personal, EntryType::Expense),
            self.plain_total_for(Sphere::Personal, EntryType::Expense) is Some ==> Some(total@)
                == self.plain_total_for(Sphere::Personal, EntryType::Expense),
    {
        self.total(Sphere::Personal, EntryType::Expense).unwrap()
    }

    /// The sum of the work expenses.
    pub fn total_work(&self) -> (total: Amount)
        requires
            self.total_for(Sphere::Work, EntryType::Expense) is Some,
        ensures
            Some(total@) == self.total_for(Sphere::Work, EntryType::Expense),
            self.plain_total_for(Sphere::Work, EntryType::Expense) is Some ==> Some(total@)
                == self.plain_total_for(Sphere::Work, EntryType::Expense),
    {
        self.total(Sphere::Work, EntryType::Expense).unwrap()
    }
}

/// The entries of one category within one sphere.
#[derive(Debug, PartialEq)]
pub struct ReportCategory<'a> {
    pub description: String,
    pub entries: Vec<&'a CategorisedEntry>,
}

/// What a [`ReportCategory`] holds, as mathematical values.
pub struct ReportCategoryView {
    pub description: Seq<char>,
    pub entries: Seq<CategorisedEntryView>,
}

impl<'a> View for ReportCategory<'a> {
    type V = ReportCategoryView;

    open spec fn view(&self) -> ReportCategoryView {
        ReportCategoryView {
            description: self.description@,
            entries: borrowed_views(self.entries@),
        }
    }
}

impl ReportCategoryView {
    /// The total of the entries of a type, added to `0.00` in the order of
    /// the group. Entries of other types are passed over.
    pub open spec fn total_for(self, entry_type: EntryType) -> Option<AmountView> {
        total_of(self.entries, AmountView { mantissa: 0, scale: 2 }, None, entry_type)
    }

    /// The same total where every addition is plain to see, as for
    /// amounts of one scale that stay small.
    pub open spec fn plain_total_for(self, entry_type: EntryType) -> Option<AmountView> {
        plain_total_of(self.entries, AmountView { mantissa: 0, scale: 2 }, None, entry_type)
    }
}

impl<'a> ReportCategory<'a> {
    /// The sum of the amounts of the group's entries of a type, or `None`
    /// where the sum cannot be held.
    pub fn total(&self, entry_type: EntryType) -> (total: Option<Amount>)
        ensures
            optional_amount(total) == self@.total_for(entry_type),
            self@.plain_total_for(entry_type) is Some ==> optional_amount(total)
                == self@.plain_total_for(entry_type),
    {
        let start = Amount::new(0, 2).unwrap();
        sum_matching(&self.entries, start, None, entry_type)
    }

    /// The sum of the group's expenses.
    pub fn total_expenses(&self) -> (total: Amount)
        requires
            self@.total_for(EntryType::Expense) is Some,
        ensures
            Some(total@) == self@.total_for(EntryType::Expense),
            self@.plain_total_for(EntryType::Expense) is Some ==> Some(total@)
                == self@.plain_total_for(EntryType::Expense),
    {
        self.total(EntryType::Expense).unwrap()
    }

    /// The sum of the group's income.
    pub fn total_income(&self) -> (total: Amount)
        requires
            self@.total_for(EntryType::Income) is Some,
        ensures
            Some(total@) == self@.total_for(EntryType::Income),
            self@.plain_total_for(EntryType::Income) is Some ==> Some(total@)
                == self@.plain_total_for(EntryType::Income),
    {
        self.total(EntryType::Income).unwrap()
    }

    /// The sum of the group's transfers.
    pub fn total_transfers(&self) -> (total: Amount)
        requires
            self@.total_for(EntryType::Transfer) is Some,
        ensures
            Some(total@) == self@.total_for(EntryType::Transfer),
            self@.plain_total_for(EntryType::Transfer) is Some ==> Some(total@)
                == self@.plain_total_for(EntryType::Transfer),
    {
        self.total(EntryType::Transfer).unwrap()
    }

    /// The group's expenses, in order.
    pub fn expense_entries(&self) -> (entries: Vec<&CategorisedEntry>)
        ensures
            borrowed_views(entries@) == of_type(self@.entries, EntryType::Expense),
    {
        select_type(&self.entries, EntryType::Expense)
    }

    /// The group's income entries, in order.
    pub fn income_entries(&self) -> (entries: Vec<&CategorisedEntry>)
        ensures
            borrowed_views(entries@) == of_type(self@.entries, EntryType::Income),
    {
        select_type(&self.entries, EntryType::Income)
    }

    /// The group's transfers, in order.
    pub fn transfer_entries(&self) -> (entries: Vec<&CategorisedEntry>)
        ensures
            borrowed_views(entries@) == of_type(self@.entries, EntryType::Transfer),
    {
        select_type(&self.entries, EntryType::Transfer)
    }
}

/// The groups of a sphere: for each category of the list, in order, the
/// entries of that category and sphere. A category without such entries
/// gives no group.
pub open spec fn groups(
    entries: Seq<CategorisedEntryView>,
    categories: Seq<Seq<char>>,
    sphere: Sphere,
) -> Seq<ReportCategoryView>
    decreases categories.len(),
{
    if categories.len() == 0 {
        Seq::empty()
    } else {
        let earlier = groups(entries, categories.drop_last(), sphere);
        let found = members(entries, categories.last(), sphere);
        if found.len() > 0 {
            earlier.push(ReportCategoryView { description: categories.last(), entries: found })
        } else {
            earlier
        }
    }
}

/// The views of a list of groups, in order.
pub open spec fn group_views<'a>(list: Seq<ReportCategory<'a>>) -> Seq<ReportCategoryView> {
    list.map_values(|group: ReportCategory<'a>| group@)
}

/// The report grouped by category within sphere. The entries are those of
/// the report, borrowed.
#[derive(Debug, PartialEq)]
pub struct CategorisedActivityReport<'a> {
    pub personal: Vec<ReportCategory<'a>>,
    pub work: Vec<ReportCategory<'a>>,
}

/// The entries of a report that belong to a category and a sphere.
fn select_members<'b>(report: &'b ActivityReport, category: &String, sphere: Sphere) -> (found: Vec<
    &'b CategorisedEntry,
>)
    ensures
        borrowed_views(found@) == members(report@, category@, sphere),
{
    let ghost views = report@;
    let mut found: Vec<&'b CategorisedEntry> = Vec::new();
    let mut index: usize = 0;
    assert(views.take(0) =~= Seq::empty());
    assert(borrowed_views(found@) =~= Seq::empty());
    while index < report.entries.len()
        invariant
            index <= report.entries.len(),
            views == report@,
            borrowed_views(found@) == members(views.take(index as int), category@, sphere),
        decreases report.entries.len() - index,
    {
        let entry = &report.entries[index];
        assert(views.take(index + 1).drop_last() =~= views.take(index as int));
        assert(views.take(index + 1).last() == entry@);
        if entry.category == *category && entry.sphere == sphere {
            let ghost before = borrowed_views(found@);
            found.push(entry);
            assert(borrowed_views(found@) =~= before.push(entry@));
        }
        index += 1;
    }
    assert(views.take(index as int) =~= views);
    found
}

impl<'a> CategorisedActivityReport<'a> {
    /// Groups the entries of a report by the given categories, in their
    /// order, within each sphere. Only categories with at least one entry
    /// in a sphere get a group there.
    pub fn new<'b>(report: &'b ActivityReport, categories: &Vec<String>) -> (grouped:
        CategorisedActivityReport<'b>)
        ensures
            group_views(grouped.personal@) == groups(
                report@,
                texts(categories@),
                Sphere::Personal,
            ),
            group_views(grouped.work@) == groups(
                report@,
                texts(categories@),
                Sphere::Work,
            ),
    {
        let ghost names = texts(categories@);
        let mut work_categories: Vec<ReportCategory<'b>> = Vec::new();
        let mut personal_categories: Vec<ReportCategory<'b>> = Vec::new();
        let mut index: usize = 0;
        assert(names.take(0) =~= Seq::empty());
        assert(group_views(work_categories@) =~= Seq::empty());
        assert(group_views(personal_categories@) =~= Seq::empty());
        while index < categories.len()
            invariant
                index <= categories.len(),
                names == texts(categories@),
                group_views(personal_categories@) == groups(
                    report@,
                    names.take(index as int),
                    Sphere::Personal,
                ),
                group_views(work_categories@) == groups(
                    report@,
                    names.take(index as int),
                    Sphere::Work,
                ),
            decreases categories.len() - index,
        {
            let category = &categories[index];
            assert(names.take(index + 1).drop_last() =~= names.take(index as int));
            assert(names.take(index + 1).last() == category@);
            let work_entries = select_members(report, category, Sphere::Work);
            let personal_entries = select_members(report, category, Sphere::Personal);
            if work_entries.len() > 0 {
                let ghost before = group_views(work_categories@);
                let group = ReportCategory { description: category.clone(), entries: work_entries };
                work_categories.push(group);
                assert(group_views(work_categories@) =~= before.push(group@));
            }
            if personal_entries.len() > 0 {
                let ghost before = group_views(personal_categories@);
                let group = ReportCategory {
                    description: category.clone(),
                    entries: personal_entries,
                };
                personal_categories.push(group);
                assert(group_views(personal_categories@) =~= before.push(group@));
            }
            index += 1;
        }
        assert(names.take(index as int) =~= names);
        CategorisedActivityReport { work: work_categories, personal: personal_categories }
    }
}

} // verus!
