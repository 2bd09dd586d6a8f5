//! One statement line, normalised and fingerprinted.
use vstd::prelude::*;
use vstd::string::StringExecFns;
use csv::StringRecord;
use crate::amount::{amount_from_str, Amount, AmountView};
use crate::calendar::{date_from_compact, Date, DateView};
use crate::digest::{fingerprint, fingerprint_of};
use crate::text::{trim, trimmed};

verus! {

/// A record of a CSV file, as the `csv` crate holds it.
#[verifier::external_type_specification]
#[verifier::external_body]
pub struct ExStringRecord(StringRecord);

/// The fields of a record, in order.
pub uninterp spec fn record_fields(record: StringRecord) -> Seq<Seq<char>>;

/// Trusted: `StringRecord::get`. The field at `index`, or `None` where the
/// record has no such field.
#[verifier::external_body]
fn field<'a>(record: &'a StringRecord, index: usize) -> (text: Option<&'a str>)
    ensures
        match text {
            Some(t) => index < record_fields(*record).len() && t@ == record_fields(
                *record,
            )[index as int],
            None => index >= record_fields(*record).len(),
        },
{
    record.get(index)
}

/// Whether money leaves the account or enters it.
#[derive(Debug, Clone, Copy, PartialEq, Eq, Structural)]
pub enum Direction {
    Outbound,
    Inbound,
}

/// Why a row is no statement line.
#[derive(Debug, Clone, Copy, PartialEq, Eq, Structural)]
pub enum RowError {
    /// The row has fewer than four fields.
    MissingField,
    /// The third field is no decimal number.
    BadAmount,
    /// The fourth field is no decimal number.
    BadBalance,
    /// The first field is no date of the form `YYYYMMDD`.
    BadDate,
}

/// A statement line: what the four fields of a row say, with the amount
/// split into its direction and its magnitude, and a fingerprint of the row.
#[derive(Debug, PartialEq)]
pub struct RawEntry {
    pub description: String,
    pub amount: Amount,
    pub direction: Direction,
    pub balance: Amount,
    pub date: Date,
    pub fingerprint: String,
}

/// What a [`RawEntry`] holds, as mathematical values.
pub struct RawEntryView {
    pub description: Seq<char>,
    pub amount: AmountView,
    pub direction: Direction,
    pub balance: AmountView,
    pub date: DateView,
    pub fingerprint: Seq<char>,
}

impl View for RawEntry {
    type V = RawEntryView;

    open spec fn view(&self) -> RawEntryView {
        RawEntryView {
            description: self.description@,
            amount: self.amount@,
            direction: self.direction,
            balance: self.balance@,
            date: self.date@,
            fingerprint: self.fingerprint@,
        }
    }
}

/// The direction that a signed amount stands for: zero and below leave the
/// account, anything above enters it.
pub open spec fn direction_of(signed: AmountView) -> Direction {
    if signed.mantissa <= 0 {
        Direction::Outbound
    } else {
        Direction::Inbound
    }
}

/// The word that a direction is printed as.
pub open spec fn direction_word(direction: Direction) -> Seq<char> {
    match direction {
        Direction::Outbound => "outbound"@,
        Direction::Inbound => "inbound"@,
    }
}

/// Whether a row with these fields is a statement line, and if not, the
/// first reason why.
pub open spec fn row_status(fields: Seq<Seq<char>>) -> Result<(), RowError> {
    if fields.len() < 4 {
        Err(RowError::MissingField)
    } else if amount_from_str(trimmed(fields[2])) is None {
        Err(RowError::BadAmount)
    } else if amount_from_str(trimmed(fields[3])) is None {
        Err(RowError::BadBalance)
    } else if date_from_compact(trimmed(fields[0])) is Err {
        Err(RowError::BadDate)
    } else {
        Ok(())
    }
}

/// The statement line that a row with these fields stands for: date,
/// description, signed amount and balance, each without surrounding
/// whitespace. The fingerprint is taken of the four trimmed fields as they
/// are written, one after the other.
pub open spec fn entry_of(fields: Seq<Seq<char>>) -> RawEntryView {
    let date = trimmed(fields[0]);
    let description = trimmed(fields[1]);
    let amount = trimmed(fields[2]);
    let balance = trimmed(fields[3]);
    let signed = amount_from_str(amount)->0;
    RawEntryView {
        description,
        amount: signed.magnitude(),
        direction: direction_of(signed),
        balance: amount_from_str(balance)->0,
        date: date_from_compact(date)->Ok_0,
        fingerprint: fingerprint_of(date + description + amount + balance),
    }
}

/// The line that an entry is shown as: date, direction, description, amount
/// and balance, separated by single spaces.
pub open spec fn display_text(entry: RawEntryView) -> Seq<char> {
    entry.date.text() + " "@ + direction_word(entry.direction) + " "@ + entry.description + " "@
        + entry.amount.text() + " "@ + entry.balance.text()
}

impl RawEntry {
    /// Tests whether a record is a statement line.
    pub fn check(csv_record: &StringRecord) -> (status: Result<(), RowError>)
        ensures
            status == row_status(record_fields(*csv_record)),
    {
        let (date, amount, balance) = match (
            field(csv_record, 0),
            field(csv_record, 1),
            field(csv_record, 2),
            field(csv_record, 3),
        ) {
            (Some(date), Some(_), Some(amount), Some(balance)) => (date, amount, balance),
            _ => { return Err(RowError::MissingField); },
        };
        if Amount::from_str(trim(amount)).is_none() {
            Err(RowError::BadAmount)
        } else if Amount::from_str(trim(balance)).is_none() {
            Err(RowError::BadBalance)
        } else if Date::parse(trim(date)).is_err() {
            Err(RowError::BadDate)
        } else {
            Ok(())
        }
    }

    /// The statement line that a record stands for.
    ///
    /// The record must be a statement line: see [`RawEntry::try_new`] for
    /// records of which that is not known.
    pub fn new(csv_record: StringRecord) -> (entry: RawEntry)
        requires
            row_status(record_fields(csv_record)) is Ok,
        ensures
            entry@ == entry_of(record_fields(csv_record)),
    {
        let date = trim(field(&csv_record, 0).unwrap());
        let description = trim(field(&csv_record, 1).unwrap());
        let amount = trim(field(&csv_record, 2).unwrap());
        let balance = trim(field(&csv_record, 3).unwrap());

        let mut raw = String::new();
        raw.append(date);
        raw.append(description);
        raw.append(amount);
        raw.append(balance);
        assert(raw@ == date@ + description@ + amount@ + balance@);

        let signed = Amount::from_str(amount).unwrap();
        RawEntry {
            description: description.to_owned(),
            amount: signed.abs(),
            direction: if signed.is_positive() {
                Direction::Inbound
            } else {
                Direction::Outbound
            },
            balance: Amount::from_str(balance).unwrap(),
            date: Date::parse(date).unwrap(),
            fingerprint: fingerprint(raw.as_str()),
        }
    }

    /// The statement line that a record stands for, or the reason why it is
    /// none. No entry is made of a record that fails.
    pub fn try_new(csv_record: StringRecord) -> (entry: Result<RawEntry, RowError>)
        ensures
            match entry {
                Ok(e) => row_status(record_fields(csv_record)) is Ok && e@ == entry_of(
                    record_fields(csv_record),
                ),
                Err(reason) => row_status(record_fields(csv_record)) == Err::<(), RowError>(reason),
            },
    {
        match RawEntry::check(&csv_record) {
            Ok(()) => Ok(RawEntry::new(csv_record)),
            Err(reason) => Err(reason),
        }
    }

    /// The entry on one line, as it is shown before it is classified.
    pub fn to_string(&self) -> (line: String)
        ensures
            line@ == display_text(self@),
    {
        let mut line = self.date.to_string();
        line.append(" ");
        line.append(
            match self.direction {
                Direction::Outbound => "outbound",
                Direction::Inbound => "inbound",
            },
        );
        line.append(" ");
        line.append(self.description.as_str());
        line.append(" ");
        line.append(self.amount.to_string().as_str());
        line.append(" ");
        line.append(self.balance.to_string().as_str());
        line
    }
}

/// The views of a list of entries, in order.
pub open spec fn entry_views(entries: Seq<RawEntry>) -> Seq<RawEntryView> {
    entries.map_values(|entry: RawEntry| entry@)
}

/// Puts an entry at the end of a list if its date lies in `[start, end)`,
/// and drops it if not.
pub fn keep_if_within(entries: &mut Vec<RawEntry>, entry: RawEntry, start: &Date, end: &Date)
    ensures
        entry_views(final(entries)@) == if entry@.date.is_within(start@, end@) {
            entry_views(old(entries)@).push(entry@)
        } else {
            entry_views(old(entries)@)
        },
{
    if entry.date.is_within(start, end) {
        entries.push(entry);
        assert(entry_views(entries@) =~= entry_views(old(entries)@).push(entry@));
    }
}

/// A row's entry depends on its fields only through their trimmed forms:
/// two rows whose first four fields agree once trimmed stand for the same
/// entry, fingerprint included.
pub proof fn lemma_entry_depends_on_trimmed_fields(left: Seq<Seq<char>>, right: Seq<Seq<char>>)
    requires
        left.len() >= 4,
        right.len() >= 4,
        forall|i: int| 0 <= i < 4 ==> trimmed(#[trigger] left[i]) == trimmed(right[i]),
    ensures
        row_status(left) == row_status(right),
        entry_of(left) == entry_of(right),
        entry_of(left).fingerprint == entry_of(right).fingerprint,
{
    assert(trimmed(left[0]) == trimmed(right[0]));
    assert(trimmed(left[1]) == trimmed(right[1]));
    assert(trimmed(left[2]) == trimmed(right[2]));
    assert(trimmed(left[3]) == trimmed(right[3]));
}

/// Whitespace around the fields of a row changes nothing: a row and the
/// same row with each field padded by whitespace on either side stand for
/// the same entry, with the same fingerprint.
pub proof fn lemma_padding_keeps_fingerprint(
    row: Seq<Seq<char>>,
    before: Seq<Seq<char>>,
    after: Seq<Seq<char>>,
    padded: Seq<Seq<char>>,
)
    requires
        row.len() >= 4,
        before.len() >= 4,
        after.len() >= 4,
        padded.len() >= 4,
        forall|i: int|
            0 <= i < 4 ==> crate::text::all_whitespace(#[trigger] before[i])
                && crate::text::all_whitespace(after[i]),
        forall|i: int| 0 <= i < 4 ==> #[trigger] padded[i] == before[i] + row[i] + after[i],
    ensures
        row_status(padded) == row_status(row),
        entry_of(padded) == entry_of(row),
        entry_of(padded).fingerprint == entry_of(row).fingerprint,
{
    assert forall|i: int| 0 <= i < 4 implies trimmed(#[trigger] padded[i]) == trimmed(row[i]) by {
        assert(crate::text::all_whitespace(before[i]));
        crate::text::lemma_trimmed_ignores_padding(before[i], row[i], after[i]);
    }
    lemma_entry_depends_on_trimmed_fields(padded, row);
}

} // verus!
