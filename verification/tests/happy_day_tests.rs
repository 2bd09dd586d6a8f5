use bank_statement_importer::calendar::get_date_boundaries;
use bank_statement_importer::config::Config;
use bank_statement_importer::entry_manager::Pattern;
use bank_statement_importer::persistence::{deserialise, serialise};
use bank_statement_importer::raw_entry::{keep_if_within, Direction, RawEntry};
use bank_statement_importer::session::{Answers, Next, Processed, Question, Session};
use bank_statement_importer::ui::UI;
use bank_statement_importer::CategorisedActivityReport;
use csv::StringRecord;

#[derive(Debug)]
struct Instruction {
    entry: String,
    direction: Direction,
    new_category: bool,
    category: String,
    transfer: bool,
    personal: bool,
    create_pattern: bool,
    snippet: Option<String>,
    require_confirmation: bool,
    matches_existing_pattern: bool,
    existing_pattern_is_personal: bool,
    override_pattern_assignment: bool,
    duplicate: bool,
    discard: bool,
}

const FILE_A: [[&str; 4]; 13] = [
    ["20191130", "Insane purchase outside our date range", "-9999.99", "0.00"],
    ["20191201", "Fake Bookshop", "-333.33", "0.00"],
    ["20191202", "Salary", "555.55", "0.00"],
    ["20191203", "Fake Supermarket", "-123.45", "0.00"],
    ["20191204", "Transfer In", "50.51", "0.00"],
    ["20191204", "SAAS as a service", "-253.77", "0.00"],
    ["20191205", "Transfer Out", "-70.71", "0.00"],
    ["20191206", "Ad Hoc 1", "-20.21", "0.00"],
    ["20191207", "Ad Hoc 2", "10.11", "0.00"],
    ["20191208", "Lotto", "777.77", "0.00"],
    ["20191209", "Ad Hoc 3", "-99.99", "0.00"],
    ["20191210", "Ad Hoc 4", "-1111.11", "0.00"],
    ["20200101", "Insane purchase outside our date range", "-9999.98", "0.00"],
];

const FILE_B: [[&str; 4]; 11] = [
    ["20191130", "Insane purchase outside our date range", "-8888.88", "0.00"],
    ["20191201", "Fake Bookshop", "-333.33", "0.00"],
    ["20191203", "Fake Supermarket", "-123.45", "0.00"],
    ["20191211", "Fake Bookshop", "-444.44", "0.00"],
    ["20191212", "Fake Bookshop", "-555.55", "0.00"],
    ["20191213", "Fake Supermarket", "-88.88", "0.00"],
    ["20191214", "Salary", "222.22", "0.00"],
    ["20191215", "Transfer In", "90.91", "0.00"],
    ["20191216", "Transfer Out", "-60.61", "0.00"],
    ["20191217", "SAAS as a service", "-595.22", "0.00"],
    ["20200101", "Insane purchase outside our date range", "-7777.77", "0.00"],
];

fn entries_of_december() -> Vec<RawEntry> {
    let (start, end) = get_date_boundaries("20191201").unwrap();
    let mut entries: Vec<RawEntry> = Vec::new();
    for row in FILE_A.iter().chain(FILE_B.iter()) {
        let entry = RawEntry::try_new(StringRecord::from(row.to_vec())).unwrap();
        keep_if_within(&mut entries, entry, &start, &end);
    }
    entries
}

fn ask(ui: &UI, session: &Session, entry: &RawEntry, answers: &Answers, expected: &str) -> Question {
    match session.next(entry, answers) {
        Next::Ask(question) => {
            assert_eq!(ui.prompt(question), expected);
            question
        }
        other => panic!("expected the question {:?}, got {:?}", expected, other),
    }
}

fn answer(ui: &UI, session: &Session, question: Question, line: &str, answers: &mut Answers) {
    let input = format!("{}\n", line);
    assert_eq!(
        ui.hear(question, &input, answers, &session.config.categories),
        None
    );
}

fn converse(
    ui: &UI,
    session: &Session,
    entry: &RawEntry,
    answers: &mut Answers,
    expected: &str,
    line: &str,
) {
    let question = ask(ui, session, entry, answers, expected);
    answer(ui, session, question, line, answers);
}

fn yes_or_no(yes: bool) -> &'static str {
    if yes {
        "y"
    } else {
        "n"
    }
}

fn run(config: Config, instructions: Vec<Instruction>) -> Session {
    let ui = UI {};
    let mut session = Session::new(config);
    let entries = entries_of_december();
    assert_eq!(entries.len(), instructions.len());
    for (entry, instruction) in entries.into_iter().zip(instructions) {
        assert_eq!(ui.display_entry(&entry), instruction.entry);
        assert_eq!(entry.direction, instruction.direction);
        let mut answers = Answers::none();
        assert_eq!(session.has_seen(&entry), instruction.duplicate);
        if instruction.duplicate {
            converse(
                &ui,
                &session,
                &entry,
                &mut answers,
                "Would you like to skip this entry [y/n]?",
                yes_or_no(instruction.discard),
            );
            if instruction.discard {
                assert_eq!(session.next(&entry, &answers), Next::Skip);
                assert_eq!(session.process(entry, answers), Processed::Skipped);
                continue;
            }
        }
        assert_eq!(
            session.config.find_pattern(&entry).is_some(),
            instruction.matches_existing_pattern
        );
        if !instruction.matches_existing_pattern {
            let existing = "Enter the existing category, or leave blank to add a new category:";
            if instruction.new_category {
                converse(&ui, &session, &entry, &mut answers, existing, "");
                converse(
                    &ui,
                    &session,
                    &entry,
                    &mut answers,
                    "New category:",
                    &instruction.category,
                );
            } else {
                converse(&ui, &session, &entry, &mut answers, existing, &instruction.category);
            }
            converse(
                &ui,
                &session,
                &entry,
                &mut answers,
                "Does this entry represent a transfer between accounts? [n/y]",
                yes_or_no(instruction.transfer),
            );
            let asked_for_sphere =
                instruction.direction == Direction::Outbound && !instruction.transfer;
            if asked_for_sphere {
                converse(
                    &ui,
                    &session,
                    &entry,
                    &mut answers,
                    "Is this a work or a personal entry [p/w]?",
                    if instruction.personal { "p" } else { "w" },
                );
            }
            converse(
                &ui,
                &session,
                &entry,
                &mut answers,
                "Would you like to create a pattern from this entry [y/n]?",
                yes_or_no(instruction.create_pattern),
            );
            if instruction.create_pattern {
                converse(
                    &ui,
                    &session,
                    &entry,
                    &mut answers,
                    "Please provide the snippet",
                    instruction.snippet.as_deref().unwrap(),
                );
                if asked_for_sphere {
                    let assigned_to = if instruction.personal {
                        "personal"
                    } else {
                        "work"
                    };
                    converse(
                        &ui,
                        &session,
                        &entry,
                        &mut answers,
                        &format!("Should this always be assigned to {} [y/n]?", assigned_to),
                        yes_or_no(!instruction.require_confirmation),
                    );
                }
            }
        } else if instruction.require_confirmation {
            let expected = if instruction.existing_pattern_is_personal {
                "This type of entry is normally assigned to personal, would you prefer to assing this entry to work [y/n]?"
            } else {
                "This type of entry is normally assigned to work, would you prefer to assing this entry to personal [y/n]?"
            };
            converse(
                &ui,
                &session,
                &entry,
                &mut answers,
                expected,
                yes_or_no(instruction.override_pattern_assignment),
            );
        }
        assert_eq!(session.next(&entry, &answers), Next::Classify);
        assert_eq!(session.process(entry, answers), Processed::Recorded);
        session.config = deserialise(serialise(&session.config.export())).unwrap();
    }
    session
}

fn inbound(snippet: &str, category: &str, assign_as_income: bool) -> Pattern {
    Pattern::Inbound {
        snippet: snippet.into(),
        category: category.into(),
        assign_as_income,
    }
}

fn outbound(
    snippet: &str,
    category: &str,
    assign_as_expense: bool,
    assign_as_personal: bool,
    require_confirmation: bool,
) -> Pattern {
    Pattern::Outbound {
        snippet: snippet.into(),
        category: category.into(),
        assign_as_expense,
        assign_as_personal,
        require_confirmation,
    }
}

fn learned_outbound_patterns() -> Vec<Pattern> {
    vec![
        outbound("Fake Bookshop", "books", true, true, true),
        outbound("Fake Supermarket", "groceries", true, true, false),
        outbound("SAAS", "saas", true, false, true),
        outbound("Transfer Out", "transfer", false, true, false),
    ]
}

fn shown(session: &Session) -> Vec<String> {
    let ui = UI {};
    let mut lines = ui.display_totals(&session.report).unwrap();
    let grouped = CategorisedActivityReport::new(&session.report, &session.config.categories);
    lines.extend(ui.display_categorised_report(&grouped).unwrap());
    lines
}

fn rule() -> &'static str {
    "********************************************"
}

#[test]
fn happy_day_with_an_empty_catalogue() {
    let mut instructions = first_batch_with_an_empty_catalogue();
    instructions.extend(second_batch_with_an_empty_catalogue());
    let session = run(Config::empty(), instructions);

    assert_eq!(
        shown(&session),
        vec![
            "",
            "REPORT",
            "",
            "Personal Expense: 2129.75",
            "Work Expense: 1809.32",
            "Categorised Personal Expenses",
            "-----------------------------",
            "",
            "books 1222.21",
            rule(),
            "2019-12-01 Fake Bookshop 333.33",
            "2019-12-01 Fake Bookshop 333.33",
            "2019-12-12 Fake Bookshop 555.55",
            "",
            "salary 0.00",
            rule(),
            "",
            "groceries 312.32",
            rule(),
            "2019-12-03 Fake Supermarket 123.45",
            "2019-12-09 Ad Hoc 3 99.99",
            "2019-12-13 Fake Supermarket 88.88",
            "",
            "transfer 0.00",
            rule(),
            "",
            "saas 595.22",
            rule(),
            "2019-12-17 SAAS as a service 595.22",
            "",
            "lottery 0.00",
            rule(),
            "",
            "Categorised Work Expenses",
            "-----------------------------",
            "",
            "books 444.44",
            rule(),
            "2019-12-11 Fake Bookshop 444.44",
            "",
            "saas 1364.88",
            rule(),
            "2019-12-04 SAAS as a service 253.77",
            "2019-12-10 Ad Hoc 4 1111.11",
            "",
        ]
    );

    assert_eq!(
        session.config.categories,
        vec!["books", "salary", "groceries", "transfer", "saas", "lottery"]
    );
    assert_eq!(
        session.config.inbound_patterns,
        vec![
            inbound("Salary", "salary", true),
            inbound("Transfer In", "transfer", false),
        ]
    );
    assert_eq!(session.config.outbound_patterns, learned_outbound_patterns());
    assert_eq!(session.processed_fingerprints.len(), 19);
    assert_eq!(session.report.entries.len(), 19);
}

#[test]
fn happy_day_with_a_populated_catalogue() {
    let config = Config {
        categories: vec!["books".into(), "transfer".into(), "lottery".into()],
        inbound_patterns: vec![inbound("Transfer In", "transfer", false)],
        outbound_patterns: vec![outbound("Fake Bookshop", "books", true, true, true)],
    };
    let config = deserialise(serialise(&config.export())).unwrap();
    let mut instructions = first_batch_with_a_populated_catalogue();
    instructions.extend(second_batch_with_a_populated_catalogue());
    let session = run(config, instructions);

    let lines = shown(&session);
    assert_eq!(
        lines[..5],
        ["", "REPORT", "", "Personal Expense: 2129.75", "Work Expense: 1809.32"]
    );
    let titles: Vec<&str> = lines
        .iter()
        .zip(lines.iter().skip(1))
        .filter(|(_, next)| next.as_str() == rule())
        .map(|(title, _)| title.as_str())
        .collect();
    assert_eq!(
        titles,
        vec![
            "books 1222.21",
            "transfer 0.00",
            "lottery 0.00",
            "salary 0.00",
            "groceries 312.32",
            "saas 595.22",
            "books 444.44",
            "saas 1364.88",
        ]
    );

    assert_eq!(
        session.config.categories,
        vec!["books", "transfer", "lottery", "salary", "groceries", "saas"]
    );
    assert_eq!(
        session.config.inbound_patterns,
        vec![
            inbound("Transfer In", "transfer", false),
            inbound("Salary", "salary", true),
        ]
    );
    assert_eq!(session.config.outbound_patterns, learned_outbound_patterns());
}

fn first_batch_with_an_empty_catalogue() -> Vec<Instruction> {
    vec![
        Instruction {
            entry: "2019-12-01 outbound Fake Bookshop 333.33 0.00".into(),
            direction: Direction::Outbound,
            new_category: true,
            category: "books".into(),
            transfer: false,
            personal: true,
            create_pattern: true,
            snippet: Some("Fake Bookshop".into()),
            require_confirmation: true,
            matches_existing_pattern: false,
            existing_pattern_is_personal: false,
            override_pattern_assignment: false,
            duplicate: false,
            discard: false,
        },
        Instruction {
            entry: "2019-12-02 inbound Salary 555.55 0.00".into(),
            direction: Direction::Inbound,
            new_category: true,
            category: "salary".into(),
            transfer: false,
            personal: true,
            create_pattern: true,
            snippet: Some("Salary".into()),
            require_confirmation: false,
            matches_existing_pattern: false,
            existing_pattern_is_personal: false,
            override_pattern_assignment: false,
            duplicate: false,
            discard: false,
        },
        Instruction {
            entry: "2019-12-03 outbound Fake Supermarket 123.45 0.00".into(),
            direction: Direction::Outbound,
            new_category: true,
            category: "groceries".into(),
            transfer: false,
            personal: true,
            create_pattern: true,
            snippet: Some("Fake Supermarket".into()),
            require_confirmation: false,
            matches_existing_pattern: false,
            existing_pattern_is_personal: false,
            override_pattern_assignment: false,
            duplicate: false,
            discard: false,
        },
        Instruction {
            entry: "2019-12-04 inbound Transfer In 50.51 0.00".into(),
            direction: Direction::Inbound,
            new_category: true,
            category: "transfer".into(),
            transfer: true,
            personal: true,
            create_pattern: true,
            snippet: Some("Transfer In".into()),
            require_confirmation: false,
            matches_existing_pattern: false,
            existing_pattern_is_personal: false,
            override_pattern_assignment: false,
            duplicate: false,
            discard: false,
        },
        Instruction {
            entry: "2019-12-04 outbound SAAS as a service 253.77 0.00".into(),
            direction: Direction::Outbound,
            new_category: true,
            category: "saas".into(),
            transfer: false,
            personal: false,
            create_pattern: true,
            snippet: Some("SAAS".into()),
            require_confirmation: true,
            matches_existing_pattern: false,
            existing_pattern_is_personal: false,
            override_pattern_assignment: false,
            duplicate: false,
            discard: false,
        },
        Instruction {
            entry: "2019-12-05 outbound Transfer Out 70.71 0.00".into(),
            direction: Direction::Outbound,
            new_category: false,
            category: "transfer".into(),
            transfer: true,
            personal: true,
            create_pattern: true,
            snippet: Some("Transfer Out".into()),
            require_confirmation: false,
            matches_existing_pattern: false,
            existing_pattern_is_personal: false,
            override_pattern_assignment: false,
            duplicate: false,
            discard: false,
        },
        Instruction {
            entry: "2019-12-06 outbound Ad Hoc 1 20.21 0.00".into(),
            direction: Direction::Outbound,
            new_category: false,
            category: "transfer".into(),
            transfer: true,
            personal: true,
            create_pattern: false,
            snippet: None,
            require_confirmation: false,
            matches_existing_pattern: false,
            existing_pattern_is_personal: false,
            override_pattern_assignment: false,
            duplicate: false,
            discard: false,
        },
        Instruction {
            entry: "2019-12-07 inbound Ad Hoc 2 10.11 0.00".into(),
            direction: Direction::Inbound,
            new_category: false,
            category: "transfer".into(),
            transfer: true,
            personal: true,
            create_pattern: false,
            snippet: None,
            require_confirmation: false,
            matches_existing_pattern: false,
            existing_pattern_is_personal: false,
            override_pattern_assignment: false,
            duplicate: false,
            discard: false,
        },
        Instruction {
            entry: "2019-12-08 inbound Lotto 777.77 0.00".into(),
            direction: Direction::Inbound,
            new_category: true,
            category: "lottery".into(),
            transfer: false,
            personal: true,
            create_pattern: false,
            snippet: None,
            require_confirmation: false,
            matches_existing_pattern: false,
            existing_pattern_is_personal: false,
            override_pattern_assignment: false,
            duplicate: false,
            discard: false,
        },
        Instruction {
            entry: "2019-12-09 outbound Ad Hoc 3 99.99 0.00".into(),
            direction: Direction::Outbound,
            new_category: false,
            category: "groceries".into(),
            transfer: false,
            personal: true,
            create_pattern: false,
            snippet: None,
            require_confirmation: false,
            matches_existing_pattern: false,
            existing_pattern_is_personal: false,
            override_pattern_assignment: false,
            duplicate: false,
            discard: false,
        },
        Instruction {
            entry: "2019-12-10 outbound Ad Hoc 4 1111.11 0.00".into(),
            direction: Direction::Outbound,
            new_category: false,
            category: "saas".into(),
            transfer: false,
            personal: false,
            create_pattern: false,
            snippet: None,
            require_confirmation: false,
            matches_existing_pattern: false,
            existing_pattern_is_personal: false,
            override_pattern_assignment: false,
            duplicate: false,
            discard: false,
        },
    ]
}

fn second_batch_with_an_empty_catalogue() -> Vec<Instruction> {
    vec![
        Instruction {
            entry: "2019-12-01 outbound Fake Bookshop 333.33 0.00".into(),
            direction: Direction::Outbound,
            new_category: false,
            category: "books".into(),
            transfer: false,
            personal: true,
            create_pattern: false,
            snippet: None,
            require_confirmation: true,
            matches_existing_pattern: true,
            existing_pattern_is_personal: true,
            override_pattern_assignment: false,
            duplicate: true,
            discard: false,
        },
        Instruction {
            entry: "2019-12-03 outbound Fake Supermarket 123.45 0.00".into(),
            direction: Direction::Outbound,
            new_category: true,
            category: "groceries".into(),
            transfer: false,
            personal: true,
            create_pattern: false,
            snippet: None,
            require_confirmation: false,
            matches_existing_pattern: false,
            existing_pattern_is_personal: false,
            override_pattern_assignment: false,
            duplicate: true,
            discard: true,
        },
        Instruction {
            entry: "2019-12-11 outbound Fake Bookshop 444.44 0.00".into(),
            direction: Direction::Outbound,
            new_category: false,
            category: "books".into(),
            transfer: false,
            personal: false,
            create_pattern: false,
            snippet: None,
            require_confirmation: true,
            matches_existing_pattern: true,
            existing_pattern_is_personal: true,
            override_pattern_assignment: true,
            duplicate: false,
            discard: false,
        },
        Instruction {
            entry: "2019-12-12 outbound Fake Bookshop 555.55 0.00".into(),
            direction: Direction::Outbound,
            new_category: false,
            category: "books".into(),
            transfer: false,
            personal: false,
            create_pattern: false,
            snippet: None,
            require_confirmation: true,
            matches_existing_pattern: true,
            existing_pattern_is_personal: true,
            override_pattern_assignment: false,
            duplicate: false,
            discard: false,
        },
        Instruction {
            entry: "2019-12-13 outbound Fake Supermarket 88.88 0.00".into(),
            direction: Direction::Outbound,
            new_category: false,
            category: "groceries".into(),
            transfer: false,
            personal: true,
            create_pattern: false,
            snippet: None,
            require_confirmation: false,
            matches_existing_pattern: true,
            existing_pattern_is_personal: true,
            override_pattern_assignment: false,
            duplicate: false,
            discard: false,
        },
        Instruction {
            entry: "2019-12-14 inbound Salary 222.22 0.00".into(),
            direction: Direction::Inbound,
            new_category: false,
            category: "salary".into(),
            transfer: false,
            personal: true,
            create_pattern: false,
            snippet: None,
            require_confirmation: false,
            matches_existing_pattern: true,
            existing_pattern_is_personal: true,
            override_pattern_assignment: true,
            duplicate: false,
            discard: false,
        },
        Instruction {
            entry: "2019-12-15 inbound Transfer In 90.91 0.00".into(),
            direction: Direction::Inbound,
            new_category: false,
            category: "transfer".into(),
            transfer: true,
            personal: true,
            create_pattern: false,
            snippet: None,
            require_confirmation: false,
            matches_existing_pattern: true,
            existing_pattern_is_personal: true,
            override_pattern_assignment: false,
            duplicate: false,
            discard: false,
        },
        Instruction {
            entry: "2019-12-16 outbound Transfer Out 60.61 0.00".into(),
            direction: Direction::Outbound,
            new_category: false,
            category: "transfer".into(),
            transfer: true,
            personal: true,
            create_pattern: false,
            snippet: None,
            require_confirmation: false,
            matches_existing_pattern: true,
            existing_pattern_is_personal: true,
            override_pattern_assignment: false,
            duplicate: false,
            discard: false,
        },
        Instruction {
            entry: "2019-12-17 outbound SAAS as a service 595.22 0.00".into(),
            direction: Direction::Outbound,
            new_category: true,
            category: "saas".into(),
            transfer: false,
            personal: false,
            create_pattern: false,
            snippet: None,
            require_confirmation: true,
            matches_existing_pattern: true,
            existing_pattern_is_personal: false,
            override_pattern_assignment: true,
            duplicate: false,
            discard: false,
        },
    ]
}

fn first_batch_with_a_populated_catalogue() -> Vec<Instruction> {
    vec![
        Instruction {
            entry: "2019-12-01 outbound Fake Bookshop 333.33 0.00".into(),
            direction: Direction::Outbound,
            new_category: false,
            category: "books".into(),
            transfer: false,
            personal: true,
            create_pattern: true,
            snippet: Some("Fake Bookshop".into()),
            require_confirmation: true,
            matches_existing_pattern: true,
            existing_pattern_is_personal: true,
            override_pattern_assignment: false,
            duplicate: false,
            discard: false,
        },
        Instruction {
            entry: "2019-12-02 inbound Salary 555.55 0.00".into(),
            direction: Direction::Inbound,
            new_category: true,
            category: "salary".into(),
            transfer: false,
            personal: true,
            create_pattern: true,
            snippet: Some("Salary".into()),
            require_confirmation: false,
            matches_existing_pattern: false,
            existing_pattern_is_personal: false,
            override_pattern_assignment: false,
            duplicate: false,
            discard: false,
        },
        Instruction {
            entry: "2019-12-03 outbound Fake Supermarket 123.45 0.00".into(),
            direction: Direction::Outbound,
            new_category: true,
            category: "groceries".into(),
            transfer: false,
            personal: true,
            create_pattern: true,
            snippet: Some("Fake Supermarket".into()),
            require_confirmation: false,
            matches_existing_pattern: false,
            existing_pattern_is_personal: false,
            override_pattern_assignment: false,
            duplicate: false,
            discard: false,
        },
        Instruction {
            entry: "2019-12-04 inbound Transfer In 50.51 0.00".into(),
            direction: Direction::Inbound,
            new_category: false,
            category: "transfer".into(),
            transfer: true,
            personal: true,
            create_pattern: false,
            snippet: Some("Transfer In".into()),
            require_confirmation: false,
            matches_existing_pattern: true,
            existing_pattern_is_personal: true,
            override_pattern_assignment: false,
            duplicate: false,
            discard: false,
        },
        Instruction {
            entry: "2019-12-04 outbound SAAS as a service 253.77 0.00".into(),
            direction: Direction::Outbound,
            new_category: true,
            category: "saas".into(),
            transfer: false,
            personal: false,
            create_pattern: true,
            snippet: Some("SAAS".into()),
            require_confirmation: true,
            matches_existing_pattern: false,
            existing_pattern_is_personal: false,
            override_pattern_assignment: false,
            duplicate: false,
            discard: false,
        },
        Instruction {
            entry: "2019-12-05 outbound Transfer Out 70.71 0.00".into(),
            direction: Direction::Outbound,
            new_category: false,
            category: "transfer".into(),
            transfer: true,
            personal: true,
            create_pattern: true,
            snippet: Some("Transfer Out".into()),
            require_confirmation: false,
            matches_existing_pattern: false,
            existing_pattern_is_personal: false,
            override_pattern_assignment: false,
            duplicate: false,
            discard: false,
        },
        Instruction {
            entry: "2019-12-06 outbound Ad Hoc 1 20.21 0.00".into(),
            direction: Direction::Outbound,
            new_category: false,
            category: "transfer".into(),
            transfer: true,
            personal: true,
            create_pattern: false,
            snippet: None,
            require_confirmation: false,
            matches_existing_pattern: false,
            existing_pattern_is_personal: false,
            override_pattern_assignment: false,
            duplicate: false,
            discard: false,
        },
        Instruction {
            entry: "2019-12-07 inbound Ad Hoc 2 10.11 0.00".into(),
            direction: Direction::Inbound,
            new_category: false,
            category: "transfer".into(),
            transfer: true,
            personal: true,
            create_pattern: false,
            snippet: None,
            require_confirmation: false,
            matches_existing_pattern: false,
            existing_pattern_is_personal: false,
            override_pattern_assignment: false,
            duplicate: false,
            discard: false,
        },
        Instruction {
            entry: "2019-12-08 inbound Lotto 777.77 0.00".into(),
            direction: Direction::Inbound,
            new_category: false,
            category: "lottery".into(),
            transfer: false,
            personal: true,
            create_pattern: false,
            snippet: None,
            require_confirmation: false,
            matches_existing_pattern: false,
            existing_pattern_is_personal: false,
            override_pattern_assignment: false,
            duplicate: false,
            discard: false,
        },
        Instruction {
            entry: "2019-12-09 outbound Ad Hoc 3 99.99 0.00".into(),
            direction: Direction::Outbound,
            new_category: false,
            category: "groceries".into(),
            transfer: false,
            personal: true,
            create_pattern: false,
            snippet: None,
            require_confirmation: false,
            matches_existing_pattern: false,
            existing_pattern_is_personal: false,
            override_pattern_assignment: false,
            duplicate: false,
            discard: false,
        },
        Instruction {
            entry: "2019-12-10 outbound Ad Hoc 4 1111.11 0.00".into(),
            direction: Direction::Outbound,
            new_category: false,
            category: "saas".into(),
            transfer: false,
            personal: false,
            create_pattern: false,
            snippet: None,
            require_confirmation: false,
            matches_existing_pattern: false,
            existing_pattern_is_personal: false,
            override_pattern_assignment: false,
            duplicate: false,
            discard: false,
        },
    ]
}

fn second_batch_with_a_populated_catalogue() -> Vec<Instruction> {
    vec![
        Instruction {
            entry: "2019-12-01 outbound Fake Bookshop 333.33 0.00".into(),
            direction: Direction::Outbound,
            new_category: false,
            category: "books".into(),
            transfer: false,
            personal: true,
            create_pattern: false,
            snippet: None,
            require_confirmation: true,
            matches_existing_pattern: true,
            existing_pattern_is_personal: true,
            override_pattern_assignment: false,
            duplicate: true,
            discard: false,
        },
        Instruction {
            entry: "2019-12-03 outbound Fake Supermarket 123.45 0.00".into(),
            direction: Direction::Outbound,
            new_category: true,
            category: "groceries".into(),
            transfer: false,
            personal: true,
            create_pattern: false,
            snippet: None,
            require_confirmation: false,
            matches_existing_pattern: false,
            existing_pattern_is_personal: false,
            override_pattern_assignment: false,
            duplicate: true,
            discard: true,
        },
        Instruction {
            entry: "2019-12-11 outbound Fake Bookshop 444.44 0.00".into(),
            direction: Direction::Outbound,
            new_category: false,
            category: "books".into(),
            transfer: false,
            personal: false,
            create_pattern: false,
            snippet: None,
            require_confirmation: true,
            matches_existing_pattern: true,
            existing_pattern_is_personal: true,
            override_pattern_assignment: true,
            duplicate: false,
            discard: false,
        },
        Instruction {
            entry: "2019-12-12 outbound Fake Bookshop 555.55 0.00".into(),
            direction: Direction::Outbound,
            new_category: false,
            category: "books".into(),
            transfer: false,
            personal: false,
            create_pattern: false,
            snippet: None,
            require_confirmation: true,
            matches_existing_pattern: true,
            existing_pattern_is_personal: true,
            override_pattern_assignment: false,
            duplicate: false,
            discard: false,
        },
        Instruction {
            entry: "2019-12-13 outbound Fake Supermarket 88.88 0.00".into(),
            direction: Direction::Outbound,
            new_category: false,
            category: "groceries".into(),
            transfer: false,
            personal: true,
            create_pattern: false,
            snippet: None,
            require_confirmation: false,
            matches_existing_pattern: true,
            existing_pattern_is_personal: true,
            override_pattern_assignment: false,
            duplicate: false,
            discard: false,
        },
        Instruction {
            entry: "2019-12-14 inbound Salary 222.22 0.00".into(),
            direction: Direction::Inbound,
            new_category: false,
            category: "salary".into(),
            transfer: false,
            personal: true,
            create_pattern: false,
            snippet: None,
            require_confirmation: false,
            matches_existing_pattern: true,
            existing_pattern_is_personal: true,
            override_pattern_assignment: true,
            duplicate: false,
            discard: false,
        },
        Instruction {
            entry: "2019-12-15 inbound Transfer In 90.91 0.00".into(),
            direction: Direction::Inbound,
            new_category: false,
            category: "transfer".into(),
            transfer: true,
            personal: true,
            create_pattern: false,
            snippet: None,
            require_confirmation: false,
            matches_existing_pattern: true,
            existing_pattern_is_personal: true,
            override_pattern_assignment: false,
            duplicate: false,
            discard: false,
        },
        Instruction {
            entry: "2019-12-16 outbound Transfer Out 60.61 0.00".into(),
            direction: Direction::Outbound,
            new_category: false,
            category: "transfer".into(),
            transfer: true,
            personal: true,
            create_pattern: false,
            snippet: None,
            require_confirmation: false,
            matches_existing_pattern: true,
            existing_pattern_is_personal: true,
            override_pattern_assignment: false,
            duplicate: false,
            discard: false,
        },
        Instruction {
            entry: "2019-12-17 outbound SAAS as a service 595.22 0.00".into(),
            direction: Direction::Outbound,
            new_category: true,
            category: "saas".into(),
            transfer: false,
            personal: false,
            create_pattern: false,
            snippet: None,
            require_confirmation: true,
            matches_existing_pattern: true,
            existing_pattern_is_personal: false,
            override_pattern_assignment: true,
            duplicate: false,
            discard: false,
        },
    ]
}
