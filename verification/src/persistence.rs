//! The catalogue as a YAML document, and back.
//!
//! The document is a mapping with the keys `categories`,
//! `inbound_patterns` and `outbound_patterns`, in that order. Categories are
//! a sequence of strings; each pattern is a mapping of its fields.
use vstd::prelude::*;
use linked_hash_map::LinkedHashMap;
use yaml_rust::Yaml;
use crate::config::{pattern_views, Config, ConfigView};
use crate::entry_manager::{Pattern, PatternView};
use crate::text::texts;
use crate::yaml::{
    as_flag, as_list, as_table, as_text, emit, emitted_text, entries_of, flag_node,
    lemma_without_absent_key, list_node, load, loaded_documents, lookup, new_table, node_of,
    nodes_of, table_get, table_insert, table_node, text_node, Node,
};

verus! {

/// The key of an entry, as a node.
pub open spec fn key(name: Seq<char>) -> Node {
    Node::Text(name)
}

/// The sequence node of a list of categories.
pub open spec fn category_nodes(categories: Seq<Seq<char>>) -> Seq<Node> {
    categories.map_values(|category: Seq<char>| Node::Text(category))
}

/// The mapping that a pattern is written as: its fields under their names,
/// snippet and category first.
pub open spec fn pattern_node(pattern: PatternView) -> Node {
    match pattern {
        PatternView::Inbound { snippet, category, assign_as_income } => Node::Table(
            seq![
                (key("snippet"@), Node::Text(snippet)),
                (key("category"@), Node::Text(category)),
                (key("assign_as_income"@), Node::Flag(assign_as_income)),
            ],
        ),
        PatternView::Outbound {
            snippet,
            category,
            assign_as_expense,
            assign_as_personal,
            require_confirmation,
        } => Node::Table(
            seq![
                (key("snippet"@), Node::Text(snippet)),
                (key("category"@), Node::Text(category)),
                (key("assign_as_expense"@), Node::Flag(assign_as_expense)),
                (key("assign_as_personal"@), Node::Flag(assign_as_personal)),
                (key("require_confirmation"@), Node::Flag(require_confirmation)),
            ],
        ),
    }
}

/// The sequence node of a list of patterns.
pub open spec fn pattern_nodes(patterns: Seq<PatternView>) -> Seq<Node> {
    patterns.map_values(|pattern: PatternView| pattern_node(pattern))
}

/// The entries of the document that a catalogue is written as.
pub open spec fn document_entries(config: ConfigView) -> Seq<(Node, Node)> {
    seq![
        (key("categories"@), Node::List(category_nodes(config.categories))),
        (key("inbound_patterns"@), Node::List(pattern_nodes(config.inbound_patterns))),
        (key("outbound_patterns"@), Node::List(pattern_nodes(config.outbound_patterns))),
    ]
}

/// The document that a catalogue is written as.
pub open spec fn document_of(config: ConfigView) -> Node {
    Node::Table(document_entries(config))
}

/// The document of a catalogue that holds nothing yet.
pub open spec fn template_document() -> Node {
    document_of(ConfigView::empty())
}

/// The texts of a sequence node whose items are all strings.
pub open spec fn text_list(node: Option<Node>) -> Option<Seq<Seq<char>>> {
    match node {
        Some(Node::List(items)) => if forall|i: int| 0 <= i < items.len() ==> (#[trigger] items[i])
            is Text {
            Some(items.map_values(|item: Node| item->Text_0))
        } else {
            None
        },
        _ => None,
    }
}

/// The inbound pattern that a mapping stands for: `snippet` and `category`
/// must be strings and `assign_as_income` a flag; other keys are ignored.
pub open spec fn inbound_of(node: Node) -> Option<PatternView> {
    match node {
        Node::Table(fields) => match (
            lookup(fields, key("snippet"@)),
            lookup(fields, key("category"@)),
            lookup(fields, key("assign_as_income"@)),
        ) {
            (
                Some(Node::Text(snippet)),
                Some(Node::Text(category)),
                Some(Node::Flag(assign_as_income)),
            ) => Some(PatternView::Inbound { snippet, category, assign_as_income }),
            _ => None,
        },
        _ => None,
    }
}

/// The outbound pattern that a mapping stands for: `snippet` and
/// `category` must be strings, `assign_as_expense`, `assign_as_personal`
/// and `require_confirmation` flags; other keys are ignored.
pub open spec fn outbound_of(node: Node) -> Option<PatternView> {
    match node {
        Node::Table(fields) => match (
            lookup(fields, key("snippet"@)),
            lookup(fields, key("category"@)),
            lookup(fields, key("assign_as_expense"@)),
            lookup(fields, key("assign_as_personal"@)),
            lookup(fields, key("require_confirmation"@)),
        ) {
            (
                Some(Node::Text(snippet)),
                Some(Node::Text(category)),
                Some(Node::Flag(assign_as_expense)),
                Some(Node::Flag(assign_as_personal)),
                Some(Node::Flag(require_confirmation)),
            ) => Some(
                PatternView::Outbound {
                    snippet,
                    category,
                    assign_as_expense,
                    assign_as_personal,
                    require_confirmation,
                },
            ),
            _ => None,
        },
        _ => None,
    }
}

/// The pattern that a mapping stands for in the list of the given kind.
pub open spec fn pattern_of(node: Node, inbound: bool) -> Option<PatternView> {
    if inbound {
        inbound_of(node)
    } else {
        outbound_of(node)
    }
}

/// The patterns of a sequence node whose items all stand for patterns of
/// the given kind.
pub open spec fn pattern_list(node: Option<Node>, inbound: bool) -> Option<Seq<PatternView>> {
    match node {
        Some(Node::List(items)) => if forall|i: int|
            0 <= i < items.len() ==> pattern_of(#[trigger] items[i], inbound) is Some {
            Some(items.map_values(|item: Node| pattern_of(item, inbound)->0))
        } else {
            None
        },
        _ => None,
    }
}

/// The catalogue that the entries of a document stand for, where they have
/// the shape of one.
pub open spec fn config_of(entries: Seq<(Node, Node)>) -> Option<ConfigView> {
    match (
        text_list(lookup(entries, key("categories"@))),
        pattern_list(lookup(entries, key("inbound_patterns"@)), true),
        pattern_list(lookup(entries, key("outbound_patterns"@)), false),
    ) {
        (Some(categories), Some(inbound_patterns), Some(outbound_patterns)) => Some(
            ConfigView { categories, inbound_patterns, outbound_patterns },
        ),
        _ => None,
    }
}

/// The view of a catalogue that may be missing.
pub open spec fn view_of(config: Option<Config>) -> Option<ConfigView> {
    match config {
        Some(c) => Some(c@),
        None => None,
    }
}

/// The names of the keys are all different.
proof fn lemma_keys_differ()
    ensures
        "categories"@ != "inbound_patterns"@,
        "categories"@ != "outbound_patterns"@,
        "inbound_patterns"@ != "outbound_patterns"@,
        "snippet"@ != "category"@,
        "snippet"@ != "assign_as_income"@,
        "snippet"@ != "assign_as_expense"@,
        "snippet"@ != "assign_as_personal"@,
        "snippet"@ != "require_confirmation"@,
        "category"@ != "assign_as_income"@,
        "category"@ != "assign_as_expense"@,
        "category"@ != "assign_as_personal"@,
        "category"@ != "require_confirmation"@,
        "assign_as_expense"@ != "assign_as_personal"@,
        "assign_as_expense"@ != "require_confirmation"@,
        "assign_as_personal"@ != "require_confirmation"@,
{
    reveal_strlit("categories");
    reveal_strlit("inbound_patterns");
    reveal_strlit("outbound_patterns");
    reveal_strlit("snippet");
    reveal_strlit("category");
    reveal_strlit("assign_as_income");
    reveal_strlit("assign_as_expense");
    reveal_strlit("assign_as_personal");
    reveal_strlit("require_confirmation");
    assert("categories"@.len() == 10);
    assert("inbound_patterns"@.len() == 16);
    assert("outbound_patterns"@.len() == 17);
    assert("snippet"@.len() == 7);
    assert("category"@.len() == 8);
    assert("assign_as_income"@.len() == 16);
    assert("assign_as_expense"@.len() == 17);
    assert("assign_as_personal"@.len() == 18);
    assert("require_confirmation"@.len() == 20);
}

/// Puts an entry with a key that the table does not have yet at its end.
fn append_entry(table: &mut LinkedHashMap<Yaml, Yaml>, name: &str, value: Yaml)
    requires
        forall|i: int|
            0 <= i < entries_of(*old(table)).len() ==> (#[trigger] entries_of(*old(table))[i]).0
                != key(name@),
    ensures
        entries_of(*final(table)) == entries_of(*old(table)).push((key(name@), node_of(value))),
{
    proof {
        lemma_without_absent_key(entries_of(*table), key(name@));
    }
    table_insert(table, text_node(name), value);
}

/// The mapping of one pattern.
fn pattern_to_yaml(pattern: &Pattern) -> (value: Yaml)
    ensures
        node_of(value) == pattern_node(pattern@),
{
    proof {
        lemma_keys_differ();
    }
    let mut table = new_table();
    match pattern {
        Pattern::Inbound { snippet, category, assign_as_income } => {
            append_entry(&mut table, "snippet", text_node(snippet.as_str()));
            append_entry(&mut table, "category", text_node(category.as_str()));
            append_entry(&mut table, "assign_as_income", flag_node(*assign_as_income));
            assert(entries_of(table) =~= pattern_node(pattern@)->Table_0);
        },
        Pattern::Outbound {
            snippet,
            category,
            assign_as_expense,
            assign_as_personal,
            require_confirmation,
        } => {
            append_entry(&mut table, "snippet", text_node(snippet.as_str()));
            append_entry(&mut table, "category", text_node(category.as_str()));
            append_entry(&mut table, "assign_as_expense", flag_node(*assign_as_expense));
            append_entry(&mut table, "assign_as_personal", flag_node(*assign_as_personal));
            append_entry(&mut table, "require_confirmation", flag_node(*require_confirmation));
            assert(entries_of(table) =~= pattern_node(pattern@)->Table_0);
        },
    }
    table_node(table)
}

/// The sequence of the mappings of a list of patterns.
fn patterns_to_yaml(patterns: &Vec<Pattern>) -> (value: Yaml)
    ensures
        node_of(value) == Node::List(pattern_nodes(pattern_views(patterns@))),
{
    let mut items: Vec<Yaml> = Vec::new();
    let mut index: usize = 0;
    while index < patterns.len()
        invariant
            index <= patterns.len(),
            items@.len() == index,
            forall|i: int|
                0 <= i < index ==> node_of(#[trigger] items@[i]) == pattern_node(patterns@[i]@),
        decreases patterns.len() - index,
    {
        items.push(pattern_to_yaml(&patterns[index]));
        index += 1;
    }
    assert(nodes_of(items@) =~= pattern_nodes(pattern_views(patterns@)));
    list_node(items)
}

/// The sequence of the strings of a list of categories.
fn categories_to_yaml(categories: &Vec<String>) -> (value: Yaml)
    ensures
        node_of(value) == Node::List(category_nodes(texts(categories@))),
{
    let mut items: Vec<Yaml> = Vec::new();
    let mut index: usize = 0;
    while index < categories.len()
        invariant
            index <= categories.len(),
            items@.len() == index,
            forall|i: int|
                0 <= i < index ==> node_of(#[trigger] items@[i]) == Node::Text(categories@[i]@),
        decreases categories.len() - index,
    {
        items.push(text_node(categories[index].as_str()));
        index += 1;
    }
    assert(nodes_of(items@) =~= category_nodes(texts(categories@)));
    list_node(items)
}

/// What a value that may be missing holds.
pub open spec fn optional_node(value: Option<&Yaml>) -> Option<Node> {
    match value {
        Some(v) => Some(node_of(*v)),
        None => None,
    }
}

/// The string stored under `name`, if the entry is there and is a string.
fn text_field(fields: &LinkedHashMap<Yaml, Yaml>, name: &str) -> (text: Option<String>)
    ensures
        match text {
            Some(t) => lookup(entries_of(*fields), key(name@)) == Some(Node::Text(t@)),
            None => match lookup(entries_of(*fields), key(name@)) {
                Some(node) => !(node is Text),
                None => true,
            },
        },
{
    match table_get(fields, &text_node(name)) {
        Some(value) => match as_text(value) {
            Some(text) => Some(text.to_owned()),
            None => None,
        },
        None => None,
    }
}

/// The flag stored under `name`, if the entry is there and is a flag.
fn flag_field(fields: &LinkedHashMap<Yaml, Yaml>, name: &str) -> (flag: Option<bool>)
    ensures
        match flag {
            Some(f) => lookup(entries_of(*fields), key(name@)) == Some(Node::Flag(f)),
            None => match lookup(entries_of(*fields), key(name@)) {
                Some(node) => !(node is Flag),
                None => true,
            },
        },
{
    match table_get(fields, &text_node(name)) {
        Some(value) => as_flag(value),
        None => None,
    }
}

/// The pattern that a mapping stands for, if it stands for one of the
/// given kind.
fn read_pattern(item: &Yaml, inbound: bool) -> (pattern: Option<Pattern>)
    ensures
        match pattern {
            Some(p) => pattern_of(node_of(*item), inbound) == Some(p@),
            None => pattern_of(node_of(*item), inbound) is None,
        },
{
    let fields = match as_table(item) {
        Some(fields) => fields,
        None => { return None; },
    };
    let snippet = match text_field(fields, "snippet") {
        Some(snippet) => snippet,
        None => { return None; },
    };
    let category = match text_field(fields, "category") {
        Some(category) => category,
        None => { return None; },
    };
    if inbound {
        match flag_field(fields, "assign_as_income") {
            Some(assign_as_income) => Some(
                Pattern::Inbound { snippet, category, assign_as_income },
            ),
            None => None,
        }
    } else {
        let assign_as_expense = match flag_field(fields, "assign_as_expense") {
            Some(flag) => flag,
            None => { return None; },
        };
        let assign_as_personal = match flag_field(fields, "assign_as_personal") {
            Some(flag) => flag,
            None => { return None; },
        };
        match flag_field(fields, "require_confirmation") {
            Some(require_confirmation) => Some(
                Pattern::Outbound {
                    snippet,
                    category,
                    assign_as_expense,
                    assign_as_personal,
                    require_confirmation,
                },
            ),
            None => None,
        }
    }
}

/// The patterns of a sequence of mappings, if every one of them stands for
/// a pattern of the given kind.
fn read_patterns(value: Option<&Yaml>, inbound: bool) -> (patterns: Option<Vec<Pattern>>)
    ensures
        match patterns {
            Some(list) => pattern_list(optional_node(value), inbound) == Some(
                pattern_views(list@),
            ),
            None => pattern_list(optional_node(value), inbound) is None,
        },
{
    let items = match value {
        Some(node) => match as_list(node) {
            Some(items) => items,
            None => { return None; },
        },
        None => { return None; },
    };
    let ghost nodes = nodes_of(items@);
    let mut patterns: Vec<Pattern> = Vec::new();
    let mut index: usize = 0;
    while index < items.len()
        invariant
            index <= items.len(),
            nodes == nodes_of(items@),
            optional_node(value) == Some(Node::List(nodes)),
            patterns@.len() == index,
            forall|i: int|
                0 <= i < index ==> pattern_of(#[trigger] nodes[i], inbound) == Some(patterns@[i]@),
        decreases items.len() - index,
    {
        match read_pattern(&items[index], inbound) {
            Some(pattern) => {
                patterns.push(pattern);
            },
            None => {
                assert(pattern_of(nodes[index as int], inbound) is None);
                return None;
            },
        }
        index += 1;
    }
    assert(nodes.map_values(|item: Node| pattern_of(item, inbound)->0)
        =~= pattern_views(patterns@));
    Some(patterns)
}

/// The strings of a sequence of strings, if every item is one.
fn read_texts(value: Option<&Yaml>) -> (strings: Option<Vec<String>>)
    ensures
        match strings {
            Some(list) => text_list(optional_node(value)) == Some(texts(list@)),
            None => text_list(optional_node(value)) is None,
        },
{
    let items = match value {
        Some(node) => match as_list(node) {
            Some(items) => items,
            None => { return None; },
        },
        None => { return None; },
    };
    let ghost nodes = nodes_of(items@);
    let mut strings: Vec<String> = Vec::new();
    let mut index: usize = 0;
    while index < items.len()
        invariant
            index <= items.len(),
            nodes == nodes_of(items@),
            optional_node(value) == Some(Node::List(nodes)),
            strings@.len() == index,
            forall|i: int| 0 <= i < index ==> #[trigger] nodes[i] == Node::Text(strings@[i]@),
        decreases items.len() - index,
    {
        match as_text(&items[index]) {
            Some(text) => {
                strings.push(text.to_owned());
            },
            None => {
                assert(!(nodes[index as int] is Text));
                return None;
            },
        }
        index += 1;
    }
    assert(nodes.map_values(|item: Node| item->Text_0) =~= texts(strings@));
    Some(strings)
}

impl Config {
    /// The document of a catalogue that holds nothing yet: the three keys,
    /// each with an empty sequence.
    pub fn template() -> (document: Yaml)
        ensures
            node_of(document) == template_document(),
    {
        Config::empty().export()
    }

    /// The catalogue as a document. Categories and patterns keep their
    /// order.
    pub fn export(&self) -> (document: Yaml)
        ensures
            node_of(document) == document_of(self@),
    {
        proof {
            lemma_keys_differ();
        }
        let mut table = new_table();
        append_entry(&mut table, "categories", categories_to_yaml(&self.categories));
        append_entry(&mut table, "inbound_patterns", patterns_to_yaml(&self.inbound_patterns));
        append_entry(&mut table, "outbound_patterns", patterns_to_yaml(&self.outbound_patterns));
        assert(entries_of(table) =~= document_entries(self@));
        table_node(table)
    }

    /// The catalogue that a table stands for, or `None` where the table
    /// does not have the shape of one: where one of the three keys is
    /// missing or holds no sequence, a category is no string, or a pattern
    /// lacks a field of its kind.
    pub fn from_table(contents: &LinkedHashMap<Yaml, Yaml>) -> (config: Option<Config>)
        ensures
            view_of(config) == config_of(entries_of(*contents)),
            match config {
                Some(c) => c@.patterns_in_place(),
                None => true,
            },
    {
        let categories = match read_texts(table_get(contents, &text_node("categories"))) {
            Some(categories) => categories,
            None => { return None; },
        };
        let inbound_patterns = match read_patterns(
            table_get(contents, &text_node("inbound_patterns")),
            true,
        ) {
            Some(patterns) => patterns,
            None => { return None; },
        };
        let outbound_patterns = match read_patterns(
            table_get(contents, &text_node("outbound_patterns")),
            false,
        ) {
            Some(patterns) => patterns,
            None => { return None; },
        };
        let config = Config { categories, inbound_patterns, outbound_patterns };
        proof {
            lemma_loaded_patterns_in_place(entries_of(*contents));
        }
        Some(config)
    }

    /// The catalogue that a table stands for.
    ///
    /// The table must have the shape of a catalogue: see
    /// [`Config::from_table`] for tables of which that is not known.
    pub fn new(contents: LinkedHashMap<Yaml, Yaml>) -> (config: Config)
        requires
            config_of(entries_of(contents)) is Some,
        ensures
            Some(config@) == config_of(entries_of(contents)),
            config@.patterns_in_place(),
    {
        Config::from_table(&contents).unwrap()
    }
}

/// Why a text is no catalogue.
#[derive(Debug, Clone, Copy, PartialEq, Eq, Structural)]
pub enum LoadError {
    /// The text is not well-formed YAML.
    Syntax,
    /// The text holds no document.
    NoDocument,
    /// The last document of the text does not have the shape of a
    /// catalogue.
    Shape,
}

/// The catalogue that a text stands for: the one of the last document of
/// the text, or the reason why there is none.
pub open spec fn catalogue_of_text(text: Seq<char>) -> Result<ConfigView, LoadError> {
    match loaded_documents(text) {
        None => Err(LoadError::Syntax),
        Some(documents) => if documents.len() == 0 {
            Err(LoadError::NoDocument)
        } else {
            match documents.last() {
                Node::Table(entries) => match config_of(entries) {
                    Some(config) => Ok(config),
                    None => Err(LoadError::Shape),
                },
                _ => Err(LoadError::Shape),
            }
        },
    }
}

/// The text that a document is written as.
pub fn serialise(structure: &Yaml) -> (text: String)
    ensures
        text@ == emitted_text(node_of(*structure)),
{
    emit(structure)
}

/// The catalogue that a text stands for, or the reason why it stands for
/// none.
pub fn deserialise(contents: String) -> (config: Result<Config, LoadError>)
    ensures
        match config {
            Ok(c) => catalogue_of_text(contents@) == Ok::<ConfigView, LoadError>(c@),
            Err(reason) => catalogue_of_text(contents@) == Err::<ConfigView, LoadError>(reason),
        },
{
    let documents = match load(contents.as_str()) {
        Ok(documents) => documents,
        Err(_) => { return Err(LoadError::Syntax); },
    };
    if documents.len() == 0 {
        return Err(LoadError::NoDocument);
    }
    let last = &documents[documents.len() - 1];
    assert(nodes_of(documents@).last() == node_of(*last));
    match as_table(last) {
        Some(table) => match Config::from_table(table) {
            Some(config) => Ok(config),
            None => Err(LoadError::Shape),
        },
        None => Err(LoadError::Shape),
    }
}

/// In a catalogue that was read from a document, each pattern sits in the
/// list of its own direction.
pub proof fn lemma_loaded_patterns_in_place(entries: Seq<(Node, Node)>)
    ensures
        match config_of(entries) {
            Some(config) => config.patterns_in_place(),
            None => true,
        },
{
    match config_of(entries) {
        Some(config) => {
            let inbound = lookup(entries, key("inbound_patterns"@))->0->List_0;
            assert forall|i: int| 0 <= i < config.inbound_patterns.len() implies (
            #[trigger] config.inbound_patterns[i]) is Inbound by {
                assert(pattern_of(inbound[i], true) is Some);
            }
            let outbound = lookup(entries, key("outbound_patterns"@))->0->List_0;
            assert forall|i: int| 0 <= i < config.outbound_patterns.len() implies (
            #[trigger] config.outbound_patterns[i]) is Outbound by {
                assert(pattern_of(outbound[i], false) is Some);
            }
        },
        None => {},
    }
}

/// Reading the mapping that a pattern is written as, in the list of the
/// pattern's own direction, gives the pattern back.
pub proof fn lemma_pattern_round_trip(pattern: PatternView)
    ensures
        pattern_of(pattern_node(pattern), pattern is Inbound) == Some(pattern),
{
    lemma_keys_differ();
    let fields = pattern_node(pattern)->Table_0;
    let second = fields.drop_first();
    let third = second.drop_first();
    assert(second[0] == fields[1]);
    assert(third[0] == fields[2]);
    match pattern {
        PatternView::Inbound { .. } => {
            assert(lookup(fields, key("snippet"@)) == Some(fields[0].1));
            assert(lookup(second, key("category"@)) == Some(fields[1].1));
            assert(lookup(third, key("assign_as_income"@)) == Some(fields[2].1));
            assert(lookup(second, key("assign_as_income"@)) == Some(fields[2].1));
        },
        PatternView::Outbound { .. } => {
            let fourth = third.drop_first();
            let fifth = fourth.drop_first();
            assert(fourth[0] == fields[3]);
            assert(fifth[0] == fields[4]);
            assert(lookup(fields, key("snippet"@)) == Some(fields[0].1));
            assert(lookup(second, key("category"@)) == Some(fields[1].1));
            assert(lookup(third, key("assign_as_expense"@)) == Some(fields[2].1));
            assert(lookup(second, key("assign_as_expense"@)) == Some(fields[2].1));
            assert(lookup(fourth, key("assign_as_personal"@)) == Some(fields[3].1));
            assert(lookup(third, key("assign_as_personal"@)) == Some(fields[3].1));
            assert(lookup(second, key("assign_as_personal"@)) == Some(fields[3].1));
            assert(lookup(fifth, key("require_confirmation"@)) == Some(fields[4].1));
            assert(lookup(fourth, key("require_confirmation"@)) == Some(fields[4].1));
            assert(lookup(third, key("require_confirmation"@)) == Some(fields[4].1));
            assert(lookup(second, key("require_confirmation"@)) == Some(fields[4].1));
        },
    }
}

/// Round trip: reading the document that a catalogue is written as gives
/// the catalogue back, with its categories and patterns in their order and
/// every field of every pattern. It holds of every catalogue whose patterns
/// sit in the lists of their own directions.
pub proof fn lemma_export_then_load(config: ConfigView)
    requires
        config.patterns_in_place(),
    ensures
        config_of(document_entries(config)) == Some(config),
        document_of(config) == Node::Table(document_entries(config)),
{
    lemma_keys_differ();
    let entries = document_entries(config);
    let second = entries.drop_first();
    let third = second.drop_first();
    assert(second[0] == entries[1]);
    assert(third[0] == entries[2]);
    assert(lookup(entries, key("categories"@)) == Some(entries[0].1));
    assert(lookup(second, key("inbound_patterns"@)) == Some(entries[1].1));
    assert(lookup(entries, key("inbound_patterns"@)) == Some(entries[1].1));
    assert(lookup(third, key("outbound_patterns"@)) == Some(entries[2].1));
    assert(lookup(second, key("outbound_patterns"@)) == Some(entries[2].1));
    assert(lookup(entries, key("outbound_patterns"@)) == Some(entries[2].1));

    let categories = category_nodes(config.categories);
    assert(categories.map_values(|item: Node| item->Text_0) =~= config.categories);

    let inbound = pattern_nodes(config.inbound_patterns);
    assert forall|i: int| 0 <= i < inbound.len() implies pattern_of(#[trigger] inbound[i], true)
        == Some(config.inbound_patterns[i]) by {
        lemma_pattern_round_trip(config.inbound_patterns[i]);
    }
    assert(inbound.map_values(|item: Node| pattern_of(item, true)->0) =~= config.inbound_patterns);

    let outbound = pattern_nodes(config.outbound_patterns);
    assert forall|i: int| 0 <= i < outbound.len() implies pattern_of(#[trigger] outbound[i], false)
        == Some(config.outbound_patterns[i]) by {
        lemma_pattern_round_trip(config.outbound_patterns[i]);
    }
    assert(outbound.map_values(|item: Node| pattern_of(item, false)->0)
        =~= config.outbound_patterns);
}

} // verus!
