//! YAML documents, as the `yaml_rust` crate holds them.
//!
//! A [`Yaml`] value and the table inside a mapping are kept as the crate
//! makes them. What they hold is named by [`node_of`] and [`entries_of`];
//! the functions of this module build and read them one level at a time.
use vstd::prelude::*;
use linked_hash_map::LinkedHashMap;
use yaml_rust::scanner::ScanError;
use yaml_rust::{Yaml, YamlEmitter, YamlLoader};

verus! {

/// A YAML value, as the `yaml_rust` crate holds it.
#[verifier::external_type_specification]
#[verifier::external_body]
pub struct ExYaml(Yaml);

/// A map that keeps its entries in the order of their insertion, as the
/// `linked_hash_map` crate holds it.
#[verifier::external_type_specification]
#[verifier::external_body]
#[verifier::reject_recursive_types(K)]
#[verifier::reject_recursive_types(V)]
#[verifier::reject_recursive_types(S)]
pub struct ExLinkedHashMap<K, V, S>(LinkedHashMap<K, V, S>);

/// The error of the `yaml_rust` scanner.
#[verifier::external_type_specification]
#[verifier::external_body]
pub struct ExScanError(ScanError);

/// What a YAML value holds. A mapping is the list of its entries, key and
/// value, in the order in which they were inserted.
pub enum Node {
    Real(Seq<char>),
    Integer(int),
    Text(Seq<char>),
    Flag(bool),
    List(Seq<Node>),
    Table(Seq<(Node, Node)>),
    Alias(int),
    Null,
    BadValue,
}

/// What a YAML value holds.
pub uninterp spec fn node_of(value: Yaml) -> Node;

/// The entries of a table, key and value, in the order in which they were
/// inserted. No two entries have the same key.
pub uninterp spec fn entries_of(table: LinkedHashMap<Yaml, Yaml>) -> Seq<(Node, Node)>;

/// The text that a document is written as.
pub uninterp spec fn emitted_text(document: Node) -> Seq<char>;

/// The documents that a text is read as, if it is well-formed YAML.
pub uninterp spec fn loaded_documents(text: Seq<char>) -> Option<Seq<Node>>;

/// What each value of a list holds, in order.
pub open spec fn nodes_of(values: Seq<Yaml>) -> Seq<Node> {
    values.map_values(|value: Yaml| node_of(value))
}

/// The entries of a table but those with the given key.
pub open spec fn without_key(entries: Seq<(Node, Node)>, key: Node) -> Seq<(Node, Node)>
    decreases entries.len(),
{
    if entries.len() == 0 {
        entries
    } else if entries.last().0 == key {
        without_key(entries.drop_last(), key)
    } else {
        without_key(entries.drop_last(), key).push(entries.last())
    }
}

/// The value of the first entry with the given key, if there is one.
pub open spec fn lookup(entries: Seq<(Node, Node)>, key: Node) -> Option<Node>
    decreases entries.len(),
{
    if entries.len() == 0 {
        None
    } else if entries[0].0 == key {
        Some(entries[0].1)
    } else {
        lookup(entries.drop_first(), key)
    }
}

/// Trusted: the variant `Yaml::String`, made of a copy of the text.
#[verifier::external_body]
pub(crate) fn text_node(text: &str) -> (value: Yaml)
    ensures
        node_of(value) == Node::Text(text@),
{
    Yaml::String(text.to_owned())
}

/// Trusted: the variant `Yaml::Boolean`.
#[verifier::external_body]
pub(crate) fn flag_node(flag: bool) -> (value: Yaml)
    ensures
        node_of(value) == Node::Flag(flag),
{
    Yaml::Boolean(flag)
}

/// Trusted: the variant `Yaml::Array`, holding the given values in order.
#[verifier::external_body]
pub(crate) fn list_node(items: Vec<Yaml>) -> (value: Yaml)
    ensures
        node_of(value) == Node::List(nodes_of(items@)),
{
    Yaml::Array(items)
}

/// Trusted: the variant `Yaml::Hash`, holding the given table.
#[verifier::external_body]
pub(crate) fn table_node(table: LinkedHashMap<Yaml, Yaml>) -> (value: Yaml)
    ensures
        node_of(value) == Node::Table(entries_of(table)),
{
    Yaml::Hash(table)
}

/// Trusted: `LinkedHashMap::new`. The new table has no entry.
#[verifier::external_body]
pub(crate) fn new_table() -> (table: LinkedHashMap<Yaml, Yaml>)
    ensures
        entries_of(table) == Seq::<(Node, Node)>::empty(),
{
    LinkedHashMap::new()
}

/// Trusted: `LinkedHashMap::insert`. The entry becomes the last one; an
/// entry that had the same key is gone from its old place.
#[verifier::external_body]
pub(crate) fn table_insert(table: &mut LinkedHashMap<Yaml, Yaml>, key: Yaml, value: Yaml)
    ensures
        entries_of(*final(table)) == without_key(entries_of(*old(table)), node_of(key)).push(
            (node_of(key), node_of(value)),
        ),
{
    table.insert(key, value);
}

/// Trusted: `LinkedHashMap::get`. The value stored under a key equal to
/// `key`, if there is one.
#[verifier::external_body]
pub(crate) fn table_get<'a>(table: &'a LinkedHashMap<Yaml, Yaml>, key: &Yaml) -> (value: Option<
    &'a Yaml,
>)
    ensures
        match value {
            Some(v) => lookup(entries_of(*table), node_of(*key)) == Some(node_of(*v)),
            None => lookup(entries_of(*table), node_of(*key)) is None,
        },
{
    table.get(key)
}

/// Trusted: `Yaml::as_str`. The text of a `Yaml::String`, `None` for every
/// other variant.
#[verifier::external_body]
pub(crate) fn as_text<'a>(value: &'a Yaml) -> (text: Option<&'a str>)
    ensures
        match text {
            Some(t) => node_of(*value) == Node::Text(t@),
            None => !(node_of(*value) is Text),
        },
{
    value.as_str()
}

/// Trusted: `Yaml::as_bool`. The flag of a `Yaml::Boolean`, `None` for
/// every other variant.
#[verifier::external_body]
pub(crate) fn as_flag(value: &Yaml) -> (flag: Option<bool>)
    ensures
        match flag {
            Some(f) => node_of(*value) == Node::Flag(f),
            None => !(node_of(*value) is Flag),
        },
{
    value.as_bool()
}

/// Trusted: `Yaml::as_vec`. The values of a `Yaml::Array`, `None` for every
/// other variant.
#[verifier::external_body]
pub(crate) fn as_list<'a>(value: &'a Yaml) -> (items: Option<&'a Vec<Yaml>>)
    ensures
        match items {
            Some(list) => node_of(*value) == Node::List(nodes_of(list@)),
            None => !(node_of(*value) is List),
        },
{
    value.as_vec()
}

/// Trusted: `Yaml::as_hash`. The table of a `Yaml::Hash`, `None` for every
/// other variant.
#[verifier::external_body]
pub(crate) fn as_table<'a>(value: &'a Yaml) -> (table: Option<&'a LinkedHashMap<Yaml, Yaml>>)
    ensures
        match table {
            Some(t) => node_of(*value) == Node::Table(entries_of(*t)),
            None => !(node_of(*value) is Table),
        },
{
    value.as_hash()
}

/// Trusted: `YamlEmitter::dump` into an empty string. The text is a
/// function of what the document holds; whether the emitter reports an
/// error is not looked at.
#[verifier::external_body]
pub(crate) fn emit(document: &Yaml) -> (text: String)
    ensures
        text@ == emitted_text(node_of(*document)),
{
    let mut text = String::new();
    let _ = YamlEmitter::new(&mut text).dump(document);
    text
}

/// Trusted: `YamlLoader::load_from_str`. The documents of a text, or the
/// scanner's error where the text is not well-formed; which of the two, and
/// what the documents hold, is a function of the text alone.
#[verifier::external_body]
pub(crate) fn load(text: &str) -> (documents: Result<Vec<Yaml>, ScanError>)
    ensures
        match documents {
            Ok(list) => loaded_documents(text@) == Some(nodes_of(list@)),
            Err(_) => loaded_documents(text@) is None,
        },
{
    YamlLoader::load_from_str(text)
}

/// Taking out a key that no entry has leaves the entries as they are.
pub proof fn lemma_without_absent_key(entries: Seq<(Node, Node)>, key: Node)
    requires
        forall|i: int| 0 <= i < entries.len() ==> (#[trigger] entries[i]).0 != key,
    ensures
        without_key(entries, key) == entries,
    decreases entries.len(),
{
    if entries.len() > 0 {
        let front = entries.drop_last();
        assert forall|i: int| 0 <= i < front.len() implies (#[trigger] front[i]).0 != key by {
            assert(front[i] == entries[i]);
        }
        lemma_without_absent_key(front, key);
        assert(entries.last() == entries[entries.len() - 1]);
        assert(front.push(entries.last()) =~= entries);
    }
}

} // verus!
