//! The catalogue of known categories and learned patterns.
use vstd::prelude::*;
use crate::entry_manager::{Pattern, PatternView};
use crate::raw_entry::{Direction, RawEntry};
use crate::text::{same_text, texts};

verus! {

/// The categories known so far, in the order in which they were added, and
/// the learned patterns, one list for each direction, each in the order in
/// which its patterns were learned.
#[derive(Debug)]
pub struct Config {
    pub categories: Vec<String>,
    pub inbound_patterns: Vec<Pattern>,
    pub outbound_patterns: Vec<Pattern>,
}

/// What a [`Config`] holds, as mathematical values.
pub struct ConfigView {
    pub categories: Seq<Seq<char>>,
    pub inbound_patterns: Seq<PatternView>,
    pub outbound_patterns: Seq<PatternView>,
}

/// The views of a list of patterns, in order.
pub open spec fn pattern_views(patterns: Seq<Pattern>) -> Seq<PatternView> {
    patterns.map_values(|p: Pattern| p@)
}

impl View for Config {
    type V = ConfigView;

    open spec fn view(&self) -> ConfigView {
        ConfigView {
            categories: texts(self.categories@),
            inbound_patterns: pattern_views(self.inbound_patterns@),
            outbound_patterns: pattern_views(self.outbound_patterns@),
        }
    }
}

/// `index` is the place of the first pattern of the list that matches
/// `description`.
pub open spec fn is_first_match(patterns: Seq<PatternView>, description: Seq<char>, index: int)
    -> bool {
    &&& 0 <= index < patterns.len()
    &&& patterns[index].matches(description)
    &&& forall|earlier: int|
        0 <= earlier < index ==> !(#[trigger] patterns[earlier]).matches(description)
}

/// The pattern that a lookup finds in a list: the first one that matches
/// `description`, if any does.
pub open spec fn found_pattern(patterns: Seq<PatternView>, description: Seq<char>) -> Option<
    PatternView,
> {
    if exists|index: int| is_first_match(patterns, description, index) {
        Some(patterns[choose|index: int| is_first_match(patterns, description, index)])
    } else {
        None
    }
}

/// No pattern of the list matches `description`.
pub open spec fn none_matches(patterns: Seq<PatternView>, description: Seq<char>) -> bool {
    forall|i: int| 0 <= i < patterns.len() ==> !(#[trigger] patterns[i]).matches(description)
}

impl ConfigView {
    /// The catalogue with no category and no pattern.
    pub open spec fn empty() -> ConfigView {
        ConfigView {
            categories: Seq::empty(),
            inbound_patterns: Seq::empty(),
            outbound_patterns: Seq::empty(),
        }
    }

    /// Each pattern sits in the list of its own direction.
    pub open spec fn patterns_in_place(self) -> bool {
        &&& forall|i: int|
            0 <= i < self.inbound_patterns.len() ==> (#[trigger] self.inbound_patterns[i])
                is Inbound
        &&& forall|i: int|
            0 <= i < self.outbound_patterns.len() ==> (#[trigger] self.outbound_patterns[i])
                is Outbound
    }

    /// No category occurs twice, and each pattern sits in the list of its
    /// own direction.
    pub open spec fn well_formed(self) -> bool {
        &&& self.categories.no_duplicates()
        &&& self.patterns_in_place()
    }

    /// The list of patterns that entries of the given direction are matched
    /// against.
    pub open spec fn bucket(self, direction: Direction) -> Seq<PatternView> {
        match direction {
            Direction::Outbound => self.outbound_patterns,
            Direction::Inbound => self.inbound_patterns,
        }
    }

    /// The catalogue with `name` among its categories: unchanged where it
    /// is there already, else with `name` added at the end.
    pub open spec fn with_category(self, name: Seq<char>) -> ConfigView {
        if self.categories.contains(name) {
            self
        } else {
            ConfigView { categories: self.categories.push(name), ..self }
        }
    }

    /// The catalogue with `pattern` added at the end of the list of its
    /// direction.
    pub open spec fn with_pattern(self, pattern: PatternView) -> ConfigView {
        match pattern.direction() {
            Direction::Inbound => ConfigView {
                inbound_patterns: self.inbound_patterns.push(pattern),
                ..self
            },
            Direction::Outbound => ConfigView {
                outbound_patterns: self.outbound_patterns.push(pattern),
                ..self
            },
        }
    }
}

impl Config {
    /// A catalogue with no category and no pattern.
    pub fn empty() -> (config: Config)
        ensures
            config@ == ConfigView::empty(),
            config@.well_formed(),
    {
        let config = Config {
            categories: Vec::new(),
            inbound_patterns: Vec::new(),
            outbound_patterns: Vec::new(),
        };
        assert(config@.categories =~= Seq::empty());
        assert(config@.inbound_patterns =~= Seq::empty());
        assert(config@.outbound_patterns =~= Seq::empty());
        config
    }

    /// The patterns that entries of the given direction are matched
    /// against.
    pub fn patterns(&self, direction: Direction) -> (patterns: &Vec<Pattern>)
        ensures
            pattern_views(patterns@) == self@.bucket(direction),
            patterns@ == match direction {
                Direction::Outbound => self.outbound_patterns@,
                Direction::Inbound => self.inbound_patterns@,
            },
    {
        match direction {
            Direction::Outbound => &self.outbound_patterns,
            Direction::Inbound => &self.inbound_patterns,
        }
    }

    /// The place of the first pattern for the entry's direction whose
    /// snippet occurs in the entry's description, if there is one.
    pub fn find_pattern_index(&self, entry: &RawEntry) -> (found: Option<usize>)
        ensures
            match found {
                Some(index) => is_first_match(
                    self@.bucket(entry.direction),
                    entry.description@,
                    index as int,
                ),
                None => none_matches(self@.bucket(entry.direction), entry.description@),
            },
    {
        let patterns = self.patterns(entry.direction);
        let mut index: usize = 0;
        while index < patterns.len()
            invariant
                index <= patterns.len(),
                pattern_views(patterns@) == self@.bucket(entry.direction),
                forall|earlier: int|
                    0 <= earlier < index ==> !(#[trigger] pattern_views(
                        patterns@,
                    )[earlier]).matches(entry.description@),
            decreases patterns.len() - index,
        {
            if patterns[index].matches(entry.description.as_str()) {
                return Some(index);
            }
            index += 1;
        }
        None
    }

    /// The first pattern for the entry's direction whose snippet occurs in
    /// the entry's description: patterns are tried in the order in which
    /// they were learned, and the first match wins.
    pub fn find_pattern(&self, entry: &RawEntry) -> (found: Option<&Pattern>)
        ensures
            match found {
                Some(pattern) => exists|index: int|
                    is_first_match(self@.bucket(entry.direction), entry.description@, index)
                        && *pattern == #[trigger] self.patterns_of(entry.direction)[index],
                None => none_matches(self@.bucket(entry.direction), entry.description@),
            },
            found_pattern(self@.bucket(entry.direction), entry.description@) == match found {
                Some(pattern) => Some(pattern@),
                None => None,
            },
            found == self.stored_match(entry.direction, entry.description@),
    {
        match self.find_pattern_index(entry) {
            Some(index) => {
                let patterns = self.patterns(entry.direction);
                assert(is_first_match(
                    self@.bucket(entry.direction),
                    entry.description@,
                    index as int,
                ) && patterns[index as int] == self.patterns_of(entry.direction)[index as int]);
                proof {
                    lemma_first_match_unique(
                        self@.bucket(entry.direction),
                        entry.description@,
                        index as int,
                    );
                }
                Some(&patterns[index])
            },
            None => {
                proof {
                    lemma_no_match_finds_nothing(self@.bucket(entry.direction), entry.description@);
                }
                None
            },
        }
    }

    /// The stored patterns for a direction.
    pub open spec fn patterns_of(&self, direction: Direction) -> Seq<Pattern> {
        match direction {
            Direction::Outbound => self.outbound_patterns@,
            Direction::Inbound => self.inbound_patterns@,
        }
    }

    /// The stored pattern that a lookup finds for a direction and a
    /// description: the first one that matches, if any does.
    pub open spec fn stored_match(&self, direction: Direction, description: Seq<char>) -> Option<
        &Pattern,
    > {
        if exists|index: int| is_first_match(self@.bucket(direction), description, index) {
            Some(
                &self.patterns_of(direction)[choose|index: int|
                    is_first_match(self@.bucket(direction), description, index)],
            )
        } else {
            None
        }
    }

    /// Whether `name` is a known category.
    pub fn has_category(&self, name: &str) -> (known: bool)
        ensures
            known == self@.categories.contains(name@),
    {
        let mut index: usize = 0;
        while index < self.categories.len()
            invariant
                index <= self.categories.len(),
                forall|earlier: int|
                    0 <= earlier < index ==> (#[trigger] texts(self.categories@)[earlier]) != name@,
            decreases self.categories.len() - index,
        {
            if same_text(self.categories[index].as_str(), name) {
                assert(texts(self.categories@)[index as int] == name@);
                return true;
            }
            index += 1;
        }
        false
    }

    /// Makes `name` a known category. A name that is known already is not
    /// added again; a new one goes to the end.
    pub fn add_category(&mut self, name: &str)
        ensures
            final(self)@ == old(self)@.with_category(name@),
            old(self)@.well_formed() ==> final(self)@.well_formed(),
    {
        if !self.has_category(name) {
            self.categories.push(name.to_owned());
            assert(texts(self.categories@) =~= texts(old(self).categories@).push(name@));
        }
    }

    /// Adds `pattern` at the end of the list of its direction. Patterns
    /// with a snippet that is stored already are added all the same.
    pub fn learn_pattern(&mut self, pattern: Pattern)
        ensures
            final(self)@ == old(self)@.with_pattern(pattern@),
            old(self)@.well_formed() ==> final(self)@.well_formed(),
    {
        match pattern {
            Pattern::Inbound { .. } => {
                self.inbound_patterns.push(pattern);
                assert(pattern_views(self.inbound_patterns@) =~= pattern_views(
                    old(self).inbound_patterns@,
                ).push(pattern@));
            },
            Pattern::Outbound { .. } => {
                self.outbound_patterns.push(pattern);
                assert(pattern_views(self.outbound_patterns@) =~= pattern_views(
                    old(self).outbound_patterns@,
                ).push(pattern@));
            },
        }
    }
}

/// A list has at most one first match, and [`found_pattern`] is the pattern
/// at that place.
pub proof fn lemma_first_match_unique(
    patterns: Seq<PatternView>,
    description: Seq<char>,
    index: int,
)
    requires
        is_first_match(patterns, description, index),
    ensures
        found_pattern(patterns, description) == Some(patterns[index]),
        forall|other: int| is_first_match(patterns, description, other) ==> other == index,
{
    let chosen = choose|i: int| is_first_match(patterns, description, i);
    assert(chosen == index) by {
        if chosen < index {
            assert(!patterns[chosen].matches(description));
        } else if index < chosen {
            assert(!patterns[index].matches(description));
        }
    }
    assert forall|other: int| is_first_match(patterns, description, other) implies other
        == index by {
        if other < index {
            assert(!patterns[other].matches(description));
        } else if index < other {
            assert(!patterns[index].matches(description));
        }
    }
}

/// Where nothing matches, [`found_pattern`] finds nothing.
pub proof fn lemma_no_match_finds_nothing(patterns: Seq<PatternView>, description: Seq<char>)
    requires
        none_matches(patterns, description),
    ensures
        found_pattern(patterns, description) is None,
{
}

/// Adding a category twice is the same as adding it once.
pub proof fn lemma_add_category_idempotent(config: ConfigView, name: Seq<char>)
    ensures
        config.with_category(name).with_category(name) == config.with_category(name),
        config.with_category(name).categories.contains(name),
{
    if !config.categories.contains(name) {
        let added = config.categories.push(name);
        assert(added[added.len() - 1] == name);
    }
}

/// First match wins: of two patterns of one list that both match a
/// description, the later one is never the one that is found.
pub proof fn lemma_earlier_pattern_wins(
    patterns: Seq<PatternView>,
    description: Seq<char>,
    earlier: int,
    later: int,
    found: int,
)
    requires
        0 <= earlier < later < patterns.len(),
        patterns[earlier].matches(description),
        patterns[later].matches(description),
        is_first_match(patterns, description, found),
    ensures
        found <= earlier,
        found != later,
{
}

/// Of two matching patterns learned one after the other into a list in
/// which nothing matched before, lookups find the one learned first.
pub proof fn lemma_first_learned_is_found(
    config: ConfigView,
    first: PatternView,
    second: PatternView,
    description: Seq<char>,
)
    requires
        first.direction() == second.direction(),
        first.matches(description),
        second.matches(description),
        none_matches(config.bucket(first.direction()), description),
    ensures
        is_first_match(
            config.with_pattern(first).with_pattern(second).bucket(first.direction()),
            description,
            config.bucket(first.direction()).len() as int,
        ),
        config.with_pattern(first).with_pattern(second).bucket(first.direction())[config.bucket(
            first.direction(),
        ).len() as int] == first,
{
}

} // verus!
