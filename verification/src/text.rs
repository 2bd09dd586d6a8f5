//! Text operations that the rest of the library states its contracts over.
use vstd::prelude::*;
use vstd::string::StringSliceAdditionalSpecFns;
use vstd::utf8::encode_utf8;

verus! {

/// Whether `c` counts as whitespace when a string is trimmed. The set is the
/// one the standard library uses (the Unicode `White_Space` property); it is
/// not spelled out here.
pub uninterp spec fn is_whitespace(c: char) -> bool;

/// `s` without its leading whitespace.
pub open spec fn trim_start(s: Seq<char>) -> Seq<char>
    decreases s.len(),
{
    if s.len() > 0 && is_whitespace(s.first()) {
        trim_start(s.drop_first())
    } else {
        s
    }
}

/// `s` without its trailing whitespace.
pub open spec fn trim_end(s: Seq<char>) -> Seq<char>
    decreases s.len(),
{
    if s.len() > 0 && is_whitespace(s.last()) {
        trim_end(s.drop_last())
    } else {
        s
    }
}

/// `s` without the whitespace that surrounds it.
pub open spec fn trimmed(s: Seq<char>) -> Seq<char> {
    trim_end(trim_start(s))
}

/// Every character of `s` is whitespace.
pub open spec fn all_whitespace(s: Seq<char>) -> bool {
    forall|i: int| 0 <= i < s.len() ==> is_whitespace(#[trigger] s[i])
}

/// `needle` occurs in `haystack` as a run of consecutive characters.
pub open spec fn occurs_in(needle: Seq<char>, haystack: Seq<char>) -> bool {
    exists|start: int|
        0 <= start && start + needle.len() <= haystack.len() && #[trigger] haystack.subrange(
            start,
            start + needle.len(),
        ) == needle
}

/// The texts of a list of strings, in order.
pub open spec fn texts(strings: Seq<String>) -> Seq<Seq<char>> {
    strings.map_values(|s: String| s@)
}

/// The character for a digit from 0 to 9.
pub open spec fn digit_char(digit: int) -> char {
    "0123456789"@[digit]
}

/// The decimal digits of a number that is not negative, without leading
/// zeros; `0` for zero.
pub open spec fn digits_of(number: int) -> Seq<char>
    decreases number,
{
    if number < 10 {
        seq![digit_char(number)]
    } else {
        digits_of(number / 10).push(digit_char(number % 10))
    }
}

/// The last `width` decimal digits of a number that is not negative, with
/// zeros in front where the number has fewer.
pub open spec fn padded(number: int, width: int) -> Seq<char>
    decreases width,
{
    if width <= 0 {
        Seq::empty()
    } else {
        padded(number / 10, width - 1).push(digit_char(number % 10))
    }
}

/// Trusted: `str::trim`. The result is the argument with its leading and
/// trailing whitespace removed, so it neither starts nor ends with a
/// whitespace character.
#[verifier::external_body]
pub(crate) fn trim(s: &str) -> (core: &str)
    ensures
        core@ == trimmed(s@),
        core@.len() > 0 ==> !is_whitespace(core@.first()) && !is_whitespace(core@.last()),
{
    s.trim()
}

/// Trusted: `str::contains` with a string pattern. True exactly when the
/// pattern occurs somewhere in the string, compared character by character
/// and with case kept.
#[verifier::external_body]
pub(crate) fn contains(haystack: &str, needle: &str) -> (found: bool)
    ensures
        found == occurs_in(needle@, haystack@),
{
    haystack.contains(needle)
}

/// Whether two string slices hold the same characters.
pub fn same_text(left: &str, right: &str) -> (same: bool)
    ensures
        same == (left@ == right@),
{
    let a = left.as_bytes();
    let b = right.as_bytes();
    proof {
        vstd::utf8::encode_utf8_decode_utf8(left@);
        vstd::utf8::encode_utf8_decode_utf8(right@);
    }
    if a.len() != b.len() {
        return false;
    }
    let mut index: usize = 0;
    while index < a.len()
        invariant
            index <= a.len(),
            a@.len() == b@.len(),
            a@ == encode_utf8(left@),
            b@ == encode_utf8(right@),
            forall|i: int| 0 <= i < index ==> a@[i] == b@[i],
        decreases a.len() - index,
    {
        if a[index] != b[index] {
            return false;
        }
        index += 1;
    }
    assert(a@ =~= b@);
    true
}

/// Leading whitespace in front of a string does not change what
/// [`trim_start`] leaves.
pub proof fn lemma_trim_start_skips_padding(padding: Seq<char>, s: Seq<char>)
    requires
        all_whitespace(padding),
    ensures
        trim_start(padding + s) == trim_start(s),
    decreases padding.len(),
{
    if padding.len() == 0 {
        assert(padding + s =~= s);
    } else {
        let rest = padding.drop_first();
        assert(is_whitespace(padding[0]));
        assert((padding + s).first() == padding[0]);
        assert((padding + s).drop_first() =~= rest + s);
        assert forall|i: int| 0 <= i < rest.len() implies is_whitespace(#[trigger] rest[i]) by {
            assert(rest[i] == padding[i + 1]);
        }
        lemma_trim_start_skips_padding(rest, s);
    }
}

/// Trailing whitespace behind a string does not change what [`trim_end`]
/// leaves.
pub proof fn lemma_trim_end_skips_padding(s: Seq<char>, padding: Seq<char>)
    requires
        all_whitespace(padding),
    ensures
        trim_end(s + padding) == trim_end(s),
    decreases padding.len(),
{
    if padding.len() == 0 {
        assert(s + padding =~= s);
    } else {
        let rest = padding.drop_last();
        assert(is_whitespace(padding[padding.len() - 1]));
        assert((s + padding).last() == padding[padding.len() - 1]);
        assert((s + padding).drop_last() =~= s + rest);
        assert forall|i: int| 0 <= i < rest.len() implies is_whitespace(#[trigger] rest[i]) by {
            assert(rest[i] == padding[i]);
        }
        lemma_trim_end_skips_padding(s, rest);
    }
}

/// Surrounding a string with whitespace does not change its trimmed form.
pub proof fn lemma_trimmed_ignores_padding(before: Seq<char>, s: Seq<char>, after: Seq<char>)
    requires
        all_whitespace(before),
        all_whitespace(after),
    ensures
        trimmed(before + s + after) == trimmed(s),
{
    assert(before + s + after =~= before + (s + after));
    lemma_trim_start_skips_padding(before, s + after);
    lemma_trim_start_append(s, after);
}

/// Trimming the start of `s + after` and then its end gives the trimmed
/// form of `s`, when `after` is whitespace only.
proof fn lemma_trim_start_append(s: Seq<char>, after: Seq<char>)
    requires
        all_whitespace(after),
    ensures
        trim_end(trim_start(s + after)) == trim_end(trim_start(s)),
    decreases s.len(),
{
    if s.len() == 0 {
        assert(s + after =~= after);
        lemma_trim_start_all_whitespace(after);
        assert(trim_start(s) =~= Seq::<char>::empty());
    } else if is_whitespace(s.first()) {
        assert((s + after).first() == s.first());
        assert((s + after).drop_first() =~= s.drop_first() + after);
        lemma_trim_start_append(s.drop_first(), after);
    } else {
        assert((s + after).first() == s.first());
        lemma_trim_end_skips_padding(s, after);
    }
}

/// A string of whitespace only trims to nothing from the start.
proof fn lemma_trim_start_all_whitespace(s: Seq<char>)
    requires
        all_whitespace(s),
    ensures
        trim_start(s) == Seq::<char>::empty(),
        trim_end(Seq::<char>::empty()) == Seq::<char>::empty(),
    decreases s.len(),
{
    if s.len() > 0 {
        let rest = s.drop_first();
        assert(is_whitespace(s[0]));
        assert forall|i: int| 0 <= i < rest.len() implies is_whitespace(#[trigger] rest[i]) by {
            assert(rest[i] == s[i + 1]);
        }
        lemma_trim_start_all_whitespace(rest);
    } else {
        assert(s =~= Seq::<char>::empty());
    }
}

} // verus!
