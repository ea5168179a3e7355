//! Direction labels and the key under which two labels count as the same.
//!
//! A label is what a player types or a passage carries: "north", " North ",
//! "NORTH". Its key is the label without the white space around it and with
//! its ASCII capital letters in lower case. White space is what Unicode
//! calls so; letters outside ASCII keep their case.

use vstd::prelude::*;

verus! {

/// Whether `c` has the Unicode property `White_Space`.
pub open spec fn is_whitespace(c: char) -> bool {
    let code = c as u32;
    ||| 0x09 <= code <= 0x0D
    ||| code == 0x20
    ||| code == 0x85
    ||| code == 0xA0
    ||| code == 0x1680
    ||| 0x2000 <= code <= 0x200A
    ||| code == 0x2028
    ||| code == 0x2029
    ||| code == 0x202F
    ||| code == 0x205F
    ||| code == 0x3000
}

/// Tells whether `c` is white space.
pub fn is_whitespace_char(c: char) -> (white: bool)
    ensures
        white == is_whitespace(c),
{
    let code: u32 = c as u32;
    (0x09 <= code && code <= 0x0D) || code == 0x20 || code == 0x85 || code == 0xA0 || code
        == 0x1680 || (0x2000 <= code && code <= 0x200A) || code == 0x2028 || code == 0x2029
        || code == 0x202F || code == 0x205F || code == 0x3000
}

/// The lower-case form of an ASCII capital letter; any other character is
/// left as it is.
pub open spec fn ascii_lower(c: char) -> char {
    if 'A' <= c <= 'Z' {
        ((c as u8) + 32) as char
    } else {
        c
    }
}

/// Folds an ASCII capital letter to lower case.
pub fn to_ascii_lower(c: char) -> (lower: char)
    ensures
        lower == ascii_lower(c),
{
    if 'A' <= c && c <= 'Z' {
        let byte: u8 = c as u8;
        (byte + 32) as char
    } else {
        c
    }
}

/// The characters of `text`, in order.
pub fn chars_of(text: &str) -> (chars: Vec<char>)
    ensures
        chars@ == text@,
{
    broadcast use vstd::string::group_string_axioms;

    let mut chars: Vec<char> = Vec::new();
    for c in it: text.chars()
        invariant
            it.seq() == text@,
            chars@ == text@.take(it.index()),
    {
        chars.push(c);
    }
    chars
}

/// Whether every character of `text` is white space.
pub open spec fn all_whitespace(text: Seq<char>) -> bool {
    forall|k: int| 0 <= k < text.len() ==> is_whitespace(#[trigger] text[k])
}

/// `label` without its leading white space.
pub open spec fn trim_start(label: Seq<char>) -> Seq<char>
    decreases label.len(),
{
    if label.len() > 0 && is_whitespace(label[0]) {
        trim_start(label.drop_first())
    } else {
        label
    }
}

/// `label` without its trailing white space.
pub open spec fn trim_end(label: Seq<char>) -> Seq<char>
    decreases label.len(),
{
    if label.len() > 0 && is_whitespace(label.last()) {
        trim_end(label.drop_last())
    } else {
        label
    }
}

/// `label` without the white space that surrounds it.
pub open spec fn trimmed(label: Seq<char>) -> Seq<char> {
    trim_end(trim_start(label))
}

/// `text` with every ASCII capital letter folded to lower case.
pub open spec fn lowered(text: Seq<char>) -> Seq<char> {
    Seq::new(text.len(), |k: int| ascii_lower(text[k]))
}

/// The key of a direction label: the label without surrounding white space,
/// in lower case. Two labels name the same direction exactly when their keys
/// are equal.
pub open spec fn direction_key(label: Seq<char>) -> Seq<char> {
    lowered(trimmed(label))
}

/// Leading white space ends where the first other character stands.
proof fn lemma_trim_start_at(label: Seq<char>, from: int)
    requires
        0 <= from <= label.len(),
        all_whitespace(label.take(from)),
        from == label.len() || !is_whitespace(label[from]),
    ensures
        trim_start(label) == label.skip(from),
    decreases from,
{
    if from == 0 {
        assert(label.skip(0) =~= label);
    } else {
        assert(label.take(from)[0] == label[0]);
        let rest = label.drop_first();
        assert forall|k: int| 0 <= k < from - 1 implies is_whitespace(
            #[trigger] rest.take(from - 1)[k],
        ) by {
            assert(label.take(from)[k + 1] == rest.take(from - 1)[k]);
        }
        lemma_trim_start_at(rest, from - 1);
        assert(rest.skip(from - 1) =~= label.skip(from));
    }
}

/// Trailing white space begins right after the last other character.
proof fn lemma_trim_end_at(label: Seq<char>, to: int)
    requires
        0 <= to <= label.len(),
        all_whitespace(label.skip(to)),
        to == 0 || !is_whitespace(label[to - 1]),
    ensures
        trim_end(label) == label.take(to),
    decreases label.len() - to,
{
    if to == label.len() {
        assert(label.take(to) =~= label);
    } else {
        assert(label.skip(to)[label.len() - to - 1] == label.last());
        let rest = label.drop_last();
        assert forall|k: int| 0 <= k < rest.len() - to implies is_whitespace(
            #[trigger] rest.skip(to)[k],
        ) by {
            assert(label.skip(to)[k] == rest.skip(to)[k]);
        }
        lemma_trim_end_at(rest, to);
        assert(rest.take(to) =~= label.take(to));
    }
}

/// What is left of a label is the stretch between its surrounding white
/// space: from the first character that is not white space up to the last.
pub proof fn lemma_trimmed_between(label: Seq<char>, from: int, to: int)
    requires
        0 <= from <= to <= label.len(),
        all_whitespace(label.take(from)),
        all_whitespace(label.skip(to)),
        from == to || (!is_whitespace(label[from]) && !is_whitespace(label[to - 1])),
    ensures
        trimmed(label) == label.subrange(from, to),
{
    if from == to {
        assert forall|k: int| 0 <= k < label.len() implies is_whitespace(
            #[trigger] label.take(label.len() as int)[k],
        ) by {
            if k < from {
                assert(label.take(from)[k] == label[k]);
            } else {
                assert(label.skip(to)[k - to] == label[k]);
            }
        }
        lemma_trim_start_at(label, label.len() as int);
        assert(label.skip(label.len() as int) =~= label.subrange(from, to));
    } else {
        lemma_trim_start_at(label, from);
        let tail = label.skip(from);
        assert(tail.skip(to - from) =~= label.skip(to));
        lemma_trim_end_at(tail, to - from);
        assert(tail.take(to - from) =~= label.subrange(from, to));
    }
}

/// Folding the case of a character does not change whether it is white space.
proof fn lemma_lower_keeps_whitespace(c: char)
    ensures
        is_whitespace(ascii_lower(c)) == is_whitespace(c),
{
}

/// Where the leading white space of `label` ends.
proof fn lemma_leading_whitespace(label: Seq<char>) -> (from: int)
    ensures
        0 <= from <= label.len(),
        all_whitespace(label.take(from)),
        from == label.len() || !is_whitespace(label[from]),
    decreases label.len(),
{
    if label.len() > 0 && is_whitespace(label[0]) {
        let rest = label.drop_first();
        let inner = lemma_leading_whitespace(rest);
        assert forall|k: int| 0 <= k < inner + 1 implies is_whitespace(
            #[trigger] label.take(inner + 1)[k],
        ) by {
            if k > 0 {
                assert(rest.take(inner)[k - 1] == label[k]);
            }
        }
        inner + 1
    } else {
        0
    }
}

/// Where the trailing white space of `label` begins.
proof fn lemma_trailing_whitespace(label: Seq<char>) -> (to: int)
    ensures
        0 <= to <= label.len(),
        all_whitespace(label.skip(to)),
        to == 0 || !is_whitespace(label[to - 1]),
    decreases label.len(),
{
    if label.len() > 0 && is_whitespace(label.last()) {
        let rest = label.drop_last();
        let inner = lemma_trailing_whitespace(rest);
        assert forall|k: int| 0 <= k < label.len() - inner implies is_whitespace(
            #[trigger] label.skip(inner)[k],
        ) by {
            if k < rest.len() - inner {
                assert(rest.skip(inner)[k] == label[inner + k]);
            }
        }
        inner
    } else {
        label.len() as int
    }
}

/// Every label has a stretch between its surrounding white space, and that
/// stretch is what trimming leaves.
pub proof fn lemma_trim_bounds(label: Seq<char>) -> (bounds: (int, int))
    ensures
        0 <= bounds.0 <= bounds.1 <= label.len(),
        all_whitespace(label.take(bounds.0)),
        all_whitespace(label.skip(bounds.1)),
        bounds.0 == bounds.1 || (!is_whitespace(label[bounds.0]) && !is_whitespace(
            label[bounds.1 - 1],
        )),
        trimmed(label) == label.subrange(bounds.0, bounds.1),
{
    let from = lemma_leading_whitespace(label);
    let bounds = if from == label.len() {
        assert(label.skip(from).len() == 0);
        (from, from)
    } else {
        let to = lemma_trailing_whitespace(label);
        if to <= from {
            assert(label.skip(to)[from - to] == label[from]);
        }
        (from, to)
    };
    lemma_trimmed_between(label, bounds.0, bounds.1);
    bounds
}

/// Case is ignored: two labels that are equal once their ASCII capital
/// letters are folded to lower case have the same key.
pub proof fn lemma_key_ignores_case(left: Seq<char>, right: Seq<char>)
    requires
        lowered(left) == lowered(right),
    ensures
        direction_key(left) == direction_key(right),
{
    assert(left.len() == lowered(left).len() && right.len() == lowered(right).len());
    assert forall|k: int| 0 <= k < left.len() implies is_whitespace(left[k]) == is_whitespace(
        right[k],
    ) by {
        assert(lowered(left)[k] == ascii_lower(left[k]));
        assert(lowered(right)[k] == ascii_lower(right[k]));
        assert(ascii_lower(left[k]) == ascii_lower(right[k]));
        lemma_lower_keeps_whitespace(left[k]);
        lemma_lower_keeps_whitespace(right[k]);
    }
    let (from, to) = lemma_trim_bounds(left);
    assert forall|k: int| 0 <= k < from implies is_whitespace(#[trigger] right.take(from)[k]) by {
        assert(left.take(from)[k] == left[k]);
    }
    assert forall|k: int| 0 <= k < right.len() - to implies is_whitespace(
        #[trigger] right.skip(to)[k],
    ) by {
        assert(left.skip(to)[k] == left[to + k]);
    }
    lemma_trimmed_between(right, from, to);
    assert forall|k: int| 0 <= k < to - from implies lowered(left.subrange(from, to))[k]
        == lowered(right.subrange(from, to))[k] by {
        assert(lowered(left)[from + k] == ascii_lower(left[from + k]));
        assert(lowered(right)[from + k] == ascii_lower(right[from + k]));
        assert(left.subrange(from, to)[k] == left[from + k]);
        assert(right.subrange(from, to)[k] == right[from + k]);
    }
    assert(lowered(left.subrange(from, to)) =~= lowered(right.subrange(from, to)));
}

/// Surrounding white space is ignored: white space put before and after a
/// label leaves its key as it was.
pub proof fn lemma_key_ignores_surrounding_whitespace(
    lead: Seq<char>,
    label: Seq<char>,
    trail: Seq<char>,
)
    requires
        all_whitespace(lead),
        all_whitespace(trail),
    ensures
        direction_key(lead + label + trail) == direction_key(label),
{
    let padded = lead + label + trail;
    let (from, to) = lemma_trim_bounds(label);
    let shift = lead.len() as int;
    assert forall|k: int| 0 <= k < shift + from implies is_whitespace(
        #[trigger] padded.take(shift + from)[k],
    ) by {
        if k < shift {
            assert(padded[k] == lead[k]);
        } else {
            assert(padded[k] == label.take(from)[k - shift]);
        }
    }
    assert forall|k: int| 0 <= k < padded.len() - (shift + to) implies is_whitespace(
        #[trigger] padded.skip(shift + to)[k],
    ) by {
        let at = shift + to + k;
        if at < shift + label.len() {
            assert(padded[at] == label.skip(to)[k]);
        } else {
            assert(padded[at] == trail[at - shift - label.len()]);
        }
    }
    if from < to {
        assert(padded[shift + from] == label[from]);
        assert(padded[shift + to - 1] == label[to - 1]);
    }
    lemma_trimmed_between(padded, shift + from, shift + to);
    assert(padded.subrange(shift + from, shift + to) =~= label.subrange(from, to));
}

/// Computes the key of a direction label.
pub fn normalize_direction(label: &str) -> (key: Vec<char>)
    ensures
        key@ == direction_key(label@),
{
    let chars = chars_of(label);
    let mut from: usize = 0;
    while from < chars.len() && is_whitespace_char(chars[from])
        invariant
            from <= chars.len(),
            all_whitespace(chars@.take(from as int)),
        decreases chars.len() - from,
    {
        from += 1;
    }
    let mut to: usize = chars.len();
    while to > from && is_whitespace_char(chars[to - 1])
        invariant
            from <= to <= chars.len(),
            all_whitespace(chars@.skip(to as int)),
        decreases to,
    {
        to -= 1;
        assert forall|k: int| 0 <= k < chars@.skip(to as int).len() implies is_whitespace(
            #[trigger] chars@.skip(to as int)[k],
        ) by {
            if k > 0 {
                assert(chars@.skip(to + 1)[k - 1] == chars@.skip(to as int)[k]);
            }
        }
    }
    proof {
        lemma_trimmed_between(chars@, from as int, to as int);
    }
    let mut key: Vec<char> = Vec::new();
    let mut at: usize = from;
    while at < to
        invariant
            from <= at <= to <= chars.len(),
            key@ == lowered(chars@.subrange(from as int, at as int)),
        decreases to - at,
    {
        key.push(to_ascii_lower(chars[at]));
        at += 1;
    }
    key
}

/// Tells whether `label` has the key `key`.
pub fn has_direction_key(label: &str, key: &Vec<char>) -> (same: bool)
    ensures
        same == (direction_key(label@) == key@),
{
    let own = normalize_direction(label);
    if own.len() != key.len() {
        return false;
    }
    let mut at: usize = 0;
    while at < own.len()
        invariant
            own@ == direction_key(label@),
            own.len() == key.len(),
            at <= own.len(),
            own@.take(at as int) == key@.take(at as int),
        decreases own.len() - at,
    {
        if own[at] != key[at] {
            assert(own@[at as int] != key@[at as int]);
            return false;
        }
        at += 1;
    }
    assert(own@.take(at as int) == own@ && key@.take(at as int) == key@);
    true
}

/// Tells whether two labels name the same direction.
pub fn same_direction(left: &str, right: &str) -> (same: bool)
    ensures
        same == (direction_key(left@) == direction_key(right@)),
{
    let key = normalize_direction(right);
    has_direction_key(left, &key)
}

} // verus!
