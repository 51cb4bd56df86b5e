//! Reading the small pieces of text the daemon is configured and queried
//! with: decimal numbers, fractions and comma-separated lists.

use vstd::prelude::*;

verus! {

/// Whether `c` is one of the ten ASCII digits.
pub open spec fn is_digit(c: char) -> bool {
    '0' <= c <= '9'
}

/// The number a digit stands for; zero for any other character.
pub open spec fn digit_value(c: char) -> nat {
    if is_digit(c) {
        (c as u32 - '0' as u32) as nat
    } else {
        0
    }
}

/// Whether `text` holds digits only.
pub open spec fn all_digits(text: Seq<char>) -> bool {
    forall|i: int| 0 <= i < text.len() ==> is_digit(#[trigger] text[i])
}

/// The number that `digits` writes in base ten, most significant digit
/// first.
pub open spec fn decimal_value(digits: Seq<char>) -> nat
    decreases digits.len(),
{
    if digits.len() == 0 {
        0
    } else {
        decimal_value(digits.drop_last()) * 10 + digit_value(digits.last())
    }
}

/// `text` without one leading plus sign, if it has one.
pub open spec fn without_sign(text: Seq<char>) -> Seq<char> {
    if text.len() > 0 && text[0] == '+' {
        text.subrange(1, text.len() as int)
    } else {
        text
    }
}

/// What `text` reads as: an optional plus sign, then at least one digit and
/// nothing but digits, naming a number that fits in 64 bits.
pub open spec fn parsed_u64(text: Seq<char>) -> Option<u64> {
    let digits = without_sign(text);
    if digits.len() > 0 && all_digits(digits) && decimal_value(digits) <= u64::MAX {
        Some(decimal_value(digits) as u64)
    } else {
        None
    }
}

/// A number never reads smaller than what its leading digits read as.
pub proof fn decimal_value_grows(digits: Seq<char>, len: int)
    requires
        0 <= len <= digits.len(),
    ensures
        decimal_value(digits.subrange(0, len)) <= decimal_value(digits),
    decreases digits.len(),
{
    if len == digits.len() {
        assert(digits.subrange(0, len) =~= digits);
    } else {
        decimal_value_grows(digits.drop_last(), len);
        assert(digits.drop_last().subrange(0, len) =~= digits.subrange(0, len));
    }
}

/// Reads a decimal number.
pub fn parse_u64(text: &str) -> (number: Option<u64>)
    ensures
        number == parsed_u64(text@),
{
    let len: usize = text.unicode_len();
    let start: usize = if len > 0 && text.get_char(0) == '+' {
        1
    } else {
        0
    };
    if start == len {
        return None;
    }
    let ghost digits = without_sign(text@);
    let mut value: u64 = 0;
    let mut at: usize = start;
    while at < len
        invariant
            start <= at <= len,
            len == text@.len(),
            digits == text@.subrange(start as int, len as int),
            digits == without_sign(text@),
            all_digits(digits.subrange(0, at - start)),
            value == decimal_value(digits.subrange(0, at - start)),
        decreases len - at,
    {
        let c: char = text.get_char(at);
        let ghost seen = digits.subrange(0, at - start);
        let ghost more = digits.subrange(0, at - start + 1);
        proof {
            assert(more.drop_last() =~= seen);
            assert(more.last() == c);
            decimal_value_grows(digits, at - start + 1);
        }
        if !(c >= '0' && c <= '9') {
            assert(!is_digit(digits[at - start]));
            return None;
        }
        let digit: u64 = (c as u32 - '0' as u32) as u64;
        let shifted: u64 = match value.checked_mul(10) {
            Some(shifted) => shifted,
            None => {
                return None;
            },
        };
        value = match shifted.checked_add(digit) {
            Some(sum) => sum,
            None => {
                return None;
            },
        };
        at = at + 1;
        proof {
            assert forall|i: int| 0 <= i < more.len() implies is_digit(#[trigger] more[i]) by {
                if i < seen.len() {
                    assert(more[i] == seen[i]);
                }
            }
        }
    }
    assert(digits.subrange(0, at - start) =~= digits);
    Some(value)
}

/// Whether `at` is where `mark` first stands in `text`.
pub open spec fn is_first_at(text: Seq<char>, mark: char, at: int) -> bool {
    &&& 0 <= at < text.len()
    &&& text[at] == mark
    &&& forall|i: int| 0 <= i < at ==> text[i] != mark
}

/// `text` cut at the first `mark`: what stands before it and what stands
/// after it. `None` where `text` holds no `mark`.
pub open spec fn cut_at_first(text: Seq<char>, mark: char) -> Option<(Seq<char>, Seq<char>)> {
    if text.contains(mark) {
        let at = choose|at: int| is_first_at(text, mark, at);
        Some((text.subrange(0, at), text.subrange(at + 1, text.len() as int)))
    } else {
        None
    }
}

/// The first `mark` in a text stands at one place only.
pub proof fn first_is_unique(text: Seq<char>, mark: char, at: int)
    requires
        is_first_at(text, mark, at),
    ensures
        text.contains(mark),
        cut_at_first(text, mark) == Some(
            (text.subrange(0, at), text.subrange(at + 1, text.len() as int)),
        ),
{
    let chosen = choose|other: int| is_first_at(text, mark, other);
    assert(is_first_at(text, mark, chosen));
    if chosen < at {
        assert(text[chosen] != mark);
    }
    if at < chosen {
        assert(text[at] != mark);
    }
}

/// Where `mark` first stands in `text`, counted in characters.
pub fn find_first(text: &str, mark: char) -> (found: Option<usize>)
    ensures
        match found {
            Some(at) => is_first_at(text@, mark, at as int),
            None => !text@.contains(mark),
        },
{
    let len: usize = text.unicode_len();
    let mut at: usize = 0;
    while at < len
        invariant
            at <= len,
            len == text@.len(),
            forall|i: int| 0 <= i < at ==> text@[i] != mark,
        decreases len - at,
    {
        if text.get_char(at) == mark {
            return Some(at);
        }
        at = at + 1;
    }
    None
}

/// Cuts `text` at the first `mark`.
pub fn split_once<'a>(text: &'a str, mark: char) -> (halves: Option<(&'a str, &'a str)>)
    ensures
        match halves {
            Some((before, after)) => cut_at_first(text@, mark) == Some((before@, after@)),
            None => cut_at_first(text@, mark) is None,
        },
{
    match find_first(text, mark) {
        Some(at) => {
            proof {
                first_is_unique(text@, mark, at as int);
            }
            let len: usize = text.unicode_len();
            Some((text.substring_char(0, at), text.substring_char(at + 1, len)))
        },
        None => None,
    }
}

/// The texts that `parts` hold, in order.
pub open spec fn texts(parts: Seq<String>) -> Seq<Seq<char>> {
    Seq::new(parts.len(), |i: int| parts[i]@)
}

/// `parts` written one after the other with `mark` between each two.
pub open spec fn joined(parts: Seq<Seq<char>>, mark: char) -> Seq<char>
    decreases parts.len(),
{
    if parts.len() == 0 {
        Seq::empty()
    } else if parts.len() == 1 {
        parts[0]
    } else {
        joined(parts.drop_last(), mark) + seq![mark] + parts.last()
    }
}

/// Whether `parts` are what `text` falls into at every `mark`: joined they
/// give `text` back, and none of them holds a `mark`. A text always falls
/// into at least one part, which may be empty.
pub open spec fn is_split_of(parts: Seq<Seq<char>>, text: Seq<char>, mark: char) -> bool {
    &&& parts.len() >= 1
    &&& joined(parts, mark) == text
    &&& forall|i: int| 0 <= i < parts.len() ==> !(#[trigger] parts[i]).contains(mark)
}

/// Where the last of two or more joined parts begins: right after the last
/// `mark` of the whole.
proof fn joined_ends_in_last_part(parts: Seq<Seq<char>>, mark: char)
    requires
        parts.len() >= 2,
        !parts.last().contains(mark),
    ensures
        ({
            let text = joined(parts, mark);
            let cut = joined(parts.drop_last(), mark).len() as int;
            &&& text.len() == cut + 1 + parts.last().len()
            &&& text[cut] == mark
            &&& text.subrange(0, cut) == joined(parts.drop_last(), mark)
            &&& text.subrange(cut + 1, text.len() as int) == parts.last()
            &&& forall|i: int| cut < i < text.len() ==> text[i] != mark
        }),
{
    let text = joined(parts, mark);
    let head = joined(parts.drop_last(), mark);
    let cut = head.len() as int;
    assert(text == head + seq![mark] + parts.last());
    assert(text.subrange(0, cut) =~= head);
    assert(text.subrange(cut + 1, text.len() as int) =~= parts.last());
    assert forall|i: int| cut < i < text.len() implies text[i] != mark by {
        assert(text[i] == parts.last()[i - cut - 1]);
        if text[i] == mark {
            assert(parts.last().contains(mark));
        }
    }
}

/// A text falls into parts in one way only.
pub proof fn split_is_unique(
    first: Seq<Seq<char>>,
    second: Seq<Seq<char>>,
    text: Seq<char>,
    mark: char,
)
    requires
        is_split_of(first, text, mark),
        is_split_of(second, text, mark),
    ensures
        first == second,
    decreases first.len(),
{
    if first.len() == 1 || second.len() == 1 {
        let (one, other) = if first.len() == 1 {
            (first, second)
        } else {
            (second, first)
        };
        assert(!one[0].contains(mark));
        if other.len() > 1 {
            assert(!other[other.len() - 1].contains(mark));
            joined_ends_in_last_part(other, mark);
            let cut = joined(other.drop_last(), mark).len() as int;
            assert(one[0][cut] == mark);
            assert(one[0].contains(mark));
        }
        assert(first =~= second);
    } else {
        assert(!first[first.len() - 1].contains(mark));
        assert(!second[second.len() - 1].contains(mark));
        joined_ends_in_last_part(first, mark);
        joined_ends_in_last_part(second, mark);
        let cut = joined(first.drop_last(), mark).len() as int;
        let other_cut = joined(second.drop_last(), mark).len() as int;
        assert(cut == other_cut);
        let head = text.subrange(0, cut);
        assert forall|i: int| 0 <= i < first.drop_last().len() implies !(
        #[trigger] first.drop_last()[i]).contains(mark) by {
            assert(first.drop_last()[i] == first[i]);
        }
        assert forall|i: int| 0 <= i < second.drop_last().len() implies !(
        #[trigger] second.drop_last()[i]).contains(mark) by {
            assert(second.drop_last()[i] == second[i]);
        }
        split_is_unique(first.drop_last(), second.drop_last(), head, mark);
        assert(first =~= first.drop_last().push(first.last()));
        assert(second =~= second.drop_last().push(second.last()));
    }
}

/// Cuts `text` at every `mark`.
pub fn split_all(text: &str, mark: char) -> (parts: Vec<String>)
    ensures
        is_split_of(texts(parts@), text@, mark),
{
    let len: usize = text.unicode_len();
    let mut parts: Vec<String> = Vec::new();
    let mut start: usize = 0;
    let mut at: usize = 0;
    while at < len
        invariant
            start <= at <= len,
            len == text@.len(),
            forall|i: int| start <= i < at ==> text@[i] != mark,
            forall|i: int| 0 <= i < parts@.len() ==> !(#[trigger] texts(parts@)[i]).contains(mark),
            parts@.len() == 0 ==> start == 0,
            parts@.len() > 0 ==> joined(texts(parts@), mark) + seq![mark] == text@.subrange(
                0,
                start as int,
            ),
        decreases len - at,
    {
        if text.get_char(at) == mark {
            let part: &str = text.substring_char(start, at);
            let ghost before = parts@;
            parts.push(part.to_owned());
            proof {
                let now = texts(parts@);
                assert(now.drop_last() =~= texts(before));
                assert(now.last() == part@);
                assert forall|i: int| 0 <= i < now.len() implies !(#[trigger] now[i]).contains(
                    mark,
                ) by {
                    if i < before.len() {
                        assert(now[i] == texts(before)[i]);
                    } else {
                        assert(forall|k: int| 0 <= k < part@.len() ==> part@[k] == text@[start + k]);
                    }
                }
                if before.len() == 0 {
                    assert(joined(now, mark) + seq![mark] =~= text@.subrange(0, at + 1));
                } else {
                    assert(joined(now, mark) + seq![mark] =~= text@.subrange(0, start as int)
                        + part@ + seq![mark]);
                    assert(text@.subrange(0, start as int) + part@ + seq![mark] =~= text@.subrange(
                        0,
                        at + 1,
                    ));
                }
            }
            start = at + 1;
        }
        at = at + 1;
    }
    let part: &str = text.substring_char(start, len);
    let ghost before = parts@;
    parts.push(part.to_owned());
    proof {
        let now = texts(parts@);
        assert(now.drop_last() =~= texts(before));
        assert(now.last() == part@);
        assert forall|i: int| 0 <= i < now.len() implies !(#[trigger] now[i]).contains(mark) by {
            if i < before.len() {
                assert(now[i] == texts(before)[i]);
            } else {
                assert(forall|k: int| 0 <= k < part@.len() ==> part@[k] == text@[start + k]);
            }
        }
        if before.len() == 0 {
            assert(part@ =~= text@);
        } else {
            assert(text@.subrange(0, start as int) + part@ =~= text@);
        }
    }
    parts
}

/// How a peer is named in the log: its id, then the address it is
/// reached at.
pub open spec fn peer_label(peer_id: Seq<char>, url: Seq<char>) -> Seq<char> {
    "peer: "@ + peer_id + ", url: "@ + url
}

/// Names a peer for the log.
pub fn fmt_peer_url(peer_id: &str, url: &str) -> (label: String)
    ensures
        label@ == peer_label(peer_id@, url@),
{
    let mut label: String = "peer: ".to_owned();
    label.append(peer_id);
    label.append(", url: ");
    label.append(url);
    label
}

} // verus!
