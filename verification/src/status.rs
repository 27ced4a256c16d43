use vstd::prelude::*;
use crate::text::chars_of;

verus! {

/// The object named by the path does not exist.
pub const STATUS_OBJECT_NAME_NOT_FOUND: u32 = 0xC000_0034;

/// The object is already marked for deletion.
pub const STATUS_DELETE_PENDING: u32 = 0xC000_0056;

/// The directory still has entries.
pub const STATUS_DIRECTORY_NOT_EMPTY: u32 = 0xC000_0101;

/// The value of a hexadecimal digit, or `None` for any other character.
pub open spec fn hex_digit(c: char) -> Option<nat> {
    if '0' <= c <= '9' {
        Some((c as u32 - '0' as u32) as nat)
    } else if 'a' <= c <= 'f' {
        Some((c as u32 - 'a' as u32 + 10) as nat)
    } else if 'A' <= c <= 'F' {
        Some((c as u32 - 'A' as u32 + 10) as nat)
    } else {
        None
    }
}

/// Whether every character is a hexadecimal digit.
pub open spec fn all_hex(digits: Seq<char>) -> bool {
    forall|i: int| 0 <= i < digits.len() ==> (#[trigger] hex_digit(digits[i])) is Some
}

/// The number that a run of hexadecimal digits denotes, most significant
/// digit first. A character that is no digit counts as zero.
pub open spec fn hex_value(digits: Seq<char>) -> nat
    decreases digits.len(),
{
    if digits.len() == 0 {
        0
    } else {
        16 * hex_value(digits.drop_last()) + match hex_digit(digits.last()) {
            Some(d) => d,
            None => 0,
        }
    }
}

/// Whether the three characters of the marker `(0x` stand at `at`.
pub open spec fn marker_at(text: Seq<char>, at: int) -> bool {
    &&& 0 <= at
    &&& at + 3 <= text.len()
    &&& text[at] == '('
    &&& text[at + 1] == '0'
    &&& text[at + 2] == 'x'
}

/// Whether `at` is where the marker `(0x` first occurs.
pub open spec fn first_marker(text: Seq<char>, at: int) -> bool {
    &&& marker_at(text, at)
    &&& forall|j: int| 0 <= j < at ==> !marker_at(text, j)
}

/// Whether the code's digits start at `from` and stop just before `to`:
/// `to` is the next `)` at or after `from`, or the end of the text when no
/// `)` follows.
pub open spec fn digits_span(text: Seq<char>, from: int, to: int) -> bool {
    &&& 0 <= from <= to <= text.len()
    &&& forall|j: int| from <= j < to ==> text[j] != ')'
    &&& to < text.len() ==> text[to] == ')'
}

/// Whether `code` is the status code that the text carries: the digits
/// between the first `(0x` and the next `)` are one or more hexadecimal
/// digits whose value fits in 32 bits.
pub open spec fn carries_status(text: Seq<char>, code: u32) -> bool {
    exists|at: int, to: int|
        {
            &&& first_marker(text, at)
            &&& #[trigger] digits_span(text, at + 3, to)
            &&& at + 3 < to
            &&& all_hex(text.subrange(at + 3, to))
            &&& hex_value(text.subrange(at + 3, to)) == code as nat
        }
}

/// Whether the text carries any status code at all.
pub open spec fn has_status(text: Seq<char>) -> bool {
    exists|code: u32| carries_status(text, code)
}

/// A digit's value never exceeds fifteen.
pub proof fn lemma_hex_digit_bound(c: char)
    ensures
        hex_digit(c) matches Some(d) ==> d < 16,
{
}

/// Appending a digit multiplies the value by sixteen and adds the digit.
pub proof fn lemma_hex_value_push(digits: Seq<char>, c: char)
    ensures
        hex_value(digits.push(c)) == 16 * hex_value(digits) + match hex_digit(c) {
            Some(d) => d,
            None => 0,
        },
{
    assert(digits.push(c).drop_last() =~= digits);
}

/// A run of digits denotes at least as much as any of its prefixes.
pub proof fn lemma_hex_value_grows(digits: Seq<char>, k: int)
    requires
        0 <= k <= digits.len(),
    ensures
        hex_value(digits.take(k)) <= hex_value(digits),
    decreases digits.len() - k,
{
    if k == digits.len() {
        assert(digits.take(k) =~= digits);
    } else {
        lemma_hex_value_grows(digits, k + 1);
        assert(digits.take(k + 1) =~= digits.take(k).push(digits[k]));
        lemma_hex_value_push(digits.take(k), digits[k]);
    }
}

/// A text carries at most one status code.
pub proof fn lemma_status_unique(text: Seq<char>, a: u32, b: u32)
    requires
        carries_status(text, a),
        carries_status(text, b),
    ensures
        a == b,
{
    let (at1, to1) = choose|at: int, to: int|
        {
            &&& first_marker(text, at)
            &&& #[trigger] digits_span(text, at + 3, to)
            &&& at + 3 < to
            &&& all_hex(text.subrange(at + 3, to))
            &&& hex_value(text.subrange(at + 3, to)) == a as nat
        };
    let (at2, to2) = choose|at: int, to: int|
        {
            &&& first_marker(text, at)
            &&& #[trigger] digits_span(text, at + 3, to)
            &&& at + 3 < to
            &&& all_hex(text.subrange(at + 3, to))
            &&& hex_value(text.subrange(at + 3, to)) == b as nat
        };
    assert(at1 == at2) by {
        if at1 < at2 {
            assert(marker_at(text, at1));
        } else if at2 < at1 {
            assert(marker_at(text, at2));
        }
    }
    assert(to1 == to2) by {
        if to1 < to2 {
            assert(text[to1] == ')');
        } else if to2 < to1 {
            assert(text[to2] == ')');
        }
    }
}

/// The value of one hexadecimal digit, or `None` for any other character.
pub fn hex_digit_value(c: char) -> (value: Option<u8>)
    ensures
        match value {
            Some(d) => hex_digit(c) == Some(d as nat),
            None => hex_digit(c) is None,
        },
{
    if '0' <= c && c <= '9' {
        Some((c as u32 - '0' as u32) as u8)
    } else if 'a' <= c && c <= 'f' {
        Some((c as u32 - 'a' as u32 + 10) as u8)
    } else if 'A' <= c && c <= 'F' {
        Some((c as u32 - 'A' as u32 + 10) as u8)
    } else {
        None
    }
}

/// Where the marker `(0x` first occurs in the text, if it does.
pub fn find_marker(text: &Vec<char>) -> (found: Option<usize>)
    ensures
        match found {
            Some(at) => first_marker(text@, at as int),
            None => forall|j: int| !marker_at(text@, j),
        },
{
    let n = text.len();
    let mut i: usize = 0;
    while i < n
        invariant
            i <= n,
            n == text.len(),
            forall|j: int| 0 <= j < i ==> !marker_at(text@, j),
        decreases n - i,
    {
        if n - i >= 3 && text[i] == '(' && text[i + 1] == '0' && text[i + 2] == 'x' {
            return Some(i);
        }
        i += 1;
    }
    None
}

/// The status code of a run of characters: the hexadecimal number that
/// stands between the first `(0x` and the next `)`.
pub fn status_in(text: &Vec<char>) -> (code: Option<u32>)
    ensures
        match code {
            Some(c) => carries_status(text@, c),
            None => !has_status(text@),
        },
        forall|c: u32| carries_status(text@, c) ==> code == Some(c),
{
    let n = text.len();
    let at = match find_marker(text) {
        Some(at) => at,
        None => {
            return None;
        },
    };
    let from: usize = at + 3;
    let mut i: usize = from;
    let mut acc: u64 = 0;
    let mut bad = false;
    while i < n && text[i] != ')'
        invariant
            from <= i <= n,
            n == text.len(),
            forall|j: int| from <= j < i ==> text@[j] != ')',
            !bad ==> all_hex(text@.subrange(from as int, i as int)),
            !bad ==> acc as nat == hex_value(text@.subrange(from as int, i as int)),
            !bad ==> acc <= u32::MAX,
            bad ==> exists|j: int|
                {
                    &&& from <= j <= i
                    &&& (!all_hex(text@.subrange(from as int, j))
                        || #[trigger] hex_value(text@.subrange(from as int, j)) > u32::MAX)
                },
        decreases n - i,
    {
        let ghost before = text@.subrange(from as int, i as int);
        let ghost after = text@.subrange(from as int, i + 1);
        proof {
            assert(after =~= before.push(text@[i as int]));
            lemma_hex_value_push(before, text@[i as int]);
            lemma_hex_digit_bound(text@[i as int]);
        }
        if !bad {
            match hex_digit_value(text[i]) {
                Some(d) => {
                    let next: u64 = acc * 16 + d as u64;
                    if next > u32::MAX as u64 {
                        bad = true;
                        assert(hex_value(after) > u32::MAX);
                    } else {
                        acc = next;
                        assert forall|j: int| 0 <= j < after.len() implies (#[trigger] hex_digit(
                            after[j],
                        )) is Some by {
                            if j < before.len() {
                                assert(after[j] == before[j]);
                            }
                        }
                    }
                },
                None => {
                    bad = true;
                    assert(hex_digit(after[after.len() - 1]) is None);
                    assert(!all_hex(after));
                },
            }
        }
        i += 1;
    }
    let ghost span = text@.subrange(from as int, i as int);
    proof {
        assert(digits_span(text@, from as int, i as int));
        // Any witness of a carried code uses this very marker and span.
        assert forall|c: u32| carries_status(text@, c) implies !bad && i > from && c as nat
            == hex_value(span) by {
            let (at2, to2) = choose|at2: int, to2: int|
                {
                    &&& first_marker(text@, at2)
                    &&& #[trigger] digits_span(text@, at2 + 3, to2)
                    &&& at2 + 3 < to2
                    &&& all_hex(text@.subrange(at2 + 3, to2))
                    &&& hex_value(text@.subrange(at2 + 3, to2)) == c as nat
                };
            assert(at2 == at) by {
                if at2 < at {
                    assert(marker_at(text@, at2));
                } else if at < at2 {
                    assert(marker_at(text@, at as int));
                }
            }
            assert(to2 == i) by {
                if to2 < i {
                    assert(text@[to2] == ')');
                } else if i < to2 {
                    assert(text@[i as int] != ')');
                }
            }
            if bad {
                let j = choose|j: int|
                    {
                        &&& from <= j <= i
                        &&& (!all_hex(text@.subrange(from as int, j))
                            || #[trigger] hex_value(text@.subrange(from as int, j)) > u32::MAX)
                    };
                assert(span.take(j - from) =~= text@.subrange(from as int, j));
                lemma_hex_value_grows(span, j - from);
                if !all_hex(span.take(j - from)) {
                    let k = choose|k: int|
                        0 <= k < span.take(j - from).len() && !((#[trigger] hex_digit(
                            span.take(j - from)[k],
                        )) is Some);
                    assert(span[k] == span.take(j - from)[k]);
                    assert(!all_hex(span));
                }
            }
        }
    }
    if bad || i == from {
        None
    } else {
        Some(acc as u32)
    }
}

/// The status code that an error's text carries, if it carries one.
///
/// The session renders a failed request as text that holds the code in the
/// shape `(0xNNNNNNNN)`; the code is read from the first such marker.
pub fn ntstatus_from_err_display(text: &str) -> (code: Option<u32>)
    ensures
        match code {
            Some(c) => carries_status(text@, c),
            None => !has_status(text@),
        },
        forall|c: u32| carries_status(text@, c) ==> code == Some(c),
{
    let chars = chars_of(text);
    status_in(&chars)
}

} // verus!
