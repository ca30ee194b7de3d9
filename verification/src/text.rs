//! Numbers and names as text.
//!
//! The backend reports its base indices as decimal text and addresses windows
//! and panes by decimal position: the first half of this module defines what
//! that text means and converts in both directions. The second half orders
//! texts, so that names can be listed in ascending order.

use vstd::prelude::*;
use vstd::string::*;

verus! {

/// The character that stands for the digit `d`.
pub open spec fn digit_char(d: nat) -> char
    recommends
        d < 10,
{
    if d == 0 {
        '0'
    } else if d == 1 {
        '1'
    } else if d == 2 {
        '2'
    } else if d == 3 {
        '3'
    } else if d == 4 {
        '4'
    } else if d == 5 {
        '5'
    } else if d == 6 {
        '6'
    } else if d == 7 {
        '7'
    } else if d == 8 {
        '8'
    } else {
        '9'
    }
}

/// Whether `c` is one of the ten ASCII digits.
pub open spec fn is_digit(c: char) -> bool {
    '0' <= c && c <= '9'
}

/// The digit that `c` stands for.
pub open spec fn digit_value(c: char) -> nat
    recommends
        is_digit(c),
{
    (c as u32 - '0' as u32) as nat
}

/// The decimal representation of `n`: most significant digit first, no sign,
/// no leading zero except for zero itself.
pub open spec fn decimal(n: nat) -> Seq<char>
    decreases n,
{
    if n < 10 {
        seq![digit_char(n)]
    } else {
        decimal(n / 10).push(digit_char(n % 10))
    }
}

/// The number that a run of digits denotes, read left to right. Leading zeros
/// are allowed; the empty run denotes zero.
pub open spec fn digits_value(digits: Seq<char>) -> nat
    decreases digits.len(),
{
    if digits.len() == 0 {
        0
    } else {
        digits_value(digits.drop_last()) * 10 + digit_value(digits.last())
    }
}

/// Whether every character of `text` is a digit.
pub open spec fn all_digits(text: Seq<char>) -> bool {
    forall|i: int| 0 <= i < text.len() ==> is_digit(#[trigger] text[i])
}

/// The decimal representation consists of digits only and is never empty.
pub proof fn lemma_decimal_is_digits(n: nat)
    ensures
        decimal(n).len() >= 1,
        all_digits(decimal(n)),
    decreases n,
{
    if n >= 10 {
        lemma_decimal_is_digits(n / 10);
    }
}

/// Reading back the decimal representation of a number gives that number.
pub proof fn lemma_decimal_round_trip(n: nat)
    ensures
        digits_value(decimal(n)) == n,
    decreases n,
{
    if n < 10 {
        assert(digits_value(decimal(n).drop_last()) == 0);
    } else {
        lemma_decimal_round_trip(n / 10);
        assert(decimal(n).drop_last() =~= decimal(n / 10));
    }
}

/// Two numbers with the same decimal representation are the same number.
pub proof fn lemma_decimal_injective(a: nat, b: nat)
    requires
        decimal(a) == decimal(b),
    ensures
        a == b,
{
    lemma_decimal_round_trip(a);
    lemma_decimal_round_trip(b);
}

fn digit_str(d: usize) -> (s: &'static str)
    requires
        d < 10,
    ensures
        s@ == seq![digit_char(d as nat)],
{
    proof {
        reveal_strlit("0");
        reveal_strlit("1");
        reveal_strlit("2");
        reveal_strlit("3");
        reveal_strlit("4");
        reveal_strlit("5");
        reveal_strlit("6");
        reveal_strlit("7");
        reveal_strlit("8");
        reveal_strlit("9");
    }
    if d == 0 {
        "0"
    } else if d == 1 {
        "1"
    } else if d == 2 {
        "2"
    } else if d == 3 {
        "3"
    } else if d == 4 {
        "4"
    } else if d == 5 {
        "5"
    } else if d == 6 {
        "6"
    } else if d == 7 {
        "7"
    } else if d == 8 {
        "8"
    } else {
        "9"
    }
}

/// Writes `n` in decimal.
pub fn decimal_string(n: usize) -> (s: String)
    ensures
        s@ == decimal(n as nat),
{
    let mut s = String::from_str(digit_str(n % 10));
    let mut rest: usize = n / 10;
    while rest > 0
        invariant
            rest > 0 ==> decimal(n as nat) == decimal(rest as nat) + s@,
            rest == 0 ==> decimal(n as nat) == s@,
        decreases rest,
    {
        let head = String::from_str(digit_str(rest % 10));
        s = head.concat(s.as_str());
        rest = rest / 10;
    }
    s
}

/// Why a text is not a number that fits the machine word.
#[derive(Clone, Copy, Debug, PartialEq, Eq, Structural)]
pub enum ParseFailure {
    /// The text has no characters at all.
    Empty,
    /// A character that is not a digit stands where a digit is expected, or
    /// a sign stands alone.
    InvalidDigit,
    /// The digits read so far already denote more than `usize::MAX`.
    TooLarge,
}

/// What is left of `text` once one leading `+` is taken away.
pub open spec fn unsigned_part(text: Seq<char>) -> Seq<char> {
    if text.len() > 0 && text[0] == '+' {
        text.skip(1)
    } else {
        text
    }
}

/// Reads `digits` left to right as a number of at most `limit`. The first
/// character at which reading cannot go on decides the failure: a character
/// that is no digit, or a digit that takes the number above `limit`.
pub open spec fn read_digits(digits: Seq<char>, limit: nat) -> Result<nat, ParseFailure>
    decreases digits.len(),
{
    if digits.len() == 0 {
        Ok(0)
    } else {
        match read_digits(digits.drop_last(), limit) {
            Err(failure) => Err(failure),
            Ok(value) => if !is_digit(digits.last()) {
                Err(ParseFailure::InvalidDigit)
            } else if value * 10 + digit_value(digits.last()) > limit {
                Err(ParseFailure::TooLarge)
            } else {
                Ok(value * 10 + digit_value(digits.last()))
            },
        }
    }
}

/// What an index text denotes: an optional `+`, then one or more digits,
/// and nothing else, not even blanks. The number may not exceed `limit`.
pub open spec fn read_index(text: Seq<char>, limit: nat) -> Result<nat, ParseFailure> {
    if text.len() == 0 {
        Err(ParseFailure::Empty)
    } else if unsigned_part(text).len() == 0 {
        Err(ParseFailure::InvalidDigit)
    } else {
        read_digits(unsigned_part(text), limit)
    }
}

/// The sentence that describes a failure.
pub open spec fn failure_text(failure: ParseFailure) -> Seq<char> {
    match failure {
        ParseFailure::Empty => "cannot parse integer from empty string"@,
        ParseFailure::InvalidDigit => "invalid digit found in string"@,
        ParseFailure::TooLarge => "number too large to fit in target type"@,
    }
}

/// Reading succeeds exactly on runs of digits whose value is within the
/// limit, and then gives that value.
pub proof fn lemma_read_digits(digits: Seq<char>, limit: nat)
    ensures
        read_digits(digits, limit) is Ok <==> all_digits(digits) && digits_value(digits) <= limit,
        read_digits(digits, limit) is Ok ==> read_digits(digits, limit) == Ok::<
            nat,
            ParseFailure,
        >(digits_value(digits)),
    decreases digits.len(),
{
    if digits.len() > 0 {
        let front = digits.drop_last();
        lemma_read_digits(front, limit);
        if all_digits(digits) {
            assert(all_digits(front));
        }
        if all_digits(front) && is_digit(digits.last()) {
            assert forall|i: int| 0 <= i < digits.len() implies is_digit(#[trigger] digits[i]) by {
                if i < front.len() {
                    assert(front[i] == digits[i]);
                }
            }
        }
    }
}

/// The decimal representation of a number within the limit reads back as
/// that number.
pub proof fn lemma_read_decimal(n: nat, limit: nat)
    requires
        n <= limit,
    ensures
        read_index(decimal(n), limit) == Ok::<nat, ParseFailure>(n),
{
    lemma_decimal_is_digits(n);
    lemma_decimal_round_trip(n);
    lemma_read_digits(decimal(n), limit);
}

impl ParseFailure {
    /// The sentence that describes this failure.
    pub fn message(&self) -> (text: String)
        ensures
            text@ == failure_text(*self),
    {
        match self {
            ParseFailure::Empty => String::from_str("cannot parse integer from empty string"),
            ParseFailure::InvalidDigit => String::from_str("invalid digit found in string"),
            ParseFailure::TooLarge => String::from_str("number too large to fit in target type"),
        }
    }
}

/// The result of reading an index as plain values.
pub open spec fn index_view(result: Result<usize, ParseFailure>) -> Result<nat, ParseFailure> {
    match result {
        Ok(index) => Ok(index as nat),
        Err(failure) => Err(failure),
    }
}

/// Reads an index from text: an optional `+` and then digits, as many as
/// give a number that fits the machine word.
pub fn parse_index(text: &str) -> (result: Result<usize, ParseFailure>)
    ensures
        index_view(result) == read_index(text@, usize::MAX as nat),
{
    let len = text.unicode_len();
    if len == 0 {
        return Err(ParseFailure::Empty);
    }
    let start: usize = if text.get_char(0) == '+' {
        1
    } else {
        0
    };
    if start == len {
        return Err(ParseFailure::InvalidDigit);
    }
    let ghost digits = unsigned_part(text@);
    let ghost limit = usize::MAX as nat;
    let mut value: usize = 0;
    let mut i: usize = start;
    while i < len
        invariant
            start <= i <= len,
            len == text@.len(),
            len > 0,
            limit == usize::MAX as nat,
            digits == unsigned_part(text@),
            digits.len() == len - start,
            digits.len() > 0,
            digits == text@.skip(start as int),
            read_digits(digits.take(i - start), limit) == Ok::<nat, ParseFailure>(value as nat),
        decreases len - i,
    {
        let c = text.get_char(i);
        assert(digits.take(i - start + 1).drop_last() =~= digits.take(i - start));
        if !(c >= '0' && c <= '9') {
            proof {
                lemma_read_failure_stays(digits, (i - start + 1) as nat, limit);
            }
            return Err(ParseFailure::InvalidDigit);
        }
        let digit: usize = (c as u32 - '0' as u32) as usize;
        let next = match value.checked_mul(10) {
            Some(tens) => tens.checked_add(digit),
            None => None,
        };
        match next {
            Some(n) => {
                value = n;
            },
            None => {
                proof {
                    lemma_read_failure_stays(digits, (i - start + 1) as nat, limit);
                }
                return Err(ParseFailure::TooLarge);
            },
        }
        i = i + 1;
    }
    assert(digits.take(len - start) =~= digits);
    Ok(value)
}

/// Once reading has failed on a prefix, it fails in the same way on the whole.
pub proof fn lemma_read_failure_stays(digits: Seq<char>, n: nat, limit: nat)
    requires
        n <= digits.len(),
        read_digits(digits.take(n as int), limit) is Err,
    ensures
        read_digits(digits, limit) == read_digits(digits.take(n as int), limit),
    decreases digits.len(),
{
    if n < digits.len() {
        let front = digits.drop_last();
        assert(front.take(n as int) =~= digits.take(n as int));
        lemma_read_failure_stays(front, n, limit);
    } else {
        assert(digits.take(n as int) =~= digits);
    }
}

/// Whether two texts hold the same characters.
pub fn same_text(a: &str, b: &str) -> (same: bool)
    ensures
        same == (a@ == b@),
{
    String::from_str(a) == String::from_str(b)
}

/// Whether `a` is `b` or comes before it, texts being ordered character by
/// character and a text coming after each of its beginnings.
pub open spec fn precedes(a: Seq<char>, b: Seq<char>) -> bool
    decreases a.len(),
{
    if a.len() == 0 {
        true
    } else if b.len() == 0 {
        false
    } else if a[0] != b[0] {
        a[0] < b[0]
    } else {
        precedes(a.skip(1), b.skip(1))
    }
}

/// Whether no text comes before an earlier one.
pub open spec fn ascending(texts: Seq<Seq<char>>) -> bool {
    forall|i: int, j: int| 0 <= i <= j < texts.len() ==> precedes(texts[i], texts[j])
}

/// The characters of each of the texts.
pub open spec fn texts_view(texts: Seq<String>) -> Seq<Seq<char>> {
    Seq::new(texts.len(), |i: int| texts[i]@)
}

/// Of two texts one comes before the other, or they are the same.
pub proof fn lemma_precedes_total(a: Seq<char>, b: Seq<char>)
    ensures
        precedes(a, b) || precedes(b, a),
    decreases a.len(),
{
    if a.len() > 0 && b.len() > 0 && a[0] == b[0] {
        lemma_precedes_total(a.skip(1), b.skip(1));
    }
}

/// What comes before a text comes before everything after that text.
pub proof fn lemma_precedes_transitive(a: Seq<char>, b: Seq<char>, c: Seq<char>)
    requires
        precedes(a, b),
        precedes(b, c),
    ensures
        precedes(a, c),
    decreases a.len(),
{
    if a.len() > 0 && a[0] == b[0] && b[0] == c[0] {
        lemma_precedes_transitive(a.skip(1), b.skip(1), c.skip(1));
    }
}

/// Whether `a` is `b` or comes before it.
pub fn text_precedes(a: &str, b: &str) -> (first: bool)
    ensures
        first == precedes(a@, b@),
{
    let a_length = a.unicode_len();
    let b_length = b.unicode_len();
    let mut i: usize = 0;
    assert(a@.skip(0) =~= a@ && b@.skip(0) =~= b@);
    while i < a_length && i < b_length
        invariant
            i <= a_length,
            i <= b_length,
            a_length == a@.len(),
            b_length == b@.len(),
            precedes(a@, b@) == precedes(a@.skip(i as int), b@.skip(i as int)),
        decreases a_length - i,
    {
        let in_a = a.get_char(i);
        let in_b = b.get_char(i);
        if in_a != in_b {
            return in_a < in_b;
        }
        assert(a@.skip(i as int).skip(1) =~= a@.skip(i + 1));
        assert(b@.skip(i as int).skip(1) =~= b@.skip(i + 1));
        i = i + 1;
    }
    i == a_length
}

/// Putting a text into a list puts it into the list's contents.
proof fn lemma_insert_to_multiset(texts: Seq<Seq<char>>, at: int, text: Seq<char>)
    requires
        0 <= at <= texts.len(),
    ensures
        texts.insert(at, text).to_multiset() == texts.to_multiset().insert(text),
{
    let longer = texts.insert(at, text);
    assert(longer.remove(at) =~= texts);
    vstd::seq_lib::to_multiset_remove(longer, at);
    longer.to_multiset_ensures();
}

/// Puts `text` into an ascending list where it belongs.
fn insert_in_order(sorted: &mut Vec<String>, text: String)
    requires
        ascending(texts_view(old(sorted)@)),
    ensures
        ascending(texts_view(final(sorted)@)),
        texts_view(final(sorted)@).to_multiset() == texts_view(old(sorted)@).to_multiset().insert(
            text@,
        ),
{
    let ghost before = texts_view(sorted@);
    let mut at: usize = 0;
    while at < sorted.len() && text_precedes(sorted[at].as_str(), text.as_str())
        invariant
            at <= sorted.len(),
            sorted@ == old(sorted)@,
            before == texts_view(sorted@),
            forall|k: int| 0 <= k < at ==> precedes(#[trigger] before[k], text@),
        decreases sorted.len() - at,
    {
        at = at + 1;
    }
    sorted.insert(at, text);
    proof {
        let after = texts_view(sorted@);
        assert(after =~= before.insert(at as int, text@));
        lemma_insert_to_multiset(before, at as int, text@);
        assert forall|i: int, j: int| 0 <= i <= j < after.len() implies precedes(
            after[i],
            after[j],
        ) by {
            if i == at && j == at {
                lemma_precedes_total(text@, text@);
            } else if i == at {
                lemma_precedes_total(before[at as int], text@);
                lemma_precedes_transitive(text@, before[at as int], before[j - 1]);
            }
        }
    }
}

/// The same texts, each as often as in `texts`, in ascending order.
pub fn sort_texts(texts: &Vec<String>) -> (sorted: Vec<String>)
    ensures
        ascending(texts_view(sorted@)),
        texts_view(sorted@).to_multiset() == texts_view(texts@).to_multiset(),
{
    let mut sorted: Vec<String> = Vec::new();
    let mut i: usize = 0;
    assert(texts_view(texts@).take(0) =~= texts_view(sorted@));
    while i < texts.len()
        invariant
            i <= texts.len(),
            ascending(texts_view(sorted@)),
            texts_view(sorted@).to_multiset() == texts_view(texts@).take(i as int).to_multiset(),
        decreases texts.len() - i,
    {
        proof {
            let seen = texts_view(texts@).take(i as int);
            assert(texts_view(texts@).take(i + 1) =~= seen.push(texts@[i as int]@));
            vstd::seq_lib::to_multiset_build(seen, texts@[i as int]@);
        }
        insert_in_order(&mut sorted, texts[i].clone());
        i = i + 1;
    }
    assert(texts_view(texts@).take(i as int) =~= texts_view(texts@));
    sorted
}

} // verus!
