//! Small helpers over strings and association lists keyed by strings.

use vstd::prelude::*;

verus! {

/// Whether two string slices hold the same characters.
pub fn str_eq(a: &str, b: &str) -> (r: bool)
    ensures
        r == (a@ == b@),
{
    let x = a.to_owned();
    let y = b.to_owned();
    x == y
}

/// An owned copy of a string slice.
pub fn owned(s: &str) -> (r: String)
    ensures
        r@ == s@,
{
    s.to_owned()
}

/// `a` followed by `b`.
pub fn concat2(a: &str, b: &str) -> (r: String)
    ensures
        r@ == a@ + b@,
{
    let mut out = a.to_owned();
    out.append(b);
    out
}

/// `a`, `b` and `c` in a row.
pub fn concat3(a: &str, b: &str, c: &str) -> (r: String)
    ensures
        r@ == a@ + b@ + c@,
{
    let mut out = a.to_owned();
    out.append(b);
    out.append(c);
    out
}

/// The position of the first entry of `keys` equal to `key`, searching from `from`.
pub open spec fn first_index(keys: Seq<Seq<char>>, key: Seq<char>, from: int) -> Option<int>
    decreases keys.len() - from,
{
    if from < 0 || from >= keys.len() {
        None
    } else if keys[from] == key {
        Some(from)
    } else {
        first_index(keys, key, from + 1)
    }
}

/// The position of the first entry of `keys` equal to `key`.
pub open spec fn index_of(keys: Seq<Seq<char>>, key: Seq<char>) -> Option<int> {
    first_index(keys, key, 0)
}

/// What `first_index` finds is a position of `key`, and the first one from `from` on.
pub proof fn lemma_first_index(keys: Seq<Seq<char>>, key: Seq<char>, from: int)
    requires
        0 <= from,
    ensures
        match first_index(keys, key, from) {
            Some(i) => from <= i < keys.len() && keys[i] == key && forall|j: int|
                from <= j < i ==> keys[j] != key,
            None => forall|j: int| from <= j < keys.len() ==> keys[j] != key,
        },
    decreases keys.len() - from,
{
    if from < keys.len() && keys[from] != key {
        lemma_first_index(keys, key, from + 1);
    }
}

/// A position that holds `key` with no earlier one is what `index_of` finds.
pub proof fn lemma_index_of_is(keys: Seq<Seq<char>>, key: Seq<char>, i: int)
    requires
        0 <= i < keys.len(),
        keys[i] == key,
        forall|j: int| 0 <= j < i ==> keys[j] != key,
    ensures
        index_of(keys, key) == Some(i),
{
    lemma_first_index(keys, key, 0);
}

/// No position holds `key`: `index_of` finds none.
pub proof fn lemma_index_of_none(keys: Seq<Seq<char>>, key: Seq<char>)
    requires
        forall|j: int| 0 <= j < keys.len() ==> keys[j] != key,
    ensures
        index_of(keys, key).is_none(),
{
    lemma_first_index(keys, key, 0);
}

/// The position of the last entry of `keys` equal to `key` among the first `upto`.
pub open spec fn last_index(keys: Seq<Seq<char>>, key: Seq<char>, upto: int) -> Option<int>
    decreases upto,
{
    if upto <= 0 || upto > keys.len() {
        None
    } else if keys[upto - 1] == key {
        Some(upto - 1)
    } else {
        last_index(keys, key, upto - 1)
    }
}

/// The position of the last entry of `keys` equal to `key`.
pub open spec fn last_index_of(keys: Seq<Seq<char>>, key: Seq<char>) -> Option<int> {
    last_index(keys, key, keys.len() as int)
}

/// What `last_index` finds is a position of `key`, and the last one before `upto`.
pub proof fn lemma_last_index(keys: Seq<Seq<char>>, key: Seq<char>, upto: int)
    requires
        upto <= keys.len(),
    ensures
        match last_index(keys, key, upto) {
            Some(i) => 0 <= i < upto && keys[i] == key && forall|j: int|
                i < j < upto ==> keys[j] != key,
            None => forall|j: int| 0 <= j < upto ==> keys[j] != key,
        },
    decreases upto,
{
    if upto > 0 && keys[upto - 1] != key {
        lemma_last_index(keys, key, upto - 1);
    }
}

/// A position that holds `key` with no later one is what `last_index_of` finds.
pub proof fn lemma_last_index_of_is(keys: Seq<Seq<char>>, key: Seq<char>, i: int)
    requires
        0 <= i < keys.len(),
        keys[i] == key,
        forall|j: int| i < j < keys.len() ==> keys[j] != key,
    ensures
        last_index_of(keys, key) == Some(i),
{
    lemma_last_index(keys, key, keys.len() as int);
}

/// No position holds `key`: `last_index_of` finds none.
pub proof fn lemma_last_index_of_none(keys: Seq<Seq<char>>, key: Seq<char>)
    requires
        forall|j: int| 0 <= j < keys.len() ==> keys[j] != key,
    ensures
        last_index_of(keys, key).is_none(),
{
    lemma_last_index(keys, key, keys.len() as int);
}

/// Where no two entries are equal, the first and the last position of a key
/// are one.
pub proof fn lemma_distinct_has_one_position(keys: Seq<Seq<char>>, key: Seq<char>)
    requires
        distinct(keys),
    ensures
        last_index_of(keys, key) == index_of(keys, key),
{
    lemma_last_index(keys, key, keys.len() as int);
    lemma_first_index(keys, key, 0);
}

/// Whether no two entries of `keys` are equal.
pub open spec fn distinct(keys: Seq<Seq<char>>) -> bool {
    forall|i: int, j: int| 0 <= i < j < keys.len() ==> keys[i] != keys[j]
}

/// The character of a decimal digit.
pub open spec fn digit_char(d: nat) -> char {
    "0123456789"@[d as int]
}

/// The decimal text of a number, without leading zeros.
pub open spec fn decimal_text(n: nat) -> Seq<char>
    decreases n,
{
    if n < 10 {
        seq![digit_char(n)]
    } else {
        decimal_text(n / 10).push(digit_char(n % 10))
    }
}

/// Writes a number in decimal.
pub fn decimal(n: u128) -> (r: String)
    ensures
        r@ == decimal_text(n as nat),
    decreases n,
{
    let digits = "0123456789";
    proof {
        reveal_strlit("0123456789");
    }
    if n < 10 {
        let d = n as usize;
        let r = digits.substring_ascii(d, d + 1).to_owned();
        assert(r@ =~= seq![digit_char(n as nat)]);
        r
    } else {
        let mut out = decimal(n / 10);
        let d = (n % 10) as usize;
        let ghost before = out@;
        out.append(digits.substring_ascii(d, d + 1));
        assert(out@ =~= before.push(digit_char(d as nat)));
        out
    }
}

} // verus!
