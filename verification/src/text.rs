use vstd::prelude::*;
use vstd::string::{StrSliceExecFns, StringExecFns};

verus! {

broadcast use vstd::string::group_string_axioms;

/// The text of an optional string.
pub open spec fn opt_text(o: Option<&str>) -> Option<Seq<char>> {
    match o {
        Some(t) => Some(t@),
        None => None,
    }
}

/// Whether `needle` occurs in `hay` as a contiguous run of characters.
pub open spec fn occurs_in(needle: Seq<char>, hay: Seq<char>) -> bool {
    exists|i: int| 0 <= i && i + needle.len() <= hay.len() && #[trigger] hay.subrange(i, i + needle.len()) == needle
}

/// The character of a decimal digit.
pub open spec fn digit_char(d: nat) -> char {
    if d == 0 { '0' }
    else if d == 1 { '1' }
    else if d == 2 { '2' }
    else if d == 3 { '3' }
    else if d == 4 { '4' }
    else if d == 5 { '5' }
    else if d == 6 { '6' }
    else if d == 7 { '7' }
    else if d == 8 { '8' }
    else { '9' }
}

/// Decimal digits of a natural number, most significant first, without leading zeros.
pub open spec fn decimal_digits(n: nat) -> Seq<char>
    decreases n,
{
    if n < 10 {
        seq![digit_char(n)]
    } else {
        decimal_digits(n / 10).push(digit_char(n % 10))
    }
}

/// The decimal text of an integer, as `to_string` writes it.
pub open spec fn decimal(i: int) -> Seq<char> {
    if i < 0 {
        seq!['-'] + decimal_digits((-i) as nat)
    } else {
        decimal_digits(i as nat)
    }
}

/// The characters of a string, in order.
pub fn chars_of(s: &str) -> (v: Vec<char>)
    ensures
        v@ == s@,
{
    let mut v: Vec<char> = Vec::new();
    for c in it: s.chars()
        invariant
            it.seq() == s@,
            v@ == s@.take(it.index() as int),
    {
        v.push(c);
        assert(v@ =~= s@.take(it.index() + 1));
    }
    assert(v@ =~= s@);
    v
}

/// Whether two strings hold the same characters.
pub fn str_eq(a: &str, b: &str) -> (r: bool)
    ensures
        r == (a@ == b@),
{
    let x = chars_of(a);
    let y = chars_of(b);
    if x.len() != y.len() {
        return false;
    }
    let mut i: usize = 0;
    while i < x.len()
        invariant
            x@ == a@,
            y@ == b@,
            x.len() == y.len(),
            i <= x.len(),
            forall|j: int| 0 <= j < i ==> x@[j] == y@[j],
        decreases x.len() - i,
    {
        if x[i] != y[i] {
            return false;
        }
        i += 1;
    }
    assert(a@ =~= b@);
    true
}

fn matches_at(hay: &Vec<char>, needle: &Vec<char>, start: usize) -> (r: bool)
    requires
        start + needle.len() <= hay.len(),
    ensures
        r == (hay@.subrange(start as int, start + needle.len()) == needle@),
{
    let mut j: usize = 0;
    while j < needle.len()
        invariant
            start + needle.len() <= hay.len(),
            j <= needle.len(),
            forall|k: int| 0 <= k < j ==> hay@[start + k] == needle@[k],
        decreases needle.len() - j,
    {
        if hay[start + j] != needle[j] {
            assert(hay@.subrange(start as int, start + needle.len())[j as int] != needle@[j as int]);
            return false;
        }
        j += 1;
    }
    assert(hay@.subrange(start as int, start + needle.len()) =~= needle@);
    true
}

/// Whether `needle` occurs in `hay`, as `str::contains` answers for a string pattern.
pub fn contains_text(hay: &str, needle: &str) -> (r: bool)
    ensures
        r == occurs_in(needle@, hay@),
{
    let h = chars_of(hay);
    let n = chars_of(needle);
    if n.len() == 0 {
        assert(hay@.subrange(0, 0 + needle@.len() as int) =~= needle@);
        return true;
    }
    if n.len() > h.len() {
        return false;
    }
    let last = h.len() - n.len();
    let mut i: usize = 0;
    while i <= last
        invariant
            h@ == hay@,
            n@ == needle@,
            last == h.len() - n.len(),
            n.len() > 0,
            i <= last + 1,
            forall|k: int| 0 <= k < i ==> #[trigger] h@.subrange(k, k + n.len()) != n@,
        decreases last + 1 - i,
    {
        if matches_at(&h, &n, i) {
            return true;
        }
        i += 1;
    }
    false
}

/// The one-character text of a decimal digit.
fn digit_str(d: u64) -> (s: &'static str)
    requires
        d < 10,
    ensures
        s@ == seq![digit_char(d as nat)],
{
    proof {
        reveal_strlit("0");
        reveal_strlit("1");
        reveal_strlit("2");
        reveal_strlit("3");
        reveal_strlit("4");
        reveal_strlit("5");
        reveal_strlit("6");
        reveal_strlit("7");
        reveal_strlit("8");
        reveal_strlit("9");
    }
    if d == 0 { "0" }
    else if d == 1 { "1" }
    else if d == 2 { "2" }
    else if d == 3 { "3" }
    else if d == 4 { "4" }
    else if d == 5 { "5" }
    else if d == 6 { "6" }
    else if d == 7 { "7" }
    else if d == 8 { "8" }
    else { "9" }
}

pub open spec fn digit_chars(ds: Seq<u64>) -> Seq<char> {
    ds.map_values(|d: u64| digit_char(d as nat))
}

/// The decimal text of an integer (what `i64::to_string` returns).
pub fn decimal_string(n: i64) -> (s: String)
    ensures
        s@ == decimal(n as int),
{
    let neg = n < 0;
    let mag: u64 = if neg { ((-(n + 1)) as u64) + 1 } else { n as u64 };
    let mut digits: Vec<u64> = Vec::new();
    digits.push(mag % 10);
    let mut m: u64 = mag / 10;
    assert(digit_chars(digits@) =~= seq![digit_char((mag % 10) as nat)]);
    while m > 0
        invariant
            m > 0 ==> decimal_digits(mag as nat) == decimal_digits(m as nat) + digit_chars(digits@),
            m == 0 ==> decimal_digits(mag as nat) == digit_chars(digits@),
            forall|k: int| 0 <= k < digits.len() ==> digits@[k] < 10,
        decreases m,
    {
        let ghost old_digits = digits@;
        digits.insert(0, m % 10);
        assert(digit_chars(digits@) =~= seq![digit_char((m % 10) as nat)] + digit_chars(old_digits));
        m = m / 10;
    }
    let mut s = String::new();
    if neg {
        proof {
            reveal_strlit("-");
        }
        s.append("-");
    }
    let ghost prefix = s@;
    let mut i: usize = 0;
    while i < digits.len()
        invariant
            i <= digits.len(),
            forall|k: int| 0 <= k < digits.len() ==> digits@[k] < 10,
            s@ == prefix + digit_chars(digits@).take(i as int),
        decreases digits.len() - i,
    {
        s.append(digit_str(digits[i]));
        assert(digit_chars(digits@).take(i + 1) =~= digit_chars(digits@).take(i as int) + seq![digit_char(digits@[i as int] as nat)]);
        i += 1;
    }
    assert(digit_chars(digits@).take(digits.len() as int) =~= digit_chars(digits@));
    s
}

/// The texts joined with `sep` between neighbours (`[..].join(sep)`).
pub open spec fn joined(items: Seq<Seq<char>>, sep: Seq<char>) -> Seq<char>
    decreases items.len(),
{
    if items.len() == 0 {
        Seq::empty()
    } else if items.len() == 1 {
        items[0]
    } else {
        joined(items.drop_last(), sep) + sep + items.last()
    }
}

/// Joins the texts with `sep` between neighbours.
pub fn join_texts(items: &Vec<String>, sep: &str) -> (r: String)
    ensures
        r@ == joined(items@.map_values(|s: String| s@), sep@),
{
    let ghost views = items@.map_values(|s: String| s@);
    let mut r = String::new();
    let mut i: usize = 0;
    while i < items.len()
        invariant
            views == items@.map_values(|s: String| s@),
            i <= items.len(),
            r@ == joined(views.take(i as int), sep@),
        decreases items.len() - i,
    {
        if i != 0 {
            r.append(sep);
        }
        r.append(items[i].as_str());
        assert(views.take(i + 1).drop_last() =~= views.take(i as int));
        if i == 0 {
            assert(r@ =~= joined(views.take(1), sep@));
        }
        i += 1;
    }
    assert(views.take(items.len() as int) =~= views);
    r
}

/// The pieces of a text between the separators, as `str::split` with a
/// character gives them (empty pieces included; an empty text is one empty piece).
pub open spec fn split_on(s: Seq<char>, sep: char) -> Seq<Seq<char>>
    decreases s.len(),
{
    if s.len() == 0 {
        seq![Seq::<char>::empty()]
    } else {
        let rest = split_on(s.drop_last(), sep);
        if s.last() == sep {
            rest.push(Seq::empty())
        } else {
            rest.update(rest.len() - 1, rest.last().push(s.last()))
        }
    }
}

proof fn lemma_split_on_nonempty(s: Seq<char>, sep: char)
    ensures
        split_on(s, sep).len() > 0,
    decreases s.len(),
{
    if s.len() > 0 {
        lemma_split_on_nonempty(s.drop_last(), sep);
    }
}

/// Splits a text at each separator character.
pub fn split_text(s: &str, sep: char) -> (r: Vec<String>)
    ensures
        r@.map_values(|p: String| p@) == split_on(s@, sep),
{
    let c = chars_of(s);
    let mut pieces: Vec<String> = Vec::new();
    let mut start: usize = 0;
    let mut i: usize = 0;
    assert(s@.take(0) =~= Seq::<char>::empty());
    assert(pieces@.map_values(|p: String| p@).push(s@.subrange(0, 0)) =~= seq![Seq::<char>::empty()]);
    while i < c.len()
        invariant
            c@ == s@,
            start <= i <= c.len(),
            pieces@.map_values(|p: String| p@).push(s@.subrange(start as int, i as int)) == split_on(s@.take(i as int), sep),
        decreases c.len() - i,
    {
        let ghost before = pieces@.map_values(|p: String| p@);
        proof {
            lemma_split_on_nonempty(s@.take(i as int), sep);
            assert(s@.take(i + 1).drop_last() =~= s@.take(i as int));
        }
        if c[i] == sep {
            let ghost t = s@.take(i + 1);
            let ghost rest = split_on(s@.take(i as int), sep);
            assert(t.last() == sep);
            assert(split_on(t, sep) == rest.push(Seq::empty()));
            pieces.push(s.substring_char(start, i).to_owned());
            assert(pieces@.map_values(|p: String| p@) =~= before.push(s@.subrange(start as int, i as int)));
            start = i + 1;
            assert(s@.subrange(start as int, i + 1) =~= Seq::<char>::empty());
            assert(pieces@.map_values(|p: String| p@).push(s@.subrange(start as int, i + 1)) =~= split_on(s@.take(i + 1), sep));
        } else {
            let ghost t = s@.take(i + 1);
            let ghost rest = split_on(s@.take(i as int), sep);
            assert(t.last() == s@[i as int]);
            assert(split_on(t, sep) == rest.update(rest.len() - 1, rest.last().push(t.last())));
            assert(rest.last() == s@.subrange(start as int, i as int));
            assert(s@.subrange(start as int, i + 1) =~= s@.subrange(start as int, i as int).push(s@[i as int]));
            assert(pieces@.map_values(|p: String| p@).push(s@.subrange(start as int, i + 1)) =~= split_on(s@.take(i + 1), sep));
        }
        i += 1;
    }
    pieces.push(s.substring_char(start, c.len()).to_owned());
    assert(s@.take(c.len() as int) =~= s@);
    assert(pieces@.map_values(|p: String| p@) =~= split_on(s@, sep));
    pieces
}

/// Every character of the decimal digits of a number is a digit.
pub proof fn lemma_decimal_digits_are_digits(n: nat)
    ensures
        decimal_digits(n).len() > 0,
        forall|i: int| 0 <= i < decimal_digits(n).len() ==> '0' <= #[trigger] decimal_digits(n)[i] <= '9',
    decreases n,
{
    if n >= 10 {
        lemma_decimal_digits_are_digits(n / 10);
    }
}

/// The decimal text of an integer begins with a digit, or with `-` and a digit.
pub proof fn lemma_decimal_shape(i: int)
    ensures
        decimal(i).len() > 0,
        decimal(i)[0] == '-' || '0' <= decimal(i)[0] <= '9',
        decimal(i)[0] == '-' ==> decimal(i).len() > 1 && '0' <= decimal(i)[1] <= '9',
{
    if i < 0 {
        lemma_decimal_digits_are_digits((-i) as nat);
    } else {
        lemma_decimal_digits_are_digits(i as nat);
    }
}

} // verus!
