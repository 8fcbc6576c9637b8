//! Text as sequences of characters: splitting, searching, substitution, numbers.
use vstd::prelude::*;
use vstd::utf8::is_ascii_chars;

verus! {

/// Whitespace that separates words: the ASCII whitespace characters, or every
/// character with the Unicode property White_Space.
pub open spec fn is_space(c: char, ascii: bool) -> bool {
    if ascii {
        c == '\t' || c == '\n' || c == '\u{c}' || c == '\r' || c == ' '
    } else {
        ||| '\t' <= c <= '\r'
        ||| c == ' '
        ||| c == '\u{85}'
        ||| c == '\u{a0}'
        ||| c == '\u{1680}'
        ||| '\u{2000}' <= c <= '\u{200a}'
        ||| c == '\u{2028}'
        ||| c == '\u{2029}'
        ||| c == '\u{202f}'
        ||| c == '\u{205f}'
        ||| c == '\u{3000}'
    }
}

/// Length of the run of non-whitespace at the start of `s`.
pub open spec fn word_len(s: Seq<char>, ascii: bool) -> nat
    decreases s.len(),
{
    if s.len() == 0 || is_space(s[0], ascii) {
        0
    } else {
        1 + word_len(s.drop_first(), ascii)
    }
}

/// A run of non-whitespace is no longer than its text, and not empty where one starts.
pub proof fn lemma_word_len(s: Seq<char>, ascii: bool)
    ensures
        word_len(s, ascii) <= s.len(),
        s.len() > 0 && !is_space(s[0], ascii) ==> word_len(s, ascii) > 0,
    decreases s.len(),
{
    if s.len() != 0 && !is_space(s[0], ascii) {
        lemma_word_len(s.drop_first(), ascii);
    }
}

/// The words of `s`: its maximal runs of non-whitespace, in order.
pub open spec fn words(s: Seq<char>, ascii: bool) -> Seq<Seq<char>>
    decreases s.len(),
{
    if s.len() == 0 {
        Seq::empty()
    } else if is_space(s[0], ascii) {
        words(s.drop_first(), ascii)
    } else {
        proof {
            lemma_word_len(s, ascii);
        }
        let n = word_len(s, ascii) as int;
        seq![s.take(n)] + words(s.skip(n), ascii)
    }
}

/// Whether `s` is without whitespace.
pub open spec fn is_word(s: Seq<char>, ascii: bool) -> bool {
    forall|i: int| 0 <= i < s.len() ==> !is_space(#[trigger] s[i], ascii)
}

/// The words of a text are not empty, and hold no whitespace.
pub proof fn law_words_are_words(s: Seq<char>, ascii: bool)
    ensures
        forall|i: int|
            0 <= i < words(s, ascii).len() ==> (#[trigger] words(s, ascii)[i]).len() > 0 && is_word(
                words(s, ascii)[i],
                ascii,
            ),
    decreases s.len(),
{
    if s.len() != 0 {
        if is_space(s[0], ascii) {
            law_words_are_words(s.drop_first(), ascii);
            assert(words(s, ascii) == words(s.drop_first(), ascii));
        } else {
            lemma_word_len(s, ascii);
            lemma_word_is_word(s, ascii);
            let n = word_len(s, ascii) as int;
            let rest = words(s.skip(n), ascii);
            law_words_are_words(s.skip(n), ascii);
            assert(words(s, ascii) == seq![s.take(n)] + rest);
            assert forall|i: int| 0 <= i < words(s, ascii).len() implies (
            #[trigger] words(s, ascii)[i]).len() > 0 && is_word(words(s, ascii)[i], ascii) by {
                if i > 0 {
                    assert(words(s, ascii)[i] == rest[i - 1]);
                }
            }
        }
    }
}

proof fn lemma_word_is_word(s: Seq<char>, ascii: bool)
    ensures
        word_len(s, ascii) <= s.len(),
        is_word(s.take(word_len(s, ascii) as int), ascii),
    decreases s.len(),
{
    if s.len() != 0 && !is_space(s[0], ascii) {
        let rest = s.drop_first();
        lemma_word_is_word(rest, ascii);
        let n = word_len(s, ascii) as int;
        assert forall|i: int| 0 <= i < n implies !is_space(#[trigger] s.take(n)[i], ascii) by {
            if i > 0 {
                assert(rest.take(n - 1)[i - 1] == s[i]);
            }
        }
    }
}

proof fn lemma_word_len_of_word(word: Seq<char>, rest: Seq<char>, ascii: bool)
    requires
        is_word(word, ascii),
        rest.len() == 0 || is_space(rest[0], ascii),
    ensures
        word_len(word + rest, ascii) == word.len(),
    decreases word.len(),
{
    let all = word + rest;
    if word.len() == 0 {
        assert(all =~= rest);
    } else {
        assert(all[0] == word[0]);
        assert(all.drop_first() =~= word.drop_first() + rest);
        assert forall|i: int| 0 <= i < word.len() - 1 implies !is_space(
            #[trigger] word.drop_first()[i],
            ascii,
        ) by {
            assert(word.drop_first()[i] == word[i + 1]);
        }
        lemma_word_len_of_word(word.drop_first(), rest, ascii);
    }
}

/// A word at the start of a text, with whitespace or nothing behind it, is its first word,
/// and the others are those of the rest.
pub proof fn law_first_word(word: Seq<char>, rest: Seq<char>, ascii: bool)
    requires
        word.len() > 0,
        is_word(word, ascii),
        rest.len() == 0 || is_space(rest[0], ascii),
    ensures
        words(word + rest, ascii) == seq![word] + words(rest, ascii),
{
    let all = word + rest;
    lemma_word_len_of_word(word, rest, ascii);
    assert(all[0] == word[0]);
    assert(all.take(word.len() as int) =~= word);
    assert(all.skip(word.len() as int) =~= rest);
}

/// The characters of each string.
pub open spec fn texts(v: Seq<String>) -> Seq<Seq<char>> {
    v.map_values(|s: String| s@)
}

/// The string inside an option, as characters.
pub open spec fn maybe_text(o: Option<String>) -> Option<Seq<char>> {
    match o {
        Some(s) => Some(s@),
        None => None,
    }
}

/// Whether two strings hold the same characters.
pub fn same_text(a: &str, b: &str) -> (r: bool)
    ensures
        r == (a@ == b@),
{
    a.to_owned() == b.to_owned()
}

/// Whether one of `list` holds the characters of `s`.
pub fn has_text(list: &Vec<String>, s: &str) -> (r: bool)
    ensures
        r == texts(list@).contains(s@),
{
    let mut i: usize = 0;
    while i < list.len()
        invariant
            i <= list.len(),
            forall|j: int| 0 <= j < i ==> list@[j]@ != s@,
        decreases list.len() - i,
    {
        if same_text(list[i].as_str(), s) {
            assert(texts(list@)[i as int] == s@);
            return true;
        }
        i += 1;
    }
    assert forall|j: int| 0 <= j < texts(list@).len() implies texts(list@)[j] != s@ by {}
    false
}

/// Decides [`is_space`].
pub fn space(c: char, ascii: bool) -> (r: bool)
    ensures
        r == is_space(c, ascii),
{
    if ascii {
        c == '\t' || c == '\n' || c == '\u{c}' || c == '\r' || c == ' '
    } else {
        ('\t' <= c && c <= '\r') || c == ' ' || c == '\u{85}' || c == '\u{a0}' || c == '\u{1680}'
            || ('\u{2000}' <= c && c <= '\u{200a}') || c == '\u{2028}' || c == '\u{2029}'
            || c == '\u{202f}' || c == '\u{205f}' || c == '\u{3000}'
    }
}

/// The characters of a string, one by one.
pub fn chars_of(s: &str) -> (v: Vec<char>)
    ensures
        v@ == s@,
{
    let mut v: Vec<char> = Vec::new();
    for c in it: s.chars()
        invariant
            it.seq() == s@,
            v@ == s@.take(it.index()),
    {
        v.push(c);
        assert(v@ =~= s@.take(it.index() + 1));
    }
    assert(s@.take(s@.len() as int) =~= s@);
    v
}

/// Splits `s` into its words.
pub fn split_words(s: &str, ascii: bool) -> (v: Vec<String>)
    ensures
        texts(v@) == words(s@, ascii),
{
    let chars = chars_of(s);
    let mut v: Vec<String> = Vec::new();
    let mut i: usize = 0;
    assert(s@.skip(0) =~= s@);
    while i < chars.len()
        invariant
            i <= chars.len(),
            chars@ == s@,
            texts(v@) + words(s@.skip(i as int), ascii) == words(s@, ascii),
        decreases chars.len() - i,
    {
        let ghost rest = s@.skip(i as int);
        assert(rest[0] == chars@[i as int]);
        if space(chars[i], ascii) {
            assert(rest.drop_first() =~= s@.skip(i + 1));
            i += 1;
        } else {
            let start: usize = i;
            while i < chars.len() && !space(chars[i], ascii)
                invariant
                    start <= i <= chars.len(),
                    chars@ == s@,
                    word_len(s@.skip(start as int), ascii) == i - start + word_len(
                        s@.skip(i as int),
                        ascii,
                    ),
                decreases chars.len() - i,
            {
                assert(s@.skip(i as int).drop_first() =~= s@.skip(i + 1));
                assert(s@.skip(i as int)[0] == chars@[i as int]);
                i += 1;
            }
            proof {
                if i < chars.len() {
                    assert(s@.skip(i as int)[0] == chars@[i as int]);
                }
                assert(word_len(s@.skip(i as int), ascii) == 0);
            }
            let word = s.substring_char(start, i).to_owned();
            let ghost before = v@;
            v.push(word);
            proof {
                assert(word@ =~= rest.take(i - start));
                assert(rest.skip(i - start) =~= s@.skip(i as int));
                assert(texts(v@) =~= texts(before) + seq![word@]);
                assert(words(rest, ascii) == seq![rest.take(i - start)] + words(
                    rest.skip(i - start),
                    ascii,
                ));
                assert(texts(v@) + words(s@.skip(i as int), ascii) =~= texts(before) + words(
                    rest,
                    ascii,
                ));
            }
        }
    }
    assert(s@.skip(i as int).len() == 0);
    assert(texts(v@) + Seq::<Seq<char>>::empty() =~= texts(v@));
    v
}

/// Whether `pattern` stands in `s` at position `at`.
pub open spec fn stands_at(s: Seq<char>, pattern: Seq<char>, at: int) -> bool {
    0 <= at && at + pattern.len() <= s.len() && s.subrange(at, at + pattern.len()) == pattern
}

/// Whether `pattern` stands somewhere in `s`.
pub open spec fn occurs(s: Seq<char>, pattern: Seq<char>) -> bool {
    exists|at: int| stands_at(s, pattern, at)
}

/// Decides [`stands_at`].
fn matches_at(s: &Vec<char>, pattern: &Vec<char>, at: usize) -> (r: bool)
    requires
        at <= s.len(),
    ensures
        r == stands_at(s@, pattern@, at as int),
{
    if pattern.len() > s.len() - at {
        return false;
    }
    let mut i: usize = 0;
    while i < pattern.len()
        invariant
            i <= pattern.len(),
            at + pattern.len() <= s.len(),
            forall|j: int| 0 <= j < i ==> s@[at + j] == pattern@[j],
        decreases pattern.len() - i,
    {
        if s[at + i] != pattern[i] {
            proof {
                if s@.subrange(at as int, at + pattern@.len()) == pattern@ {
                    assert(s@.subrange(at as int, at + pattern@.len())[i as int] == pattern@[i as int]);
                }
            }
            return false;
        }
        i += 1;
    }
    assert(s@.subrange(at as int, at + pattern@.len()) =~= pattern@);
    true
}

/// Decides [`occurs`].
pub fn contains(s: &str, pattern: &str) -> (r: bool)
    ensures
        r == occurs(s@, pattern@),
{
    let chars = chars_of(s);
    let wanted = chars_of(pattern);
    let mut at: usize = 0;
    loop
        invariant
            at <= chars.len(),
            chars@ == s@,
            wanted@ == pattern@,
            forall|j: int| 0 <= j < at ==> !stands_at(s@, pattern@, j),
        decreases chars.len() - at,
    {
        if matches_at(&chars, &wanted, at) {
            return true;
        }
        if at == chars.len() {
            return false;
        }
        at += 1;
    }
}

/// What follows `prefix` in `s`, if `s` starts with `prefix`.
pub open spec fn stripped(s: Seq<char>, prefix: Seq<char>) -> Option<Seq<char>> {
    if stands_at(s, prefix, 0) {
        Some(s.skip(prefix.len() as int))
    } else {
        None
    }
}

/// Computes [`stripped`].
pub fn strip_prefix(s: &str, prefix: &str) -> (r: Option<String>)
    ensures
        maybe_text(r) == stripped(s@, prefix@),
{
    let chars = chars_of(s);
    let wanted = chars_of(prefix);
    if matches_at(&chars, &wanted, 0) {
        let rest = s.substring_char(wanted.len(), chars.len());
        assert(rest@ =~= s@.skip(prefix@.len() as int));
        Some(rest.to_owned())
    } else {
        None
    }
}

/// `s` with every occurrence of `from`, read from left to right and without
/// overlaps, replaced by `to`.
pub open spec fn replaced(s: Seq<char>, from: Seq<char>, to: Seq<char>) -> Seq<char>
    decreases s.len(),
{
    if from.len() == 0 || s.len() < from.len() {
        s
    } else if stands_at(s, from, 0) {
        to + replaced(s.skip(from.len() as int), from, to)
    } else {
        seq![s[0]] + replaced(s.skip(1), from, to)
    }
}

/// Computes [`replaced`].
pub fn replace_all(s: &str, from: &str, to: &str) -> (r: String)
    requires
        from@.len() > 0,
    ensures
        r@ == replaced(s@, from@, to@),
{
    let chars = chars_of(s);
    let wanted = chars_of(from);
    let mut out = String::new();
    let mut kept: usize = 0;
    let mut at: usize = 0;
    assert(s@.skip(0) =~= s@);
    assert(s@.subrange(0, 0) =~= Seq::<char>::empty());
    while at < chars.len()
        invariant
            kept <= at <= chars.len(),
            chars@ == s@,
            wanted@ == from@,
            from@.len() > 0,
            out@ + s@.subrange(kept as int, at as int) + replaced(s@.skip(at as int), from@, to@)
                == replaced(s@, from@, to@),
        decreases chars.len() - at,
    {
        let ghost rest = s@.skip(at as int);
        let ghost head = out@ + s@.subrange(kept as int, at as int);
        if matches_at(&chars, &wanted, at) {
            proof {
                assert(rest.subrange(0, from@.len() as int) =~= s@.subrange(
                    at as int,
                    at + from@.len(),
                ));
                assert(stands_at(rest, from@, 0));
            }
            out.append(s.substring_char(kept, at));
            out.append(to);
            at += wanted.len();
            kept = at;
            proof {
                assert(rest.skip(from@.len() as int) =~= s@.skip(at as int));
                assert(s@.subrange(kept as int, at as int) =~= Seq::<char>::empty());
                assert(out@ + s@.subrange(kept as int, at as int) + replaced(
                    s@.skip(at as int),
                    from@,
                    to@,
                ) =~= head + (to@ + replaced(s@.skip(at as int), from@, to@)));
            }
        } else {
            proof {
                if stands_at(rest, from@, 0) {
                    assert(rest.subrange(0, from@.len() as int) =~= s@.subrange(
                        at as int,
                        at + from@.len(),
                    ));
                }
                assert(rest[0] == s@[at as int]);
                assert(rest.skip(1) =~= s@.skip(at + 1));
                assert(s@.subrange(kept as int, at + 1) =~= s@.subrange(kept as int, at as int)
                    + seq![s@[at as int]]);
                let tail = s@.skip(at + 1);
                if rest.len() < from@.len() {
                    assert(tail.len() < from@.len());
                    assert(rest =~= seq![rest[0]] + tail);
                }
                assert(replaced(rest, from@, to@) == seq![rest[0]] + replaced(tail, from@, to@));
                assert(out@ + s@.subrange(kept as int, at + 1) + replaced(tail, from@, to@)
                    =~= head + (seq![rest[0]] + replaced(tail, from@, to@)));
            }
            at += 1;
        }
    }
    proof {
        assert(s@.skip(at as int) =~= Seq::<char>::empty());
        assert(out@ + s@.subrange(kept as int, at as int) + Seq::<char>::empty() =~= out@
            + s@.subrange(kept as int, at as int));
    }
    out.append(s.substring_char(kept, at));
    out
}

/// A text in which `from` does not occur stays as it is.
pub proof fn law_replaced_absent(s: Seq<char>, from: Seq<char>, to: Seq<char>)
    requires
        !occurs(s, from),
    ensures
        replaced(s, from, to) == s,
    decreases s.len(),
{
    if from.len() != 0 && s.len() >= from.len() {
        assert(!stands_at(s, from, 0));
        let rest = s.skip(1);
        assert forall|at: int| !stands_at(rest, from, at) by {
            if stands_at(rest, from, at) {
                assert(rest.subrange(at, at + from.len()) =~= s.subrange(
                    at + 1,
                    at + 1 + from.len(),
                ));
                assert(stands_at(s, from, at + 1));
            }
        }
        law_replaced_absent(rest, from, to);
        assert(seq![s[0]] + rest =~= s);
    }
}

/// The parts, with `separator` between each two of them.
pub open spec fn joined(parts: Seq<Seq<char>>, separator: Seq<char>) -> Seq<char>
    decreases parts.len(),
{
    if parts.len() == 0 {
        Seq::empty()
    } else if parts.len() == 1 {
        parts[0]
    } else {
        joined(parts.drop_last(), separator) + separator + parts.last()
    }
}

/// Computes [`joined`].
pub fn join(parts: &Vec<String>, separator: &str) -> (r: String)
    ensures
        r@ == joined(texts(parts@), separator@),
{
    let mut out = String::new();
    let mut i: usize = 0;
    while i < parts.len()
        invariant
            i <= parts.len(),
            out@ == joined(texts(parts@).take(i as int), separator@),
        decreases parts.len() - i,
    {
        if i > 0 {
            out.append(separator);
        }
        out.append(parts[i].as_str());
        proof {
            let next = texts(parts@).take(i + 1);
            assert(next.drop_last() =~= texts(parts@).take(i as int));
            assert(next.last() == parts@[i as int]@);
            if i == 0 {
                assert(out@ =~= parts@[0]@);
            }
        }
        i += 1;
    }
    assert(texts(parts@).take(i as int) =~= texts(parts@));
    out
}

/// Two strings, one after the other.
pub fn concat2(a: &str, b: &str) -> (r: String)
    ensures
        r@ == a@ + b@,
{
    a.to_owned().concat(b)
}

/// Three strings, one after the other.
pub fn concat3(a: &str, b: &str, c: &str) -> (r: String)
    ensures
        r@ == a@ + b@ + c@,
{
    a.to_owned().concat(b).concat(c)
}

/// The numeral for a number below ten.
pub open spec fn numeral(d: nat) -> char {
    if d == 0 {
        '0'
    } else if d == 1 {
        '1'
    } else if d == 2 {
        '2'
    } else if d == 3 {
        '3'
    } else if d == 4 {
        '4'
    } else if d == 5 {
        '5'
    } else if d == 6 {
        '6'
    } else if d == 7 {
        '7'
    } else if d == 8 {
        '8'
    } else {
        '9'
    }
}

/// `n` in decimal, without leading zeros.
pub open spec fn decimal(n: nat) -> Seq<char>
    decreases n,
{
    if n < 10 {
        seq![numeral(n)]
    } else {
        decimal(n / 10).push(numeral(n % 10))
    }
}

fn numeral_text(d: u64) -> (r: String)
    requires
        d < 10,
    ensures
        r@ == seq![numeral(d as nat)],
{
    proof {
        reveal_strlit("0");
        reveal_strlit("1");
        reveal_strlit("2");
        reveal_strlit("3");
        reveal_strlit("4");
        reveal_strlit("5");
        reveal_strlit("6");
        reveal_strlit("7");
        reveal_strlit("8");
        reveal_strlit("9");
    }
    let r = if d == 0 {
        "0"
    } else if d == 1 {
        "1"
    } else if d == 2 {
        "2"
    } else if d == 3 {
        "3"
    } else if d == 4 {
        "4"
    } else if d == 5 {
        "5"
    } else if d == 6 {
        "6"
    } else if d == 7 {
        "7"
    } else if d == 8 {
        "8"
    } else {
        "9"
    };
    assert(r@ =~= seq![numeral(d as nat)]);
    r.to_owned()
}

/// Writes `n` in decimal.
pub fn decimal_text(n: u64) -> (r: String)
    ensures
        r@ == decimal(n as nat),
    decreases n,
{
    let last = numeral_text(n % 10);
    if n < 10 {
        last
    } else {
        let r = decimal_text(n / 10).concat(last.as_str());
        assert(r@ =~= decimal(n as nat));
        r
    }
}

/// The value of a numeral.
pub open spec fn digit_value(c: char) -> Option<nat> {
    if '0' <= c <= '9' {
        Some((c as int - '0' as int) as nat)
    } else {
        None
    }
}

/// The number that a non-empty run of numerals writes in decimal.
pub open spec fn digits_value(s: Seq<char>) -> Option<nat>
    decreases s.len(),
{
    if s.len() == 0 {
        None
    } else {
        match digit_value(s.last()) {
            None => None,
            Some(d) => if s.len() == 1 {
                Some(d)
            } else {
                match digits_value(s.drop_last()) {
                    None => None,
                    Some(n) => Some(n * 10 + d),
                }
            },
        }
    }
}

/// The number that `s` denotes: numerals, after an optional plus sign.
pub open spec fn number(s: Seq<char>) -> Option<nat> {
    if s.len() > 0 && s[0] == '+' {
        digits_value(s.skip(1))
    } else {
        digits_value(s)
    }
}

/// The number that `s` denotes, if it is at most `max`.
pub open spec fn number_up_to(s: Seq<char>, max: nat) -> Option<nat> {
    match number(s) {
        Some(n) => if n <= max {
            Some(n)
        } else {
            None
        },
        None => None,
    }
}

/// Fewer numerals never make a greater number.
proof fn lemma_digits_value_grows(s: Seq<char>, k: int)
    requires
        0 < k <= s.len(),
        digits_value(s) is Some,
    ensures
        digits_value(s.take(k)) is Some,
        digits_value(s.take(k))->0 <= digits_value(s)->0,
    decreases s.len(),
{
    if k == s.len() {
        assert(s.take(k) =~= s);
    } else {
        lemma_digits_value_grows(s.drop_last(), k);
        assert(s.drop_last().take(k) =~= s.take(k));
    }
}

/// Reads a number of at most `max`.
pub fn parse_number(s: &str, max: u64) -> (r: Option<u64>)
    ensures
        match r {
            Some(n) => number_up_to(s@, max as nat) == Some(n as nat),
            None => number_up_to(s@, max as nat) is None,
        },
{
    let chars = chars_of(s);
    let mut i: usize = 0;
    if chars.len() > 0 && chars[0] == '+' {
        i = 1;
    }
    let start: usize = i;
    let ghost digits = s@.skip(start as int);
    assert(start == 0 ==> digits =~= s@);
    assert(number(s@) == digits_value(digits));
    if i == chars.len() {
        return None;
    }
    let mut value: u64 = 0;
    while i < chars.len()
        invariant
            start <= i <= chars.len(),
            chars@ == s@,
            digits == s@.skip(start as int),
            number(s@) == digits_value(digits),
            value <= max,
            i == start ==> value == 0,
            i > start ==> digits_value(digits.take(i - start)) == Some(value as nat),
        decreases chars.len() - i,
    {
        let c = chars[i];
        let ghost next = digits.take(i - start + 1);
        proof {
            assert(next.last() == c);
            assert(next.drop_last() =~= digits.take(i - start));
            if digits_value(digits) is Some {
                lemma_digits_value_grows(digits, i - start + 1);
            }
        }
        if !('0' <= c && c <= '9') {
            return None;
        }
        let d: u64 = (c as u32 - '0' as u32) as u64;
        assert(digits_value(next) == Some((value * 10 + d) as nat));
        if value > max / 10 {
            return None;
        }
        if d > max || value * 10 > max - d {
            return None;
        }
        value = value * 10 + d;
        i += 1;
    }
    assert(digits.take(i - start) =~= digits);
    Some(value)
}

/// A number written in decimal reads back as itself.
pub proof fn law_decimal_reads_back(n: nat)
    ensures
        number(decimal(n)) == Some(n),
    decreases n,
{
    lemma_decimal_digits(n);
    lemma_decimal_head(n);
}

proof fn lemma_decimal_digits(n: nat)
    ensures
        decimal(n).len() > 0,
        digits_value(decimal(n)) == Some(n),
    decreases n,
{
    if n >= 10 {
        lemma_decimal_digits(n / 10);
        assert(decimal(n).drop_last() =~= decimal(n / 10));
    }
}

proof fn lemma_decimal_head(n: nat)
    ensures
        decimal(n).len() > 0,
        decimal(n)[0] != '+',
    decreases n,
{
    if n >= 10 {
        lemma_decimal_head(n / 10);
    }
}

/// A character in lower case, if it is an ASCII letter.
pub open spec fn ascii_lower(c: char) -> char {
    if 'A' <= c <= 'Z' {
        (c as u32 + 32) as char
    } else {
        c
    }
}

/// Whether `s` holds none of the letters `A` to `Z`.
pub open spec fn no_capitals(s: Seq<char>) -> bool {
    forall|i: int| 0 <= i < s.len() ==> !('A' <= #[trigger] s[i] <= 'Z')
}

/// What `str::to_lowercase` makes of a text.
pub uninterp spec fn lowercase(s: Seq<char>) -> Seq<char>;

/// Calls `str::to_lowercase`. Claimed of it: the result depends on the text
/// alone and holds none of the letters `A` to `Z`; and of a text that is all
/// ASCII it maps each of these letters to the letter in lower case and keeps
/// every other character.
#[verifier::external_body]
pub(crate) fn to_lowercase(s: &str) -> (r: String)
    ensures
        r@ == lowercase(s@),
        no_capitals(r@),
        is_ascii_chars(s@) ==> r@ == s@.map_values(|c: char| ascii_lower(c)),
{
    s.to_lowercase()
}

} // verus!
