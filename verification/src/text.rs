//! Text: comparison, decimal numbers, and comma-separated lists.

use vstd::prelude::*;

verus! {

/// The characters of an optional text.
pub open spec fn opt_text(text: Option<String>) -> Option<Seq<char>> {
    match text {
        Some(s) => Some(s@),
        None => None,
    }
}

/// The characters of each text of a list.
pub open spec fn texts(list: Seq<String>) -> Seq<Seq<char>> {
    list.map_values(|s: String| s@)
}

/// Whether two texts hold the same characters.
pub fn same_text(a: &str, b: &str) -> (r: bool)
    ensures
        r == (a@ == b@),
{
    a.to_string() == b.to_string()
}

/// The characters of a text.
pub fn chars_of(text: &str) -> (r: Vec<char>)
    ensures
        r@ == text@,
{
    let mut chars: Vec<char> = Vec::new();
    for c in it: text.chars()
        invariant
            it.seq() == text@,
            chars@ == text@.take(it.index() as int),
    {
        chars.push(c);
    }
    chars
}

/// The position of the first `c` in the characters, or their number.
pub open spec fn first_index(chars: Seq<char>, c: char) -> int
    decreases chars.len(),
{
    if chars.len() == 0 || chars[0] == c {
        0
    } else {
        1 + first_index(chars.drop_first(), c)
    }
}

/// The first position of `c`, from what holds before it and at it.
pub proof fn lemma_first_index(chars: Seq<char>, c: char, at: int)
    requires
        0 <= at <= chars.len(),
        forall|i: int| 0 <= i < at ==> chars[i] != c,
        at < chars.len() ==> chars[at] == c,
    ensures
        first_index(chars, c) == at,
    decreases at,
{
    if at > 0 {
        assert(forall|i: int| 0 <= i < at - 1 ==> chars.drop_first()[i] == chars[i + 1]);
        lemma_first_index(chars.drop_first(), c, at - 1);
    }
}

// Decimal numbers.

/// A decimal digit.
pub open spec fn digit_char(d: nat) -> char {
    (d + 48) as char
}

/// A number in decimal, without leading zeros.
pub open spec fn decimal_text(n: nat) -> Seq<char>
    decreases n,
{
    if n < 10 {
        seq![digit_char(n)]
    } else {
        decimal_text(n / 10).push(digit_char(n % 10))
    }
}

fn digit(d: u64) -> (r: &'static str)
    requires
        d < 10,
    ensures
        r@ == seq![digit_char(d as nat)],
{
    proof {
        reveal_strlit("0");
        reveal_strlit("1");
        reveal_strlit("2");
        reveal_strlit("3");
        reveal_strlit("4");
        reveal_strlit("5");
        reveal_strlit("6");
        reveal_strlit("7");
        reveal_strlit("8");
        reveal_strlit("9");
    }
    match d {
        0 => "0",
        1 => "1",
        2 => "2",
        3 => "3",
        4 => "4",
        5 => "5",
        6 => "6",
        7 => "7",
        8 => "8",
        _ => "9",
    }
}

/// Writes a number in decimal.
pub fn decimal(n: u64) -> (r: String)
    ensures
        r@ == decimal_text(n as nat),
    decreases n,
{
    if n < 10 {
        digit(n).to_string()
    } else {
        let mut text: String = decimal(n / 10);
        text.append(digit(n % 10));
        text
    }
}

/// Different numbers are written differently.
pub proof fn law_decimal_injective(a: nat, b: nat)
    requires
        decimal_text(a) == decimal_text(b),
    ensures
        a == b,
    decreases a,
{
    let x = decimal_text(a);
    let y = decimal_text(b);
    assert(x.last() == digit_char(a % 10));
    assert(y.last() == digit_char(b % 10));
    lemma_decimal_len(a);
    lemma_decimal_len(b);
    if a >= 10 {
        assert(x.drop_last() =~= decimal_text(a / 10));
        assert(y.drop_last() =~= decimal_text(b / 10));
        law_decimal_injective(a / 10, b / 10);
    }
}

proof fn lemma_decimal_len(n: nat)
    ensures
        decimal_text(n).len() >= 1,
        n >= 10 <==> decimal_text(n).len() >= 2,
    decreases n,
{
    if n >= 10 {
        lemma_decimal_len(n / 10);
    }
}

// Comma-separated lists.

/// Whether a character counts as white space.
pub open spec fn white_space(c: char) -> bool {
    ||| '\u{9}' <= c <= '\u{d}'
    ||| c == ' '
    ||| c == '\u{85}'
    ||| c == '\u{a0}'
    ||| c == '\u{1680}'
    ||| '\u{2000}' <= c <= '\u{200a}'
    ||| c == '\u{2028}'
    ||| c == '\u{2029}'
    ||| c == '\u{202f}'
    ||| c == '\u{205f}'
    ||| c == '\u{3000}'
}

fn is_white_space(c: char) -> (r: bool)
    ensures
        r == white_space(c),
{
    ('\u{9}' <= c && c <= '\u{d}') || c == ' ' || c == '\u{85}' || c == '\u{a0}' || c == '\u{1680}'
        || ('\u{2000}' <= c && c <= '\u{200a}') || c == '\u{2028}' || c == '\u{2029}' || c
        == '\u{202f}' || c == '\u{205f}' || c == '\u{3000}'
}

/// Text without its leading white space.
pub open spec fn trim_start(text: Seq<char>) -> Seq<char>
    decreases text.len(),
{
    if text.len() > 0 && white_space(text[0]) {
        trim_start(text.drop_first())
    } else {
        text
    }
}

/// Text without its trailing white space.
pub open spec fn trim_end(text: Seq<char>) -> Seq<char>
    decreases text.len(),
{
    if text.len() > 0 && white_space(text.last()) {
        trim_end(text.drop_last())
    } else {
        text
    }
}

/// Text without the white space around it.
pub open spec fn trim(text: Seq<char>) -> Seq<char> {
    trim_end(trim_start(text))
}

/// The pieces of a text between the separators; always at least one.
pub open spec fn pieces(text: Seq<char>, separator: char) -> Seq<Seq<char>>
    decreases text.len(),
{
    if text.len() == 0 {
        seq![text]
    } else {
        let before = pieces(text.drop_last(), separator);
        if text.last() == separator {
            before.push(Seq::empty())
        } else {
            before.drop_last().push(before.last().push(text.last()))
        }
    }
}

/// The texts one after the other, with a separator between each two.
pub open spec fn joined(list: Seq<Seq<char>>, separator: char) -> Seq<char>
    decreases list.len(),
{
    if list.len() == 0 {
        Seq::empty()
    } else if list.len() == 1 {
        list[0]
    } else {
        joined(list.drop_last(), separator).push(separator) + list.last()
    }
}

/// The texts without the white space around each.
pub open spec fn trimmed(list: Seq<Seq<char>>) -> Seq<Seq<char>> {
    list.map_values(|piece: Seq<char>| trim(piece))
}

/// The entries of a comma-separated list, white space around each removed.
pub open spec fn list_entries(text: Seq<char>) -> Seq<Seq<char>> {
    trimmed(pieces(text, ','))
}

/// Trims the characters from `from` up to `to`, by position.
fn trim_bounds(chars: &Vec<char>, from: usize, to: usize) -> (r: (usize, usize))
    requires
        from <= to <= chars@.len(),
    ensures
        from <= r.0 <= r.1 <= to,
        chars@.subrange(r.0 as int, r.1 as int) == trim(chars@.subrange(from as int, to as int)),
{
    let ghost whole = chars@.subrange(from as int, to as int);
    let mut start: usize = from;
    while start < to && is_white_space(chars[start])
        invariant
            from <= start <= to <= chars@.len(),
            trim_start(chars@.subrange(start as int, to as int)) == trim_start(
                chars@.subrange(from as int, to as int),
            ),
        decreases to - start,
    {
        proof {
            assert(chars@.subrange(start as int, to as int).drop_first() =~= chars@.subrange(
                start + 1,
                to as int,
            ));
        }
        start = start + 1;
    }
    assert(trim_start(whole) == chars@.subrange(start as int, to as int));
    let mut end: usize = to;
    while start < end && is_white_space(chars[end - 1])
        invariant
            start <= end <= to <= chars@.len(),
            trim_end(chars@.subrange(start as int, end as int)) == trim_end(
                chars@.subrange(start as int, to as int),
            ),
        decreases end,
    {
        proof {
            assert(chars@.subrange(start as int, end as int).drop_last() =~= chars@.subrange(
                start as int,
                end - 1,
            ));
        }
        end = end - 1;
    }
    (start, end)
}

/// Splits a comma-separated list into its entries, white space around each
/// removed.
pub fn split_list(text: &str) -> (r: Vec<String>)
    ensures
        texts(r@) == list_entries(text@),
{
    let chars = chars_of(text);
    let mut list: Vec<String> = Vec::new();
    let ghost mut done: Seq<Seq<char>> = Seq::empty();
    let mut start: usize = 0;
    let mut at: usize = 0;
    proof {
        assert(text@.take(0) =~= Seq::<char>::empty());
        assert(text@.subrange(0, 0) =~= Seq::<char>::empty());
    }
    while at < chars.len()
        invariant
            chars@ == text@,
            start <= at <= chars@.len(),
            pieces(text@.take(at as int), ',') =~= done.push(
                text@.subrange(start as int, at as int),
            ),
            texts(list@) =~= trimmed(done),
        decreases chars@.len() - at,
    {
        let ghost prefix = text@.take(at + 1);
        proof {
            assert(prefix.drop_last() =~= text@.take(at as int));
        }
        if chars[at] == ',' {
            let (from, to) = trim_bounds(&chars, start, at);
            let entry: String = text.substring_char(from, to).to_string();
            let ghost before = list@;
            list.push(entry);
            proof {
                let piece = text@.subrange(start as int, at as int);
                assert(entry@ == trim(piece));
                assert(texts(list@) =~= texts(before).push(entry@));
                assert(trimmed(done.push(piece)) =~= trimmed(done).push(trim(piece)));
                done = done.push(piece);
                assert(text@.subrange(at + 1, at + 1) =~= Seq::<char>::empty());
            }
            start = at + 1;
        } else {
            proof {
                assert(done.push(text@.subrange(start as int, at as int)).drop_last() =~= done);
                assert(text@.subrange(start as int, at as int).push(chars@[at as int])
                    =~= text@.subrange(start as int, at + 1));
            }
        }
        at = at + 1;
    }
    let (from, to) = trim_bounds(&chars, start, at);
    let entry: String = text.substring_char(from, to).to_string();
    let ghost before = list@;
    list.push(entry);
    proof {
        let piece = text@.subrange(start as int, at as int);
        assert(entry@ == trim(piece));
        assert(texts(list@) =~= texts(before).push(entry@));
        assert(trimmed(done.push(piece)) =~= trimmed(done).push(trim(piece)));
        assert(text@.take(at as int) =~= text@);
        assert(texts(list@) =~= list_entries(text@));
    }
    list
}

/// Joins texts with a comma between each two.
pub fn join_list(list: &Vec<String>) -> (r: String)
    ensures
        r@ == joined(texts(list@), ','),
{
    let mut text: String = String::new();
    let mut i: usize = 0;
    proof {
        reveal_strlit(",");
        assert(texts(list@).take(0) =~= Seq::<Seq<char>>::empty());
    }
    while i < list.len()
        invariant
            i <= list@.len(),
            ","@ == seq![','],
            text@ == joined(texts(list@).take(i as int), ','),
        decreases list@.len() - i,
    {
        let ghost so_far = texts(list@).take(i + 1);
        proof {
            assert(so_far.drop_last() =~= texts(list@).take(i as int));
        }
        if i > 0 {
            text.append(",");
        }
        let ghost before = text@;
        text.append(list[i].as_str());
        proof {
            if i == 0 {
                assert(text@ =~= so_far[0]);
            } else {
                assert(before =~= joined(so_far.drop_last(), ',').push(','));
            }
        }
        i = i + 1;
    }
    proof {
        assert(texts(list@).take(i as int) =~= texts(list@));
    }
    text
}

/// Splitting a text never gives an empty list.
pub proof fn law_pieces_not_empty(text: Seq<char>, separator: char)
    ensures
        pieces(text, separator).len() >= 1,
    decreases text.len(),
{
    if text.len() > 0 {
        law_pieces_not_empty(text.drop_last(), separator);
    }
}

/// Joining the pieces of a text gives the text back, and no piece holds the
/// separator.
pub proof fn law_join_of_pieces(text: Seq<char>, separator: char)
    ensures
        joined(pieces(text, separator), separator) == text,
        forall|i: int|
            0 <= i < pieces(text, separator).len() ==> !(#[trigger] pieces(
                text,
                separator,
            )[i]).contains(separator),
    decreases text.len(),
{
    if text.len() > 0 {
        let front = text.drop_last();
        let before = pieces(front, separator);
        let all = pieces(text, separator);
        law_join_of_pieces(front, separator);
        law_pieces_not_empty(front, separator);
        assert(front.push(text.last()) =~= text);
        if text.last() == separator {
            assert(all.drop_last() =~= before);
            assert(joined(all, separator) =~= text);
            assert forall|i: int| 0 <= i < all.len() implies !(#[trigger] all[i]).contains(
                separator,
            ) by {
                if i < before.len() {
                    assert(all[i] == before[i]);
                }
            }
        } else {
            assert(all.drop_last() =~= before.drop_last());
            assert(joined(all, separator) =~= text);
            assert forall|i: int| 0 <= i < all.len() implies !(#[trigger] all[i]).contains(
                separator,
            ) by {
                if i < before.len() - 1 {
                    assert(all[i] == before[i]);
                } else {
                    assert(all[i] == before.last().push(text.last()));
                    assert(!before[before.len() - 1].contains(separator));
                }
            }
        }
    }
}

proof fn lemma_pieces_extend(text: Seq<char>, more: Seq<char>, separator: char)
    requires
        !more.contains(separator),
    ensures
        pieces(text + more, separator) == pieces(text, separator).drop_last().push(
            pieces(text, separator).last() + more,
        ),
    decreases more.len(),
{
    law_pieces_not_empty(text, separator);
    let before = pieces(text, separator);
    if more.len() == 0 {
        assert(text + more =~= text);
        assert(before.last() + more =~= before.last());
        assert(before.drop_last().push(before.last()) =~= before);
    } else {
        let front = more.drop_last();
        assert forall|c: char| front.contains(c) implies more.contains(c) by {
            let i = choose|i: int| 0 <= i < front.len() && front[i] == c;
            assert(more[i] == c);
        }
        lemma_pieces_extend(text, front, separator);
        assert((text + more).drop_last() =~= text + front);
        assert((text + more).last() == more.last());
        assert(more[more.len() - 1] == more.last());
        assert(more.last() != separator);
        let mid = pieces(text + front, separator);
        assert(mid.drop_last() =~= before.drop_last());
        assert((before.last() + front).push(more.last()) =~= before.last() + more);
    }
}

/// Splitting what was joined gives the list back, if it is not empty and no
/// entry holds the separator.
pub proof fn law_pieces_of_join(list: Seq<Seq<char>>, separator: char)
    requires
        list.len() >= 1,
        forall|i: int| 0 <= i < list.len() ==> !(#[trigger] list[i]).contains(separator),
    ensures
        pieces(joined(list, separator), separator) == list,
    decreases list.len(),
{
    if list.len() == 1 {
        let empty = Seq::<char>::empty();
        lemma_pieces_extend(empty, list[0], separator);
        assert(empty + list[0] =~= list[0]);
        assert(pieces(empty, separator) =~= seq![empty]);
        assert(pieces(list[0], separator) =~= list);
    } else {
        let front = list.drop_last();
        assert forall|i: int| 0 <= i < front.len() implies !(#[trigger] front[i]).contains(
            separator,
        ) by {
            assert(front[i] == list[i]);
        }
        law_pieces_of_join(front, separator);
        let stem = joined(front, separator).push(separator);
        assert(stem.drop_last() =~= joined(front, separator));
        assert(pieces(stem, separator) =~= front.push(Seq::empty()));
        assert(list[list.len() - 1] == list.last());
        lemma_pieces_extend(stem, list.last(), separator);
        assert(front.push(Seq::<char>::empty()).drop_last() =~= front);
        assert(Seq::<char>::empty() + list.last() =~= list.last());
        assert(front.push(list.last()) =~= list);
    }
}

proof fn lemma_trim_end_part(text: Seq<char>, c: char)
    ensures
        trim_end(text).len() <= text.len(),
        trim_end(text) =~= text.take(trim_end(text).len() as int),
        trim_end(text).contains(c) ==> text.contains(c),
        trim_end(trim_end(text)) == trim_end(text),
    decreases text.len(),
{
    if text.len() > 0 && white_space(text.last()) {
        lemma_trim_end_part(text.drop_last(), c);
        if trim_end(text).contains(c) {
            let i = choose|i: int| 0 <= i < trim_end(text).len() && trim_end(text)[i] == c;
            assert(text[i] == c);
        }
    }
}

proof fn lemma_trim_start_part(text: Seq<char>, c: char)
    ensures
        trim_start(text).len() <= text.len(),
        trim_start(text).contains(c) ==> text.contains(c),
        trim_start(text).len() > 0 ==> !white_space(trim_start(text)[0]),
    decreases text.len(),
{
    if text.len() > 0 && white_space(text[0]) {
        let rest = text.drop_first();
        lemma_trim_start_part(rest, c);
        if rest.contains(c) {
            let i = choose|i: int| 0 <= i < rest.len() && rest[i] == c;
            assert(text[i + 1] == c);
        }
    }
}

/// Trimming a second time changes nothing, and a trimmed text holds no
/// character that the text did not hold.
pub proof fn law_trim_idempotent(text: Seq<char>, c: char)
    ensures
        trim(trim(text)) == trim(text),
        trim(text).contains(c) ==> text.contains(c),
{
    let started = trim_start(text);
    lemma_trim_start_part(text, c);
    lemma_trim_end_part(started, c);
    let result = trim(text);
    if result.len() > 0 {
        assert(result[0] == started[0]);
    }
    assert(trim_start(result) == result);
}

/// Writing out the entries of a list and reading them again gives the same
/// entries.
pub proof fn law_list_round_trip(text: Seq<char>)
    ensures
        list_entries(joined(list_entries(text), ',')) == list_entries(text),
{
    let raw = pieces(text, ',');
    let entries = list_entries(text);
    law_pieces_not_empty(text, ',');
    law_join_of_pieces(text, ',');
    assert forall|i: int| 0 <= i < entries.len() implies !(#[trigger] entries[i]).contains(',') by {
        law_trim_idempotent(raw[i], ',');
    }
    law_pieces_of_join(entries, ',');
    assert forall|i: int| 0 <= i < entries.len() implies trim(#[trigger] entries[i])
        == entries[i] by {
        law_trim_idempotent(raw[i], ',');
    }
    assert(trimmed(entries) =~= entries);
}

/// White space is what Unicode calls so, by the characters' numbers.
pub proof fn law_white_space(c: char)
    ensures
        white_space(c) <==> {
            ||| 9 <= c as u32 <= 13
            ||| c as u32 == 32
            ||| c as u32 == 133
            ||| c as u32 == 160
            ||| c as u32 == 5760
            ||| 8192 <= c as u32 <= 8202
            ||| c as u32 == 8232
            ||| c as u32 == 8233
            ||| c as u32 == 8239
            ||| c as u32 == 8287
            ||| c as u32 == 12288
        },
{
}

proof fn lemma_trim_start_cuts(text: Seq<char>) -> (from: int)
    ensures
        0 <= from <= text.len(),
        trim_start(text) == text.skip(from),
        forall|k: int| 0 <= k < from ==> white_space(#[trigger] text[k]),
        from < text.len() ==> !white_space(text[from]),
    decreases text.len(),
{
    if text.len() > 0 && white_space(text[0]) {
        let rest = text.drop_first();
        let from = lemma_trim_start_cuts(rest) + 1;
        assert(rest.skip(from - 1) =~= text.skip(from));
        assert forall|k: int| 0 <= k < from implies white_space(#[trigger] text[k]) by {
            if k > 0 {
                assert(text[k] == rest[k - 1]);
            }
        }
        from
    } else {
        assert(text.skip(0) =~= text);
        0
    }
}

proof fn lemma_trim_end_cuts(text: Seq<char>) -> (to: int)
    ensures
        0 <= to <= text.len(),
        trim_end(text) == text.take(to),
        forall|k: int| to <= k < text.len() ==> white_space(#[trigger] text[k]),
        to > 0 ==> !white_space(text[to - 1]),
    decreases text.len(),
{
    if text.len() > 0 && white_space(text.last()) {
        let rest = text.drop_last();
        let to = lemma_trim_end_cuts(rest);
        assert(rest.take(to) =~= text.take(to));
        assert forall|k: int| to <= k < text.len() implies white_space(#[trigger] text[k]) by {
            if k < rest.len() {
                assert(text[k] == rest[k]);
            }
        }
        to
    } else {
        assert(text.take(text.len() as int) =~= text);
        text.len() as int
    }
}

/// Trimming cuts away the white space on both sides, all of it, and nothing
/// else.
pub proof fn law_trim_cuts_white_space(text: Seq<char>)
    ensures
        exists|from: int, to: int|
            {
                &&& 0 <= from <= to <= text.len()
                &&& trim(text) == #[trigger] text.subrange(from, to)
                &&& forall|k: int| 0 <= k < from ==> white_space(#[trigger] text[k])
                &&& forall|k: int| to <= k < text.len() ==> white_space(#[trigger] text[k])
                &&& from < to ==> !white_space(text[from]) && !white_space(text[to - 1])
            },
{
    let from = lemma_trim_start_cuts(text);
    let started = text.skip(from);
    let len = lemma_trim_end_cuts(started);
    let to = from + len;
    assert(started.take(len) =~= text.subrange(from, to));
    assert forall|k: int| to <= k < text.len() implies white_space(#[trigger] text[k]) by {
        assert(text[k] == started[k - from]);
    }
    if from < to {
        assert(started[len - 1] == text[to - 1]);
    }
}

/// A separator divides the pieces before it from those after it; a text
/// without one is a single piece.
pub proof fn law_pieces_divide(before: Seq<char>, after: Seq<char>, separator: char)
    ensures
        pieces(before.push(separator) + after, separator) == pieces(before, separator) + pieces(
            after,
            separator,
        ),
        !after.contains(separator) ==> pieces(after, separator) == seq![after],
    decreases after.len(),
{
    let stem = before.push(separator);
    let left = pieces(before, separator);
    assert(stem.drop_last() =~= before);
    if after.len() == 0 {
        assert(stem + after =~= stem);
        assert(after =~= Seq::empty());
        assert(pieces(stem, separator) =~= left + pieces(after, separator));
    } else {
        let front = after.drop_last();
        law_pieces_divide(before, front, separator);
        law_pieces_not_empty(front, separator);
        assert((stem + after).drop_last() =~= stem + front);
        let right = pieces(front, separator);
        let mid = left + right;
        assert(mid.last() == right.last());
        assert(mid.drop_last() =~= left + right.drop_last());
        assert(pieces(stem + after, separator) =~= left + pieces(after, separator));
        if !after.contains(separator) {
            assert(after[after.len() - 1] == after.last());
            assert forall|c: char| front.contains(c) implies after.contains(c) by {
                let i = choose|i: int| 0 <= i < front.len() && front[i] == c;
                assert(after[i] == c);
            }
            assert(front.push(after.last()) =~= after);
            assert(pieces(after, separator) =~= seq![after]);
        }
    }
}

/// Joined lists stand one after the other with the separator between them.
pub proof fn law_joined_lists(first: Seq<Seq<char>>, second: Seq<Seq<char>>, separator: char)
    requires
        first.len() > 0,
        second.len() > 0,
    ensures
        joined(first + second, separator) == joined(first, separator).push(separator) + joined(
            second,
            separator,
        ),
        joined(seq![first[0]], separator) == first[0],
    decreases second.len(),
{
    let all = first + second;
    assert(all.last() == second.last());
    if second.len() == 1 {
        assert(all.drop_last() =~= first);
    } else {
        let front = second.drop_last();
        law_joined_lists(first, front, separator);
        assert(all.drop_last() =~= first + front);
        assert(joined(all, separator) =~= joined(first, separator).push(separator) + joined(
            second,
            separator,
        ));
    }
}

/// A list has as many entries as it has pieces between commas, and each entry
/// is its piece without the white space around it.
pub proof fn law_entries_are_trimmed_pieces(text: Seq<char>, i: int)
    requires
        0 <= i < pieces(text, ',').len(),
    ensures
        list_entries(text).len() == pieces(text, ',').len(),
        list_entries(text)[i] == trim(pieces(text, ',')[i]),
{
}

/// The number that decimal digits stand for, `0` to `9` being the characters
/// 48 to 57.
pub open spec fn read_decimal(text: Seq<char>) -> int
    decreases text.len(),
{
    if text.len() == 0 {
        0
    } else {
        10 * read_decimal(text.drop_last()) + (text.last() as u32 - 48)
    }
}

/// A number that was written in decimal can be read back; it is written with
/// digits alone, and with no zero in front.
pub proof fn law_decimal_is_read_back(n: nat)
    ensures
        read_decimal(decimal_text(n)) == n,
        forall|i: int|
            0 <= i < decimal_text(n).len() ==> 48 <= (#[trigger] decimal_text(n)[i]) as u32 <= 57,
        n > 0 ==> decimal_text(n)[0] as u32 != 48,
        decimal_text(n).len() > 0,
    decreases n,
{
    let text = decimal_text(n);
    if n < 10 {
        assert(text.drop_last() =~= Seq::<char>::empty());
        assert(read_decimal(text.drop_last()) == 0);
    } else {
        law_decimal_is_read_back(n / 10);
        assert(text.drop_last() =~= decimal_text(n / 10));
        assert forall|i: int| 0 <= i < text.len() implies 48 <= (#[trigger] text[i]) as u32
            <= 57 by {
            if i < text.len() - 1 {
                assert(text[i] == decimal_text(n / 10)[i]);
            }
        }
    }
}

/// The first position of a character is where it stands first, and the number
/// of characters where it does not stand at all.
pub proof fn law_first_index(chars: Seq<char>, c: char)
    ensures
        0 <= first_index(chars, c) <= chars.len(),
        first_index(chars, c) < chars.len() ==> chars[first_index(chars, c)] == c,
        forall|i: int| 0 <= i < first_index(chars, c) ==> #[trigger] chars[i] != c,
    decreases chars.len(),
{
    if chars.len() > 0 && chars[0] != c {
        let rest = chars.drop_first();
        law_first_index(rest, c);
        assert forall|i: int| 0 <= i < first_index(chars, c) implies #[trigger] chars[i] != c by {
            if i > 0 {
                assert(chars[i] == rest[i - 1]);
            }
        }
    }
}

/// An optional text is seen as its characters if it is there, and the texts of
/// a list one for one.
pub proof fn law_texts_are_seen_as_characters(text: Option<String>, list: Seq<String>, i: int)
    ensures
        text is Some <==> opt_text(text) is Some,
        text is Some ==> opt_text(text)->0 == text->0@,
        texts(list).len() == list.len(),
        0 <= i < list.len() ==> texts(list)[i] == list[i]@,
{
}

/// A list is split at its commas and nowhere else, and each entry loses the
/// white space around it.
pub proof fn law_split_lists(text: &str, list: Vec<String>, i: int)
    requires
        call_ensures(split_list, (text,), list),
        0 <= i < list@.len(),
    ensures
        list@.len() == pieces(text@, ',').len(),
        joined(pieces(text@, ','), ',') == text@,
        list@[i]@ == trim(pieces(text@, ',')[i]),
        !list@[i]@.contains(','),
{
    assert(texts(list@).len() == list@.len());
    assert(texts(list@)[i] == list@[i]@);
    law_join_of_pieces(text@, ',');
    law_trim_idempotent(pieces(text@, ',')[i], ',');
}

/// A list is joined by commas, and can be split again.
pub proof fn law_joined_texts(list: &Vec<String>, text: String)
    requires
        call_ensures(join_list, (list,), text),
        list@.len() > 0,
        forall|i: int| 0 <= i < list@.len() ==> !(#[trigger] list@[i])@.contains(','),
    ensures
        pieces(text@, ',') == texts(list@),
        texts(list@).len() == list@.len(),
{
    assert forall|i: int| 0 <= i < texts(list@).len() implies !(#[trigger] texts(
        list@,
    )[i]).contains(',') by {
        assert(texts(list@)[i] == list@[i]@);
    }
    law_pieces_of_join(texts(list@), ',');
}

} // verus!
