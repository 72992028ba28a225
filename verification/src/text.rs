//! Character-level helpers shared by the codec: comparison, splitting,
//! joining and trimming of text, all specified over `Seq<char>`.

use vstd::prelude::*;
use vstd::string::StringExecFns;
use vstd::string::StrSliceExecFns;

verus! {

/// `str`'s `==` from std: two string slices are equal exactly when they hold
/// the same characters.
pub assume_specification[ <str as PartialEq>::eq ](a: &str, b: &str) -> (same: bool)
    ensures
        same == (a@ == b@),
;

/// `String::push` from std appends one character to the end of the string.
pub assume_specification[ String::push ](s: &mut String, c: char)
    ensures
        final(s)@ == old(s)@.push(c),
;

/// What an owned result says, with its message as a sequence of characters.
pub open spec fn result_view<T>(r: Result<T, String>) -> Result<T, Seq<char>> {
    match r {
        Ok(value) => Ok(value),
        Err(message) => Err(message@),
    }
}

/// What an owned result of text says, text and message as sequences of characters.
pub open spec fn text_result_view(r: Result<String, String>) -> Result<Seq<char>, Seq<char>> {
    match r {
        Ok(text) => Ok(text@),
        Err(message) => Err(message@),
    }
}

/// The fields of `s` between the occurrences of `sep`. A text without `sep`
/// is one field, the empty text included, and each `sep` starts a new field,
/// so a trailing `sep` leaves an empty last field.
pub open spec fn split_on(s: Seq<char>, sep: char) -> Seq<Seq<char>>
    decreases s.len(),
{
    if s.len() == 0 {
        seq![Seq::<char>::empty()]
    } else {
        let before = split_on(s.drop_last(), sep);
        if s.last() == sep {
            before.push(Seq::<char>::empty())
        } else {
            before.drop_last().push(before.last().push(s.last()))
        }
    }
}

/// The fields written one after another with `sep` between neighbours.
pub open spec fn join_with(fields: Seq<Seq<char>>, sep: Seq<char>) -> Seq<char>
    decreases fields.len(),
{
    if fields.len() == 0 {
        Seq::<char>::empty()
    } else if fields.len() == 1 {
        fields[0]
    } else {
        join_with(fields.drop_last(), sep) + sep + fields.last()
    }
}

/// `true` when `sep` does not occur in `s`.
pub open spec fn free_of(s: Seq<char>, sep: char) -> bool {
    forall|i: int| 0 <= i < s.len() ==> s[i] != sep
}

/// `true` when `sep` occurs in none of the fields.
pub open spec fn all_free_of(fields: Seq<Seq<char>>, sep: char) -> bool {
    forall|k: int| 0 <= k < fields.len() ==> free_of(#[trigger] fields[k], sep)
}

/// `true` when `s` ends with `suffix`.
pub open spec fn ends_with(s: Seq<char>, suffix: Seq<char>) -> bool {
    s.len() >= suffix.len() && s.subrange(s.len() - suffix.len(), s.len() as int) == suffix
}

/// `s` without any trailing repetitions of the non-empty `suffix`.
pub open spec fn strip_trailing(s: Seq<char>, suffix: Seq<char>) -> Seq<char>
    decreases s.len(),
{
    if suffix.len() > 0 && ends_with(s, suffix) {
        strip_trailing(s.take(s.len() - suffix.len()), suffix)
    } else {
        s
    }
}

/// `true` for the characters that Unicode marks as white space, the ones
/// that `str::trim` removes.
pub open spec fn is_whitespace(c: char) -> bool {
    let code = c as int;
    ||| 0x9 <= code <= 0xd
    ||| code == 0x20
    ||| code == 0x85
    ||| code == 0xa0
    ||| code == 0x1680
    ||| 0x2000 <= code <= 0x200a
    ||| code == 0x2028
    ||| code == 0x2029
    ||| code == 0x202f
    ||| code == 0x205f
    ||| code == 0x3000
}

/// `s` without its leading white space.
pub open spec fn trim_start_of(s: Seq<char>) -> Seq<char>
    decreases s.len(),
{
    if s.len() > 0 && is_whitespace(s[0]) {
        trim_start_of(s.skip(1))
    } else {
        s
    }
}

/// `s` without its trailing white space.
pub open spec fn trim_end_of(s: Seq<char>) -> Seq<char>
    decreases s.len(),
{
    if s.len() > 0 && is_whitespace(s.last()) {
        trim_end_of(s.drop_last())
    } else {
        s
    }
}

/// `s` without leading and trailing white space.
pub open spec fn trimmed(s: Seq<char>) -> Seq<char> {
    trim_end_of(trim_start_of(s))
}

/// A split always yields at least one field.
pub proof fn lemma_split_nonempty(s: Seq<char>, sep: char)
    ensures
        split_on(s, sep).len() >= 1,
    decreases s.len(),
{
    if s.len() > 0 {
        lemma_split_nonempty(s.drop_last(), sep);
    }
}

/// A text without the separator is its own single field.
pub proof fn lemma_split_of_field(s: Seq<char>, sep: char)
    requires
        free_of(s, sep),
    ensures
        split_on(s, sep) == seq![s],
    decreases s.len(),
{
    if s.len() > 0 {
        lemma_split_of_field(s.drop_last(), sep);
        assert(s.drop_last().push(s.last()) =~= s);
        assert(seq![s.drop_last()].drop_last().push(s) =~= seq![s]);
    } else {
        assert(s =~= Seq::<char>::empty());
    }
}

/// Appending a separator and one more separator-free field to a text adds
/// exactly that field to its split.
pub proof fn lemma_split_append_field(s: Seq<char>, sep: char, field: Seq<char>)
    requires
        free_of(field, sep),
    ensures
        split_on(s + seq![sep] + field, sep) == split_on(s, sep).push(field),
    decreases field.len(),
{
    let whole = s + seq![sep] + field;
    if field.len() == 0 {
        assert(whole.drop_last() =~= s);
        assert(field =~= Seq::<char>::empty());
    } else {
        let shorter = field.drop_last();
        lemma_split_append_field(s, sep, shorter);
        assert(whole.drop_last() =~= s + seq![sep] + shorter);
        assert(whole.last() == field.last());
        let before = split_on(s, sep).push(shorter);
        assert(before.drop_last() =~= split_on(s, sep));
        assert(shorter.push(field.last()) =~= field);
    }
}

/// Splitting the join of separator-free fields gives the fields back.
pub proof fn lemma_split_join(fields: Seq<Seq<char>>, sep: char)
    requires
        fields.len() >= 1,
        all_free_of(fields, sep),
    ensures
        split_on(join_with(fields, seq![sep]), sep) == fields,
    decreases fields.len(),
{
    if fields.len() == 1 {
        lemma_split_of_field(fields[0], sep);
        assert(seq![fields[0]] =~= fields);
    } else {
        let front = fields.drop_last();
        assert(all_free_of(front, sep)) by {
            assert forall|k: int| 0 <= k < front.len() implies free_of(
                #[trigger] front[k],
                sep,
            ) by {
                assert(front[k] == fields[k]);
            }
        }
        lemma_split_join(front, sep);
        lemma_split_append_field(join_with(front, seq![sep]), sep, fields.last());
        assert(front.push(fields.last()) =~= fields);
    }
}

/// Joining the split of a text gives the text back, and no field of a split
/// holds the separator.
pub proof fn lemma_join_split(s: Seq<char>, sep: char)
    ensures
        join_with(split_on(s, sep), seq![sep]) == s,
        all_free_of(split_on(s, sep), sep),
    decreases s.len(),
{
    if s.len() == 0 {
        assert(s =~= Seq::<char>::empty());
    } else {
        let before = split_on(s.drop_last(), sep);
        lemma_join_split(s.drop_last(), sep);
        lemma_split_nonempty(s.drop_last(), sep);
        if s.last() == sep {
            let fields = before.push(Seq::<char>::empty());
            assert(fields.drop_last() =~= before);
            assert(join_with(fields, seq![sep]) =~= s.drop_last() + seq![sep]
                + Seq::<char>::empty());
            assert(s.drop_last() + seq![sep] + Seq::<char>::empty() =~= s);
        } else {
            let grown = before.last().push(s.last());
            let fields = before.drop_last().push(grown);
            assert(free_of(grown, sep)) by {
                assert(free_of(before[before.len() - 1], sep));
            }
            assert(all_free_of(fields, sep)) by {
                assert forall|k: int| 0 <= k < fields.len() implies free_of(
                    #[trigger] fields[k],
                    sep,
                ) by {
                    if k < fields.len() - 1 {
                        assert(fields[k] == before[k]);
                    }
                }
            }
            if before.len() == 1 {
                assert(before[0] == s.drop_last());
                assert(fields[0] =~= s);
            } else {
                assert(fields.drop_last() =~= before.drop_last());
                let front = join_with(before.drop_last(), seq![sep]);
                assert(join_with(before, seq![sep]) == front + seq![sep] + before.last());
                assert(join_with(fields, seq![sep]) =~= (front + seq![sep] + before.last()).push(
                    s.last(),
                ));
                assert(s.drop_last().push(s.last()) =~= s);
            }
        }
    }
}

/// The join of two non-empty runs of fields is the join of each with a
/// separator between them.
pub proof fn lemma_join_concat(head: Seq<Seq<char>>, tail: Seq<Seq<char>>, sep: Seq<char>)
    requires
        head.len() >= 1,
        tail.len() >= 1,
    ensures
        join_with(head + tail, sep) == join_with(head, sep) + sep + join_with(tail, sep),
    decreases tail.len(),
{
    let all = head + tail;
    if tail.len() == 1 {
        assert(all.drop_last() =~= head);
        assert(all.last() == tail[0]);
    } else {
        lemma_join_concat(head, tail.drop_last(), sep);
        assert(all.drop_last() =~= head + tail.drop_last());
        assert(all.last() == tail.last());
        assert(join_with(all, sep) =~= join_with(head, sep) + sep + join_with(tail, sep));
    }
}

/// The message `label` followed by the text that was refused.
pub fn refusal_of_text(label: &str, refused: &str) -> (message: String)
    ensures
        message@ == label@ + refused@,
{
    let mut message = String::from_str(label);
    message.append(refused);
    message
}

/// The message `label` followed by the character that was refused.
pub fn refusal_of_char(label: &str, refused: char) -> (message: String)
    ensures
        message@ == label@.push(refused),
{
    let mut message = String::from_str(label);
    message.push(refused);
    message
}

/// A join of two or more fields ends with the terminator-like `suffix` of
/// two characters only where its last field does, as long as the separator
/// is neither of the two.
pub proof fn lemma_join_ends_like_last(fields: Seq<Seq<char>>, sep: char, suffix: Seq<char>)
    requires
        fields.len() >= 2,
        suffix.len() == 2,
        suffix[0] != sep,
        suffix[1] != sep,
    ensures
        ends_with(join_with(fields, seq![sep]), suffix) == ends_with(fields.last(), suffix),
{
    let joined = join_with(fields, seq![sep]);
    let front = join_with(fields.drop_last(), seq![sep]);
    let last = fields.last();
    assert(joined == front + seq![sep] + last);
    let n = joined.len() as int;
    if last.len() >= 2 {
        assert(joined.subrange(n - 2, n) =~= last.subrange(last.len() - 2, last.len() as int));
    } else if last.len() == 1 {
        assert(joined[n - 2] == sep);
        if ends_with(joined, suffix) {
            assert(joined.subrange(n - 2, n)[0] == suffix[0]);
        }
    } else {
        assert(joined[n - 1] == sep);
        if ends_with(joined, suffix) {
            assert(joined.subrange(n - 2, n)[1] == suffix[1]);
        }
    }
}

/// Taking the trailing repetitions of `suffix` off a text that ends with
/// exactly one leaves the text before it.
pub proof fn lemma_strip_one(body: Seq<char>, suffix: Seq<char>)
    requires
        suffix.len() > 0,
        !ends_with(body, suffix),
    ensures
        strip_trailing(body + suffix, suffix) == body,
{
    let whole = body + suffix;
    reveal_with_fuel(strip_trailing, 2);
    assert(whole.subrange(whole.len() - suffix.len(), whole.len() as int) =~= suffix);
    assert(whole.take(whole.len() - suffix.len()) =~= body);
}

/// `true` when `a` and `b` hold the same characters.
pub fn str_eq(a: &str, b: &str) -> (same: bool)
    ensures
        same == (a@ == b@),
{
    a.eq(b)
}

/// The characters of `s`, in order.
pub fn chars_of(s: &str) -> (chars: Vec<char>)
    ensures
        chars@ == s@,
{
    let mut chars: Vec<char> = Vec::new();
    for c in it: s.chars()
        invariant
            it.seq() == s@,
            chars@ == it.seq().take(it.index() as int),
    {
        chars.push(c);
    }
    chars
}

/// Splits `s` at every `sep`, as `str::split` does with a character.
pub fn split<'a>(s: &'a str, sep: char) -> (fields: Vec<&'a str>)
    ensures
        fields.deep_view() == split_on(s@, sep),
{
    let chars = chars_of(s);
    let mut fields: Vec<&'a str> = Vec::new();
    let mut start: usize = 0;
    let mut i: usize = 0;
    assert(s@.take(0) =~= Seq::<char>::empty());
    while i < chars.len()
        invariant
            chars@ == s@,
            start <= i <= chars.len(),
            split_on(s@.take(i as int), sep) == fields.deep_view().push(
                s@.subrange(start as int, i as int),
            ),
        decreases chars.len() - i,
    {
        let ghost prefix = s@.take(i as int + 1);
        assert(prefix.drop_last() =~= s@.take(i as int));
        if chars[i] == sep {
            let field = s.substring_char(start, i);
            fields.push(field);
            start = i + 1;
            assert(s@.subrange(start as int, start as int) =~= Seq::<char>::empty());
        } else {
            assert(s@.subrange(start as int, i as int).push(s@[i as int]) =~= s@.subrange(
                start as int,
                i as int + 1,
            ));
        }
        i += 1;
    }
    let last = s.substring_char(start, i);
    fields.push(last);
    assert(s@.take(i as int) =~= s@);
    fields
}

/// Writes the fields one after another with `sep` between neighbours, as
/// `[&str]::join` does.
pub fn join(fields: &[&str], sep: &str) -> (joined: String)
    ensures
        joined@ == join_with(fields.deep_view(), sep@),
{
    let mut joined = String::new();
    let mut i: usize = 0;
    let ghost all = fields.deep_view();
    while i < fields.len()
        invariant
            i <= fields.len(),
            all == fields.deep_view(),
            joined@ == join_with(all.take(i as int), sep@),
        decreases fields.len() - i,
    {
        let ghost upto = all.take(i as int + 1);
        assert(upto.drop_last() =~= all.take(i as int));
        if i > 0 {
            joined.append(sep);
        }
        joined.append(fields[i]);
        i += 1;
    }
    assert(all.take(i as int) =~= all);
    joined
}

/// `true` when the first `end` characters of `chars` end with `suffix`.
fn prefix_ends_with(chars: &Vec<char>, end: usize, suffix: &Vec<char>) -> (found: bool)
    requires
        end <= chars.len(),
    ensures
        found == ends_with(chars@.take(end as int), suffix@),
{
    let n = suffix.len();
    if end < n {
        return false;
    }
    let ghost tail = chars@.take(end as int).subrange(end - n, end as int);
    let mut k: usize = 0;
    while k < n
        invariant
            k <= n,
            n == suffix.len(),
            n <= end <= chars.len(),
            tail == chars@.take(end as int).subrange(end - n, end as int),
            forall|j: int| 0 <= j < k ==> tail[j] == suffix@[j],
        decreases n - k,
    {
        if chars[end - n + k] != suffix[k] {
            return false;
        }
        k += 1;
    }
    assert(tail =~= suffix@);
    true
}

/// `true` when `s` ends with `suffix`, as `str::ends_with` tells it.
pub fn str_ends_with(s: &str, suffix: &str) -> (found: bool)
    ensures
        found == ends_with(s@, suffix@),
{
    let chars = chars_of(s);
    let tail = chars_of(suffix);
    assert(chars@.take(chars.len() as int) =~= s@);
    prefix_ends_with(&chars, chars.len(), &tail)
}

/// `s` without any trailing repetitions of `suffix`, as `str::trim_end_matches`
/// leaves it.
pub fn trim_end_matches<'a>(s: &'a str, suffix: &str) -> (rest: &'a str)
    ensures
        rest@ == strip_trailing(s@, suffix@),
{
    let chars = chars_of(s);
    let tail = chars_of(suffix);
    let mut end: usize = chars.len();
    assert(chars@.take(end as int) =~= s@);
    if tail.len() == 0 {
        return s;
    }
    loop
        invariant
            chars@ == s@,
            tail@ == suffix@,
            tail.len() > 0,
            end <= chars.len(),
            strip_trailing(s@, suffix@) == strip_trailing(s@.take(end as int), suffix@),
        ensures
            !ends_with(s@.take(end as int), suffix@),
        decreases end,
    {
        if !prefix_ends_with(&chars, end, &tail) {
            break;
        }
        assert(s@.take(end as int).take(end - tail.len()) =~= s@.take(end - tail.len()));
        end = end - tail.len();
    }
    s.substring_char(0, end)
}

/// `true` for the characters that `str::trim` removes.
pub fn char_is_whitespace(c: char) -> (white: bool)
    ensures
        white == is_whitespace(c),
{
    let code: u32 = c as u32;
    (0x9 <= code && code <= 0xd) || code == 0x20 || code == 0x85 || code == 0xa0 || code == 0x1680
        || (0x2000 <= code && code <= 0x200a) || code == 0x2028 || code == 0x2029 || code
        == 0x202f || code == 0x205f || code == 0x3000
}

/// `s` without leading and trailing white space, as `str::trim` leaves it.
pub fn trim<'a>(s: &'a str) -> (rest: &'a str)
    ensures
        rest@ == trimmed(s@),
{
    let chars = chars_of(s);
    let mut lo: usize = 0;
    assert(s@.skip(0) =~= s@);
    while lo < chars.len() && char_is_whitespace(chars[lo])
        invariant
            chars@ == s@,
            lo <= chars.len(),
            trim_start_of(s@) == trim_start_of(s@.skip(lo as int)),
        decreases chars.len() - lo,
    {
        assert(s@.skip(lo as int).skip(1) =~= s@.skip(lo as int + 1));
        lo += 1;
    }
    let mut hi: usize = chars.len();
    while hi > lo && char_is_whitespace(chars[hi - 1])
        invariant
            chars@ == s@,
            lo <= hi <= chars.len(),
            trimmed(s@) == trim_end_of(s@.subrange(lo as int, hi as int)),
        decreases hi,
    {
        assert(s@.subrange(lo as int, hi as int).drop_last() =~= s@.subrange(
            lo as int,
            hi as int - 1,
        ));
        hi -= 1;
    }
    s.substring_char(lo, hi)
}

} // verus!
