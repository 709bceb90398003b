//! Text as sequences of characters: reading a string's characters and
//! cutting a text into the fields that a separator delimits.

use vstd::prelude::*;
use vstd::std_specs::iter::IteratorSpec;
use vstd::string::StrSliceExecFns;
use vstd::string::StringExecFns;

verus! {

/// The characters of `s`, in order.
pub fn chars_of(s: &str) -> (chars: Vec<char>)
    ensures
        chars@ == s@,
{
    let mut chars: Vec<char> = Vec::new();
    let mut it = s.chars();
    let ghost mut seen: Seq<char> = Seq::empty();
    loop
        invariant
            chars@ == seen,
            seen + it.remaining() == s@,
            it.obeys_prophetic_iter_laws(),
            it.decrease() is Some,
        ensures
            chars@ == s@,
        decreases it.decrease()->0,
    {
        let ghost before = it;
        let next = it.next();
        proof {
            vstd::string::next_postcondition(&before, &it, next);
        }
        match next {
            Some(c) => {
                chars.push(c);
                proof {
                    seen = seen.push(c);
                    assert(seen + it.remaining() =~= s@);
                }
            },
            None => {
                assert(seen + it.remaining() =~= seen);
                break;
            },
        }
    }
    chars
}

/// The texts in `strings`.
pub open spec fn texts(strings: Seq<String>) -> Seq<Seq<char>> {
    Seq::new(strings.len(), |i: int| strings[i]@)
}

/// A copy of `strings`.
pub fn clone_strings(strings: &Vec<String>) -> (copy: Vec<String>)
    ensures
        texts(copy@) == texts(strings@),
{
    let mut copy: Vec<String> = Vec::new();
    let mut i: usize = 0;
    while i < strings.len()
        invariant
            i <= strings.len(),
            copy.len() == i,
            forall|k: int| 0 <= k < i ==> copy[k]@ == strings[k]@,
        decreases strings.len() - i,
    {
        copy.push(strings[i].clone());
        i += 1;
    }
    assert(texts(copy@) =~= texts(strings@));
    copy
}

/// Whether `s` reads `literal`.
pub fn reads(s: &String, literal: &str) -> (yes: bool)
    ensures
        yes == (s@ == literal@),
{
    let wanted = literal.to_owned();
    *s == wanted
}

/// The first `n` characters of `s`.
pub fn prefix_of(s: &str, n: usize) -> (prefix: String)
    requires
        n <= s@.len(),
    ensures
        prefix@ == s@.take(n as int),
{
    s.substring_char(0, n).to_owned()
}

/// The characters of `s` from position `from` up to position `to`.
pub fn slice_of(s: &str, from: usize, to: usize) -> (slice: String)
    requires
        from <= to <= s@.len(),
    ensures
        slice@ == s@.subrange(from as int, to as int),
{
    s.substring_char(from, to).to_owned()
}

/// The four texts in a row.
pub fn join4(a: &str, b: &str, c: &str, d: &str) -> (joined: String)
    ensures
        joined@ == a@ + b@ + c@ + d@,
{
    let mut joined = String::from_str(a);
    joined.append(b);
    joined.append(c);
    joined.append(d);
    joined
}

/// The fields of `s` that `sep` delimits, in order: the stretches of `s`
/// between one `sep` and the next, with the stretch before the first and the
/// one after the last. A text without `sep` is its own single field, an empty
/// text too.
pub open spec fn split(s: Seq<char>, sep: char) -> Seq<Seq<char>>
    decreases s.len(),
{
    if s.len() == 0 {
        seq![Seq::empty()]
    } else {
        let before = split(s.drop_last(), sep);
        if s.last() == sep {
            before.push(Seq::empty())
        } else {
            before.update(before.len() - 1, before.last().push(s.last()))
        }
    }
}

/// A text has at least one field.
pub proof fn lemma_split_nonempty(s: Seq<char>, sep: char)
    ensures
        split(s, sep).len() >= 1,
    decreases s.len(),
{
    if s.len() > 0 {
        lemma_split_nonempty(s.drop_last(), sep);
    }
}

/// Whether `sep` does not occur in `s`.
pub open spec fn free_of(s: Seq<char>, sep: char) -> bool {
    forall|i: int| 0 <= i < s.len() ==> s[i] != sep
}

/// The fields in a row, with `sep` between each and the next.
pub open spec fn join(fields: Seq<Seq<char>>, sep: char) -> Seq<char>
    decreases fields.len(),
{
    if fields.len() == 0 {
        Seq::empty()
    } else if fields.len() == 1 {
        fields[0]
    } else {
        join(fields.drop_last(), sep).push(sep) + fields.last()
    }
}

/// A text without `sep` is its own single field.
pub proof fn lemma_split_plain(s: Seq<char>, sep: char)
    requires
        free_of(s, sep),
    ensures
        split(s, sep) == seq![s],
    decreases s.len(),
{
    if s.len() > 0 {
        lemma_split_plain(s.drop_last(), sep);
        assert(s[s.len() - 1] != sep);
        assert(s.drop_last().push(s.last()) =~= s);
        assert(split(s, sep) =~= seq![s]);
    } else {
        assert(s =~= Seq::<char>::empty());
    }
}

/// The fields of two texts with `sep` between them are the fields of the
/// first followed by the fields of the second.
pub proof fn lemma_split_concat(a: Seq<char>, b: Seq<char>, sep: char)
    ensures
        split(a.push(sep) + b, sep) == split(a, sep) + split(b, sep),
    decreases b.len(),
{
    let s = a.push(sep) + b;
    if b.len() == 0 {
        assert(s =~= a.push(sep));
        assert(s.drop_last() =~= a);
        assert(split(s, sep) =~= split(a, sep) + split(b, sep));
    } else {
        let shorter = b.drop_last();
        lemma_split_concat(a, shorter, sep);
        lemma_split_nonempty(shorter, sep);
        assert(s.drop_last() =~= a.push(sep) + shorter);
        assert(s.last() == b.last());
        assert(split(s, sep) =~= split(a, sep) + split(b, sep));
    }
}

/// Cutting what was joined gives the fields back, where none of them holds
/// `sep`.
pub proof fn lemma_split_of_join(fields: Seq<Seq<char>>, sep: char)
    requires
        fields.len() >= 1,
        forall|k: int| 0 <= k < fields.len() ==> free_of(#[trigger] fields[k], sep),
    ensures
        split(join(fields, sep), sep) == fields,
    decreases fields.len(),
{
    if fields.len() == 1 {
        lemma_split_plain(fields[0], sep);
        assert(seq![fields[0]] =~= fields);
    } else {
        let before = fields.drop_last();
        lemma_split_of_join(before, sep);
        lemma_split_concat(join(before, sep), fields.last(), sep);
        lemma_split_plain(fields.last(), sep);
        assert(before + seq![fields.last()] =~= fields);
    }
}

/// Joining the fields of a text gives the text back, and no field holds
/// `sep`.
pub proof fn lemma_join_of_split(s: Seq<char>, sep: char)
    ensures
        join(split(s, sep), sep) == s,
        forall|k: int| 0 <= k < split(s, sep).len() ==> free_of(#[trigger] split(s, sep)[k], sep),
    decreases s.len(),
{
    let fields = split(s, sep);
    if s.len() == 0 {
        assert(join(fields, sep) =~= s);
    } else {
        let shorter = s.drop_last();
        let before = split(shorter, sep);
        lemma_join_of_split(shorter, sep);
        lemma_split_nonempty(shorter, sep);
        assert(shorter.push(s.last()) =~= s);
        if s.last() == sep {
            assert(fields.drop_last() =~= before);
            assert(join(fields, sep) =~= s);
        } else if before.len() == 1 {
            assert(join(fields, sep) =~= s);
        } else {
            assert(fields.drop_last() =~= before.drop_last());
            assert(join(fields, sep) =~= join(before, sep).push(s.last()));
        }
        assert forall|k: int| 0 <= k < fields.len() implies free_of(#[trigger] fields[k], sep) by {
            if k < before.len() - 1 || (s.last() == sep && k < before.len()) {
                assert(fields[k] == before[k]);
            } else if s.last() != sep {
                assert(free_of(before[k], sep));
            }
        }
    }
}

/// Where the fields of `s` lie: for each field, in order, the position of
/// its first character and the position after its last.
pub fn field_bounds(s: &Vec<char>, sep: char) -> (bounds: Vec<(usize, usize)>)
    ensures
        bounds.len() == split(s@, sep).len(),
        forall|k: int|
            0 <= k < bounds.len() ==> {
                &&& bounds[k].0 <= bounds[k].1 <= s.len()
                &&& s@.subrange(bounds[k].0 as int, bounds[k].1 as int) == #[trigger] split(
                    s@,
                    sep,
                )[k]
            },
{
    let mut bounds: Vec<(usize, usize)> = Vec::new();
    let mut start: usize = 0;
    let mut i: usize = 0;
    proof {
        assert(s@.take(0) =~= Seq::<char>::empty());
        assert(s@.subrange(0, 0) =~= Seq::<char>::empty());
    }
    while i < s.len()
        invariant
            i <= s.len(),
            start <= i,
            bounds.len() + 1 == split(s@.take(i as int), sep).len(),
            split(s@.take(i as int), sep).last() == s@.subrange(start as int, i as int),
            forall|k: int| 0 <= k < bounds.len() ==> (#[trigger] bounds[k]).0 <= bounds[k].1 <= i,
            forall|k: int|
                0 <= k < bounds.len() ==> s@.subrange(bounds[k].0 as int, bounds[k].1 as int)
                    == #[trigger] split(s@.take(i as int), sep)[k],
        decreases s.len() - i,
    {
        let ghost fields = split(s@.take(i as int), sep);
        let ghost grown = split(s@.take(i + 1), sep);
        let ghost closed = bounds@;
        proof {
            assert(s@.take(i + 1).drop_last() =~= s@.take(i as int));
            assert(s@.take(i + 1).last() == s[i as int]);
            assert forall|k: int| 0 <= k < closed.len() implies #[trigger] grown[k] == s@.subrange(
                closed[k].0 as int,
                closed[k].1 as int,
            ) by {
                assert(grown[k] == fields[k]);
            }
        }
        if s[i] == sep {
            bounds.push((start, i));
            start = i + 1;
            assert(s@.subrange(start as int, i + 1) =~= Seq::<char>::empty());
            assert(grown[closed.len() as int] == fields.last());
        } else {
            assert(s@.subrange(start as int, i + 1) =~= s@.subrange(start as int, i as int).push(
                s[i as int],
            ));
        }
        i += 1;
    }
    let ghost fields = split(s@, sep);
    let ghost closed = bounds@;
    proof {
        assert(s@.take(s.len() as int) =~= s@);
        assert forall|k: int| 0 <= k < closed.len() implies #[trigger] fields[k] == s@.subrange(
            closed[k].0 as int,
            closed[k].1 as int,
        ) by {
            assert(fields[k] == split(s@.take(i as int), sep)[k]);
        }
    }
    bounds.push((start, i));
    bounds
}

/// Whether `pattern` stands in `s` at position `at`.
pub fn stands_at(s: &Vec<char>, at: usize, pattern: &Vec<char>) -> (yes: bool)
    ensures
        yes == (at + pattern.len() <= s.len() && s@.subrange(
            at as int,
            at + pattern.len(),
        ) == pattern@),
{
    if at > s.len() || pattern.len() > s.len() - at {
        return false;
    }
    let mut k: usize = 0;
    while k < pattern.len()
        invariant
            k <= pattern.len(),
            at + pattern.len() <= s.len(),
            forall|j: int| 0 <= j < k ==> s[at + j] == pattern[j],
        decreases pattern.len() - k,
    {
        if s[at + k] != pattern[k] {
            assert(s@.subrange(at as int, at + pattern.len())[k as int] == s[at + k]);
            return false;
        }
        k += 1;
    }
    assert(s@.subrange(at as int, at + pattern.len()) =~= pattern@);
    true
}

} // verus!
