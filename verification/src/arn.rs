//! The identifiers of managed certificates:
//! `arn:<partition>:acm:<region>:<account>:certificate/<id>`.

use crate::region::lookup_region;
use crate::region::region_of_name;
use crate::text::chars_of;
use crate::text::field_bounds;
use crate::text::free_of;
use crate::text::join;
use crate::text::lemma_join_of_split;
use crate::text::lemma_split_of_join;
use crate::text::slice_of;
use crate::text::split;
use crate::text::stands_at;
use vstd::prelude::*;

verus! {

/// Whether `account` is an account number: twelve digits.
pub open spec fn is_account(account: Seq<char>) -> bool {
    &&& account.len() == 12
    &&& forall|i: int| 0 <= i < account.len() ==> '0' <= #[trigger] account[i] <= '9'
}

/// Whether `arn` identifies a managed certificate: six fields parted by `:`,
/// of which the first reads `arn`, the second names a partition, the third
/// reads `acm`, the fourth names a region that is known, the fifth is an
/// account number and the sixth starts with `certificate/`.
pub open spec fn arn_is_valid(arn: Seq<char>) -> bool {
    let parts = split(arn, ':');
    &&& parts.len() == 6
    &&& parts[0] == "arn"@
    &&& parts[1].len() > 0
    &&& parts[2] == "acm"@
    &&& region_of_name(parts[3]) is Some
    &&& is_account(parts[4])
    &&& "certificate/"@.is_prefix_of(parts[5])
}

/// The region that `arn` places its certificate in: the one that its fourth
/// field names, where it has four fields and that one names a region.
pub open spec fn arn_region(arn: Seq<char>) -> Option<Seq<char>> {
    let parts = split(arn, ':');
    if parts.len() >= 4 {
        region_of_name(parts[3])
    } else {
        None
    }
}

/// The identifier of the certificate `id` of `account` in `region` of
/// `partition`.
pub open spec fn arn_of(
    partition: Seq<char>,
    region: Seq<char>,
    account: Seq<char>,
    id: Seq<char>,
) -> Seq<char> {
    "arn:"@ + partition + ":acm:"@ + region + ":"@ + account + ":certificate/"@ + id
}

/// Whether the four parts can make an identifier: a partition is named, the
/// region is known, the account is an account number, and no part holds a
/// `:`.
pub open spec fn are_arn_parts(
    partition: Seq<char>,
    region: Seq<char>,
    account: Seq<char>,
    id: Seq<char>,
) -> bool {
    &&& partition.len() > 0
    &&& free_of(partition, ':')
    &&& free_of(region, ':')
    &&& region_of_name(region) is Some
    &&& is_account(account)
    &&& free_of(id, ':')
}

/// The fields of the identifier made of the four parts.
spec fn fields_of(
    partition: Seq<char>,
    region: Seq<char>,
    account: Seq<char>,
    id: Seq<char>,
) -> Seq<Seq<char>> {
    seq!["arn"@, partition, "acm"@, region, account, "certificate/"@ + id]
}

/// The identifier made of four parts is its six fields joined by `:`.
proof fn lemma_arn_of_is_joined(
    partition: Seq<char>,
    region: Seq<char>,
    account: Seq<char>,
    id: Seq<char>,
)
    ensures
        arn_of(partition, region, account, id) == join(
            fields_of(partition, region, account, id),
            ':',
        ),
{
    reveal_strlit("arn");
    reveal_strlit("arn:");
    reveal_strlit("acm");
    reveal_strlit(":acm:");
    reveal_strlit(":");
    reveal_strlit("certificate/");
    reveal_strlit(":certificate/");
    let fields = fields_of(partition, region, account, id);
    let f5 = fields.drop_last();
    let f4 = f5.drop_last();
    let f3 = f4.drop_last();
    let f2 = f3.drop_last();
    let f1 = f2.drop_last();
    assert(join(f1, ':') == "arn"@);
    assert(join(f2, ':') =~= "arn:"@ + partition);
    assert(join(f3, ':') =~= ("arn:"@ + partition).push(':') + "acm"@);
    assert(join(f4, ':') =~= "arn:"@ + partition + ":acm:"@ + region);
    assert(join(f5, ':') =~= "arn:"@ + partition + ":acm:"@ + region + ":"@ + account);
    assert(join(fields, ':') =~= arn_of(partition, region, account, id));
}

/// What is made of four parts that can make an identifier is a valid
/// identifier.
pub proof fn lemma_composed_arn_is_valid(
    partition: Seq<char>,
    region: Seq<char>,
    account: Seq<char>,
    id: Seq<char>,
)
    requires
        are_arn_parts(partition, region, account, id),
    ensures
        arn_is_valid(arn_of(partition, region, account, id)),
        arn_region(arn_of(partition, region, account, id)) == region_of_name(region),
{
    reveal_strlit("arn");
    reveal_strlit("acm");
    reveal_strlit("certificate/");
    let fields = fields_of(partition, region, account, id);
    lemma_arn_of_is_joined(partition, region, account, id);
    assert forall|k: int| 0 <= k < fields.len() implies free_of(#[trigger] fields[k], ':') by {
        if k == 4 {
            assert forall|i: int| 0 <= i < account.len() implies account[i] != ':' by {
                assert('0' <= account[i] <= '9');
            }
        }
    }
    lemma_split_of_join(fields, ':');
    assert(fields[5].subrange(0, 12) =~= "certificate/"@);
}

/// A valid identifier is made of four parts that can make one: nothing else
/// is valid.
pub proof fn lemma_valid_arn_is_composed(arn: Seq<char>)
    requires
        arn_is_valid(arn),
    ensures
        exists|partition: Seq<char>, region: Seq<char>, account: Seq<char>, id: Seq<char>|
            are_arn_parts(partition, region, account, id) && arn == #[trigger] arn_of(
                partition,
                region,
                account,
                id,
            ),
{
    reveal_strlit("certificate/");
    let parts = split(arn, ':');
    lemma_join_of_split(arn, ':');
    let id = parts[5].skip(12);
    assert("certificate/"@ + id =~= parts[5]);
    assert(fields_of(parts[1], parts[3], parts[4], id) =~= parts);
    lemma_arn_of_is_joined(parts[1], parts[3], parts[4], id);
    assert(free_of(parts[1], ':'));
    assert(free_of(parts[3], ':'));
    assert(free_of(parts[5], ':'));
    assert forall|i: int| 0 <= i < id.len() implies id[i] != ':' by {
        assert(id[i] == parts[5][i + 12]);
    }
    assert(are_arn_parts(parts[1], parts[3], parts[4], id));
}

/// The region of a valid identifier is known.
pub proof fn lemma_valid_arn_has_region(arn: Seq<char>)
    requires
        arn_is_valid(arn),
    ensures
        arn_region(arn) is Some,
{
}

/// Decides `is_account` of the characters of `s` from `from` up to `to`.
fn is_account_at(s: &Vec<char>, from: usize, to: usize) -> (yes: bool)
    requires
        from <= to <= s.len(),
    ensures
        yes == is_account(s@.subrange(from as int, to as int)),
{
    if to - from != 12 {
        return false;
    }
    let ghost account = s@.subrange(from as int, to as int);
    let mut i: usize = from;
    while i < to
        invariant
            from <= i <= to <= s.len(),
            account == s@.subrange(from as int, to as int),
            forall|k: int| 0 <= k < i - from ==> '0' <= #[trigger] account[k] <= '9',
        decreases to - i,
    {
        if !(s[i] >= '0' && s[i] <= '9') {
            assert(account[i - from] == s[i as int]);
            return false;
        }
        assert(account[i - from] == s[i as int]);
        i += 1;
    }
    true
}

/// Whether the characters of `s` from `from` up to `to` read `literal`.
fn field_reads(s: &Vec<char>, from: usize, to: usize, literal: &str) -> (yes: bool)
    requires
        from <= to <= s.len(),
    ensures
        yes == (s@.subrange(from as int, to as int) == literal@),
{
    let wanted = chars_of(literal);
    to - from == wanted.len() && stands_at(s, from, &wanted)
}

/// Whether the characters of `s` from `from` up to `to` start with `literal`.
fn field_starts_with(s: &Vec<char>, from: usize, to: usize, literal: &str) -> (yes: bool)
    requires
        from <= to <= s.len(),
    ensures
        yes == literal@.is_prefix_of(s@.subrange(from as int, to as int)),
{
    let wanted = chars_of(literal);
    if to - from < wanted.len() {
        return false;
    }
    let yes = stands_at(s, from, &wanted);
    proof {
        let field = s@.subrange(from as int, to as int);
        assert(field.subrange(0, wanted.len() as int) =~= s@.subrange(
            from as int,
            from + wanted.len(),
        ));
    }
    yes
}

/// Decides `arn_is_valid`.
pub fn is_valid_arn(arn: &str) -> (yes: bool)
    ensures
        yes == arn_is_valid(arn@),
{
    let chars = chars_of(arn);
    let bounds = field_bounds(&chars, ':');
    if bounds.len() != 6 {
        return false;
    }
    let ghost parts = split(arn@, ':');
    proof {
        assert(parts[0] == chars@.subrange(bounds[0].0 as int, bounds[0].1 as int));
        assert(parts[1] == chars@.subrange(bounds[1].0 as int, bounds[1].1 as int));
        assert(parts[2] == chars@.subrange(bounds[2].0 as int, bounds[2].1 as int));
        assert(parts[3] == chars@.subrange(bounds[3].0 as int, bounds[3].1 as int));
        assert(parts[4] == chars@.subrange(bounds[4].0 as int, bounds[4].1 as int));
        assert(parts[5] == chars@.subrange(bounds[5].0 as int, bounds[5].1 as int));
    }
    if !field_reads(&chars, bounds[0].0, bounds[0].1, "arn") {
        return false;
    }
    if bounds[1].1 == bounds[1].0 {
        return false;
    }
    if !field_reads(&chars, bounds[2].0, bounds[2].1, "acm") {
        return false;
    }
    if !is_account_at(&chars, bounds[4].0, bounds[4].1) {
        return false;
    }
    if !field_starts_with(&chars, bounds[5].0, bounds[5].1, "certificate/") {
        return false;
    }
    let region = slice_of(arn, bounds[3].0, bounds[3].1);
    lookup_region(region.as_str()).is_some()
}

/// The name of the region that `arn` places its certificate in, if it names
/// one.
pub fn region_of_arn(arn: &str) -> (region: Option<String>)
    ensures
        match region {
            Some(name) => Some(name@) == arn_region(arn@),
            None => arn_region(arn@) is None,
        },
{
    let chars = chars_of(arn);
    let bounds = field_bounds(&chars, ':');
    if bounds.len() < 4 {
        return None;
    }
    assert(split(arn@, ':')[3] == chars@.subrange(bounds[3].0 as int, bounds[3].1 as int));
    let field = slice_of(arn, bounds[3].0, bounds[3].1);
    lookup_region(field.as_str())
}

} // verus!
