use vstd::prelude::*;

verus! {

/// A permission overwrite of a channel, as the permission computation reads it.
#[derive(Clone, Copy, PartialEq, Eq, Structural, Debug)]
pub struct Overwrite {
    /// Whether the overwrite targets a role (member overwrites are skipped).
    pub for_role: bool,
    pub allow: u64,
    pub deny: u64,
}

/// The permissions after one overwrite: a role overwrite clears its denied
/// bits and then sets its allowed ones.
pub open spec fn apply_overwrite(perms: u64, o: Overwrite) -> u64 {
    if o.for_role {
        (perms & !o.deny) | o.allow
    } else {
        perms
    }
}

/// The permissions after the overwrites, applied in order.
pub open spec fn apply_overwrites(base: u64, overwrites: Seq<Overwrite>) -> u64
    decreases overwrites.len(),
{
    if overwrites.len() == 0 {
        base
    } else {
        apply_overwrite(apply_overwrites(base, overwrites.drop_last()), overwrites.last())
    }
}

/// The permissions a ticket channel requires, recorded when it is closed: the
/// `@everyone` role's permissions with the channel's role overwrites applied.
pub fn required_permissions(everyone: u64, overwrites: &Vec<Overwrite>) -> (r: u64)
    ensures
        r == apply_overwrites(everyone, overwrites@),
{
    let mut perms = everyone;
    let mut i: usize = 0;
    assert(overwrites@.take(0) =~= Seq::<Overwrite>::empty());
    while i < overwrites.len()
        invariant
            i <= overwrites.len(),
            perms == apply_overwrites(everyone, overwrites@.take(i as int)),
        decreases overwrites.len() - i,
    {
        let o = overwrites[i];
        if o.for_role {
            perms = (perms & !o.deny) | o.allow;
        }
        assert(overwrites@.take(i + 1).drop_last() =~= overwrites@.take(i as int));
        i = i + 1;
    }
    assert(overwrites@.take(overwrites.len() as int) =~= overwrites@);
    perms
}

/// After a role overwrite, every bit it allows is set and every bit it denies
/// without allowing is clear; member overwrites change nothing.
pub proof fn lemma_last_overwrite_wins(base: u64, overwrites: Seq<Overwrite>, o: Overwrite)
    ensures
        o.for_role ==> apply_overwrites(base, overwrites.push(o)) & o.allow == o.allow,
        o.for_role ==> apply_overwrites(base, overwrites.push(o)) & (o.deny & !o.allow) == 0,
        !o.for_role ==> apply_overwrites(base, overwrites.push(o)) == apply_overwrites(
            base,
            overwrites,
        ),
{
    assert(overwrites.push(o).drop_last() =~= overwrites);
    let p = apply_overwrites(base, overwrites);
    let a = o.allow;
    let d = o.deny;
    assert(((p & !d) | a) & a == a) by (bit_vector);
    assert(((p & !d) | a) & (d & !a) == 0) by (bit_vector);
}

} // verus!
