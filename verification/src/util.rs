use vstd::prelude::*;

verus! {

/// Index of the first element of `s` satisfying `p`, or `-1` if none does.
pub open spec fn first_where<T>(s: Seq<T>, p: spec_fn(T) -> bool) -> int
    decreases s.len(),
{
    if s.len() == 0 {
        -1
    } else if p(s[0]) {
        0
    } else if first_where(s.drop_first(), p) < 0 {
        -1
    } else {
        first_where(s.drop_first(), p) + 1
    }
}

/// What `first_where` returns: either `-1` and nothing matches, or the first
/// matching index.
pub proof fn lemma_first_where<T>(s: Seq<T>, p: spec_fn(T) -> bool)
    ensures
        first_where(s, p) == -1 || (0 <= first_where(s, p) < s.len()),
        first_where(s, p) == -1 ==> forall|i: int| 0 <= i < s.len() ==> !p(#[trigger] s[i]),
        first_where(s, p) >= 0 ==> p(s[first_where(s, p)]),
        first_where(s, p) >= 0 ==> forall|i: int|
            0 <= i < first_where(s, p) ==> !p(#[trigger] s[i]),
    decreases s.len(),
{
    if s.len() > 0 && !p(s[0]) {
        lemma_first_where(s.drop_first(), p);
        assert forall|i: int| 1 <= i < s.len() implies s.drop_first()[i - 1] == s[i] by {}
    }
}

/// An index whose element matches, with nothing matching before it, is what
/// `first_where` returns.
pub proof fn lemma_first_where_is<T>(s: Seq<T>, p: spec_fn(T) -> bool, i: int)
    requires
        0 <= i < s.len(),
        p(s[i]),
        forall|j: int| 0 <= j < i ==> !p(#[trigger] s[j]),
    ensures
        first_where(s, p) == i,
{
    lemma_first_where(s, p);
}

/// Sum of `f` over all elements of `s`.
pub open spec fn sum_of<T>(s: Seq<T>, f: spec_fn(T) -> int) -> int
    decreases s.len(),
{
    if s.len() == 0 {
        0
    } else {
        sum_of(s.drop_last(), f) + f(s.last())
    }
}

/// Extending a prefix by one element adds that element's contribution.
pub proof fn lemma_sum_of_take_step<T>(s: Seq<T>, f: spec_fn(T) -> int, i: int)
    requires
        0 <= i < s.len(),
    ensures
        sum_of(s.take(i + 1), f) == sum_of(s.take(i), f) + f(s[i]),
{
    assert(s.take(i + 1).drop_last() =~= s.take(i));
    assert(s.take(i + 1).last() == s[i]);
}

/// A sum of non-negative contributions is non-negative.
pub proof fn lemma_sum_of_nonneg<T>(s: Seq<T>, f: spec_fn(T) -> int)
    requires
        forall|i: int| 0 <= i < s.len() ==> f(#[trigger] s[i]) >= 0,
    ensures
        sum_of(s, f) >= 0,
    decreases s.len(),
{
    if s.len() > 0 {
        lemma_sum_of_nonneg(s.drop_last(), f);
    }
}

/// With non-negative contributions, a prefix sums to no more than the whole.
pub proof fn lemma_sum_of_take_le<T>(s: Seq<T>, f: spec_fn(T) -> int, i: int)
    requires
        0 <= i <= s.len(),
        forall|j: int| 0 <= j < s.len() ==> f(#[trigger] s[j]) >= 0,
    ensures
        sum_of(s.take(i), f) <= sum_of(s, f),
    decreases s.len() - i,
{
    if i == s.len() {
        assert(s.take(i) =~= s);
    } else {
        lemma_sum_of_take_step(s, f, i);
        lemma_sum_of_take_le(s, f, i + 1);
    }
}

/// Pointwise smaller contributions give a smaller sum.
pub proof fn lemma_sum_of_pointwise_le<T>(a: Seq<T>, b: Seq<T>, f: spec_fn(T) -> int)
    requires
        a.len() == b.len(),
        forall|i: int| 0 <= i < a.len() ==> f(#[trigger] a[i]) <= f(#[trigger] b[i]),
    ensures
        sum_of(a, f) <= sum_of(b, f),
    decreases a.len(),
{
    if a.len() > 0 {
        lemma_sum_of_pointwise_le(a.drop_last(), b.drop_last(), f);
    }
}

/// A sum over elements that all contribute zero is zero.
pub proof fn lemma_sum_of_zero<T>(s: Seq<T>, f: spec_fn(T) -> int)
    requires
        forall|i: int| 0 <= i < s.len() ==> f(#[trigger] s[i]) == 0,
    ensures
        sum_of(s, f) == 0,
    decreases s.len(),
{
    if s.len() > 0 {
        lemma_sum_of_zero(s.drop_last(), f);
    }
}

/// A sum over a mapped sequence is the sum of the composed contribution.
pub proof fn lemma_sum_of_map_values<T>(
    s: Seq<T>,
    g: spec_fn(T) -> T,
    f: spec_fn(T) -> int,
    h: spec_fn(T) -> int,
)
    requires
        forall|i: int| 0 <= i < s.len() ==> f(g(#[trigger] s[i])) == h(s[i]),
    ensures
        sum_of(s.map_values(g), f) == sum_of(s, h),
    decreases s.len(),
{
    if s.len() > 0 {
        assert(s.map_values(g).drop_last() =~= s.drop_last().map_values(g));
        lemma_sum_of_map_values(s.drop_last(), g, f, h);
        assert(s.map_values(g).last() == g(s.last()));
    }
}

/// Appending one element adds its contribution to the sum.
pub proof fn lemma_sum_of_push<T>(s: Seq<T>, f: spec_fn(T) -> int, x: T)
    ensures
        sum_of(s.push(x), f) == sum_of(s, f) + f(x),
{
    assert(s.push(x).drop_last() =~= s);
    assert(s.push(x).last() == x);
}

} // verus!
