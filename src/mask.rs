use vstd::prelude::*;

verus! {

/// The number of free (`true`) entries of a vary mask.
pub open spec fn num_free(m: Seq<bool>) -> nat
    decreases m.len(),
{
    if m.len() == 0 {
        0
    } else {
        num_free(m.drop_last()) + if m.last() {
            1nat
        } else {
            0nat
        }
    }
}

/// The values of `p` at the free positions of `m`, in order.
pub open spec fn gather<T>(p: Seq<T>, m: Seq<bool>) -> Seq<T>
    decreases m.len(),
{
    if m.len() == 0 {
        Seq::empty()
    } else if m.last() {
        gather(p.take(m.len() - 1), m.drop_last()).push(p[m.len() - 1])
    } else {
        gather(p.take(m.len() - 1), m.drop_last())
    }
}

/// `initial` with its free positions filled, in order, from `free`; the held
/// positions keep the value of `initial`.
pub open spec fn scatter<T>(initial: Seq<T>, m: Seq<bool>, free: Seq<T>) -> Seq<T> {
    Seq::new(
        initial.len(),
        |i: int|
            if m[i] {
                free[num_free(m.take(i)) as int]
            } else {
                initial[i]
            },
    )
}

/// The vary mask that a sequence of byte flags stands for: a flag is free
/// when it is not zero.
pub open spec fn mask_of_bytes(v: Seq<u8>) -> Seq<bool> {
    Seq::new(v.len(), |i: int| v[i] > 0)
}

proof fn lemma_num_free_step(m: Seq<bool>, i: int)
    requires
        0 <= i < m.len(),
    ensures
        num_free(m.take(i + 1)) == num_free(m.take(i)) + if m[i] {
            1nat
        } else {
            0nat
        },
{
    assert(m.take(i + 1).drop_last() =~= m.take(i));
}

proof fn lemma_num_free_prefix(m: Seq<bool>, i: int)
    requires
        0 <= i <= m.len(),
    ensures
        num_free(m.take(i)) <= num_free(m),
        i < m.len() && m[i] ==> num_free(m.take(i)) < num_free(m),
    decreases m.len() - i,
{
    if i == m.len() {
        assert(m.take(i) =~= m);
    } else {
        lemma_num_free_step(m, i);
        lemma_num_free_prefix(m, i + 1);
    }
}

proof fn lemma_gather_len<T>(p: Seq<T>, m: Seq<bool>)
    ensures
        gather(p, m).len() == num_free(m),
    decreases m.len(),
{
    if m.len() > 0 {
        lemma_gather_len(p.take(m.len() - 1), m.drop_last());
    }
}

proof fn lemma_gather_at<T>(p: Seq<T>, m: Seq<bool>, i: int)
    requires
        p.len() == m.len(),
        0 <= i < m.len(),
        m[i],
    ensures
        gather(p, m)[num_free(m.take(i)) as int] == p[i],
    decreases m.len(),
{
    let n = m.len() - 1;
    let pp = p.take(n);
    let mm = m.drop_last();
    lemma_gather_len(pp, mm);
    assert(mm =~= m.take(n));
    if i == n {
    } else {
        assert(mm.take(i) =~= m.take(i));
        lemma_gather_at(pp, mm, i);
        lemma_num_free_prefix(mm, i);
    }
}

/// Converts byte flags into a vary mask: a non-zero byte marks a free
/// parameter.
pub fn vary_mask_from_bytes(v: &Vec<u8>) -> (r: Vec<bool>)
    ensures
        r@ == mask_of_bytes(v@),
{
    let mut r: Vec<bool> = Vec::new();
    let mut i: usize = 0;
    while i < v.len()
        invariant
            i <= v.len(),
            r@ =~= mask_of_bytes(v@).take(i as int),
        decreases v.len() - i,
    {
        r.push(v[i] > 0);
        i = i + 1;
    }
    assert(r@ =~= mask_of_bytes(v@));
    r
}

/// The number of free parameters of a vary mask.
pub fn count_free(m: &Vec<bool>) -> (r: usize)
    ensures
        r == num_free(m@),
{
    let mut k: usize = 0;
    let mut i: usize = 0;
    while i < m.len()
        invariant
            i <= m.len(),
            k == num_free(m@.take(i as int)),
            k <= i,
        decreases m.len() - i,
    {
        proof {
            lemma_num_free_step(m@, i as int);
        }
        if m[i] {
            k = k + 1;
        }
        i = i + 1;
    }
    assert(m@.take(m.len() as int) =~= m@);
    k
}

/// The values of the free parameters, in order.
pub fn gather_free<T: Copy>(p: &Vec<T>, m: &Vec<bool>) -> (r: Vec<T>)
    requires
        p.len() == m.len(),
    ensures
        r@ == gather(p@, m@),
        r.len() == num_free(m@),
{
    let mut r: Vec<T> = Vec::new();
    let mut i: usize = 0;
    while i < m.len()
        invariant
            i <= m.len(),
            p.len() == m.len(),
            r@ == gather(p@.take(i as int), m@.take(i as int)),
        decreases m.len() - i,
    {
        let ghost pi = p@.take(i + 1);
        let ghost mi = m@.take(i + 1);
        assert(mi.drop_last() =~= m@.take(i as int));
        assert(pi.take(i as int) =~= p@.take(i as int));
        if m[i] {
            r.push(p[i]);
        }
        i = i + 1;
    }
    assert(m@.take(m.len() as int) =~= m@);
    assert(p@.take(m.len() as int) =~= p@);
    proof {
        lemma_gather_len(p@, m@);
    }
    r
}

/// `initial` with its free positions replaced, in order, by `free`.
pub fn scatter_free<T: Copy>(initial: &Vec<T>, m: &Vec<bool>, free: &Vec<T>) -> (r: Vec<T>)
    requires
        initial.len() == m.len(),
        free.len() == num_free(m@),
    ensures
        r@ == scatter(initial@, m@, free@),
{
    let mut r: Vec<T> = Vec::new();
    let mut k: usize = 0;
    let mut i: usize = 0;
    while i < m.len()
        invariant
            i <= m.len(),
            initial.len() == m.len(),
            free.len() == num_free(m@),
            k == num_free(m@.take(i as int)),
            r@ =~= scatter(initial@, m@, free@).take(i as int),
        decreases m.len() - i,
    {
        proof {
            lemma_num_free_step(m@, i as int);
            lemma_num_free_prefix(m@, i as int);
        }
        if m[i] {
            r.push(free[k]);
            k = k + 1;
        } else {
            r.push(initial[i]);
        }
        i = i + 1;
    }
    assert(r@ =~= scatter(initial@, m@, free@));
    r
}

/// A held parameter keeps its initial value, whatever values the free
/// parameters take.
pub proof fn lemma_held_parameters_kept<T>(initial: Seq<T>, m: Seq<bool>, free: Seq<T>, i: int)
    requires
        initial.len() == m.len(),
        free.len() == num_free(m),
        0 <= i < m.len(),
        !m[i],
    ensures
        scatter(initial, m, free)[i] == initial[i],
{
}

/// Putting back the free values of a parameter vector gives the vector
/// itself.
pub proof fn lemma_scatter_gather<T>(p: Seq<T>, m: Seq<bool>)
    requires
        p.len() == m.len(),
    ensures
        scatter(p, m, gather(p, m)) == p,
{
    assert forall|i: int| 0 <= i < p.len() implies #[trigger] scatter(p, m, gather(p, m))[i]
        == p[i] by {
        if m[i] {
            lemma_gather_at(p, m, i);
        }
    }
    assert(scatter(p, m, gather(p, m)) =~= p);
}

/// Filling the free positions twice keeps only the second filling: the held
/// positions still hold their initial values after any number of steps.
pub proof fn lemma_scatter_twice<T>(initial: Seq<T>, m: Seq<bool>, f: Seq<T>, g: Seq<T>)
    requires
        initial.len() == m.len(),
        f.len() == num_free(m),
        g.len() == num_free(m),
    ensures
        scatter(scatter(initial, m, f), m, g) == scatter(initial, m, g),
{
    assert(scatter(scatter(initial, m, f), m, g) =~= scatter(initial, m, g));
}

} // verus!
