use vstd::prelude::*;

verus! {

/// Upper bound on the recent-directories list.
pub const MAX_RECENT_DIRS: usize = 5;

/// The character sequences of a sequence of paths.
pub open spec fn path_views(s: Seq<String>) -> Seq<Seq<char>> {
    s.map_values(|p: String| p@)
}

/// No two paths of `s` are equal.
pub open spec fn distinct_paths(s: Seq<Seq<char>>) -> bool {
    forall|i: int, j: int| 0 <= i < j < s.len() ==> s[i] != s[j]
}

/// The entries of `rs` other than `p`, in their old order, at most
/// `cap` of them (entries past the cap are evicted from the tail).
pub open spec fn keep_others(rs: Seq<Seq<char>>, p: Seq<char>, cap: nat) -> Seq<Seq<char>>
    decreases rs.len(),
{
    if rs.len() == 0 || cap == 0 {
        Seq::empty()
    } else if rs[0] == p {
        keep_others(rs.drop_first(), p, cap)
    } else {
        seq![rs[0]] + keep_others(rs.drop_first(), p, (cap - 1) as nat)
    }
}

/// Most-recently-used insertion: `p` moves to the front; any old
/// occurrence of `p` is removed; the tail is truncated so the whole
/// list never exceeds `MAX_RECENT_DIRS` entries.
pub open spec fn mru_insert(rs: Seq<Seq<char>>, p: Seq<char>) -> Seq<Seq<char>> {
    seq![p] + keep_others(rs, p, (MAX_RECENT_DIRS - 1) as nat)
}

proof fn lemma_keep_others_len(rs: Seq<Seq<char>>, p: Seq<char>, cap: nat)
    ensures
        keep_others(rs, p, cap).len() <= cap,
    decreases rs.len(),
{
    if rs.len() == 0 || cap == 0 {
    } else if rs[0] == p {
        lemma_keep_others_len(rs.drop_first(), p, cap);
    } else {
        lemma_keep_others_len(rs.drop_first(), p, (cap - 1) as nat);
    }
}

proof fn lemma_keep_others_membership(rs: Seq<Seq<char>>, p: Seq<char>, cap: nat)
    ensures
        forall|x: Seq<char>| #[trigger] keep_others(rs, p, cap).contains(x) ==> x != p && rs.contains(x),
    decreases rs.len(),
{
    if rs.len() == 0 || cap == 0 {
    } else if rs[0] == p {
        lemma_keep_others_membership(rs.drop_first(), p, cap);
        assert forall|x: Seq<char>| #[trigger] keep_others(rs, p, cap).contains(x) implies x != p
            && rs.contains(x) by {
            assert(keep_others(rs.drop_first(), p, cap).contains(x));
            let i = choose|i: int|
                0 <= i < rs.drop_first().len() && rs.drop_first()[i] == x;
            assert(rs[i + 1] == x);
        }
    } else {
        lemma_keep_others_membership(rs.drop_first(), p, (cap - 1) as nat);
        assert forall|x: Seq<char>| #[trigger] keep_others(rs, p, cap).contains(x) implies x != p
            && rs.contains(x) by {
            let r = keep_others(rs, p, cap);
            let j = choose|j: int| 0 <= j < r.len() && r[j] == x;
            if j == 0 {
                assert(rs[0] == x);
            } else {
                assert(keep_others(rs.drop_first(), p, (cap - 1) as nat).contains(x));
                let i = choose|i: int|
                    0 <= i < rs.drop_first().len() && rs.drop_first()[i] == x;
                assert(rs[i + 1] == x);
            }
        }
    }
}

proof fn lemma_keep_others_distinct(rs: Seq<Seq<char>>, p: Seq<char>, cap: nat)
    requires
        distinct_paths(rs),
    ensures
        distinct_paths(keep_others(rs, p, cap)),
    decreases rs.len(),
{
    if rs.len() == 0 || cap == 0 {
    } else if rs[0] == p {
        assert(distinct_paths(rs.drop_first()));
        lemma_keep_others_distinct(rs.drop_first(), p, cap);
    } else {
        assert(distinct_paths(rs.drop_first()));
        lemma_keep_others_distinct(rs.drop_first(), p, (cap - 1) as nat);
        lemma_keep_others_membership(rs.drop_first(), p, (cap - 1) as nat);
        let tail = keep_others(rs.drop_first(), p, (cap - 1) as nat);
        let whole = keep_others(rs, p, cap);
        assert forall|i: int, j: int| 0 <= i < j < whole.len() implies whole[i] != whole[j] by {
            if i == 0 {
                assert(tail.contains(tail[j - 1]));
                let k = choose|k: int|
                    0 <= k < rs.drop_first().len() && rs.drop_first()[k] == tail[j - 1];
                assert(rs[k + 1] == tail[j - 1]);
            } else {
                assert(tail[i - 1] != tail[j - 1]);
            }
        }
    }
}

/// The recent-directories law: inserting `p` yields a list of at most
/// `MAX_RECENT_DIRS` entries whose front is `p`, which holds `p`
/// nowhere else, whose other entries all come from the old list, and
/// which is duplicate-free whenever the old list was.
pub proof fn lemma_mru_insert(rs: Seq<Seq<char>>, p: Seq<char>)
    ensures
        1 <= mru_insert(rs, p).len() <= MAX_RECENT_DIRS,
        mru_insert(rs, p)[0] == p,
        forall|i: int| 1 <= i < mru_insert(rs, p).len() ==> mru_insert(rs, p)[i] != p,
        forall|x: Seq<char>| #[trigger] mru_insert(rs, p).contains(x) ==> x == p || rs.contains(x),
        distinct_paths(rs) ==> distinct_paths(mru_insert(rs, p)),
{
    let cap = (MAX_RECENT_DIRS - 1) as nat;
    lemma_keep_others_len(rs, p, cap);
    lemma_keep_others_membership(rs, p, cap);
    let tail = keep_others(rs, p, cap);
    let whole = mru_insert(rs, p);
    assert forall|i: int| 1 <= i < whole.len() implies whole[i] != p by {
        assert(tail.contains(tail[i - 1]));
    }
    assert forall|x: Seq<char>| #[trigger] whole.contains(x) implies x == p || rs.contains(x) by {
        let j = choose|j: int| 0 <= j < whole.len() && whole[j] == x;
        if j > 0 {
            assert(tail.contains(tail[j - 1]));
        }
    }
    if distinct_paths(rs) {
        lemma_keep_others_distinct(rs, p, cap);
        assert forall|i: int, j: int| 0 <= i < j < whole.len() implies whole[i] != whole[j] by {
            if i == 0 {
                assert(tail.contains(tail[j - 1]));
            } else {
                assert(tail[i - 1] != tail[j - 1]);
            }
        }
    }
}

/// Collect from `rs[i..]` the paths that differ from `p`, keeping at
/// most `cap` of them.
pub(crate) fn collect_others(rs: &Vec<String>, i: usize, p: &String, cap: usize) -> (r: Vec<String>)
    requires
        i <= rs@.len(),
    ensures
        path_views(r@) == keep_others(path_views(rs@).skip(i as int), p@, cap as nat),
    decreases rs@.len() - i@,
{
    let ghost tail_model = path_views(rs@).skip(i as int);
    if i == rs.len() || cap == 0 {
        let r: Vec<String> = Vec::new();
        proof {
            assert(path_views(r@) =~= keep_others(tail_model, p@, cap as nat));
        }
        r
    } else {
        proof {
            assert(tail_model[0] == rs@[i as int]@);
            assert(tail_model.drop_first() =~= path_views(rs@).skip(i as int + 1));
        }
        if rs[i].eq(p) {
            collect_others(rs, i + 1, p, cap)
        } else {
            let mut r = collect_others(rs, i + 1, p, cap - 1);
            r.insert(0, rs[i].clone());
            proof {
                assert(path_views(r@) =~= keep_others(tail_model, p@, cap as nat));
            }
            r
        }
    }
}

} // verus!
