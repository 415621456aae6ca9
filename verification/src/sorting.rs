//! Sorting globals by interface name.
//!
//! The sort is a stable insertion sort: a record moves left only past
//! records whose interface name is strictly greater, so records with equal
//! names keep their discovery order. The laws at the end pin this down:
//! the result is ordered, is a permutation of the input, and admits an
//! index mapping that preserves the input order on equal names.

use vstd::prelude::*;

use crate::app::GlobalInfo;
use crate::app::GlobalView;

verus! {

/// Strict lexicographic order on character sequences, by code point: a
/// proper prefix comes first, otherwise the first differing position
/// decides.
pub open spec fn lex_lt(a: Seq<char>, b: Seq<char>) -> bool
    decreases a.len(),
{
    if b.len() == 0 {
        false
    } else if a.len() == 0 {
        true
    } else if a[0] != b[0] {
        (a[0] as u32) < (b[0] as u32)
    } else {
        lex_lt(a.skip(1), b.skip(1))
    }
}

/// The non-strict companion of `lex_lt`.
pub open spec fn lex_le(a: Seq<char>, b: Seq<char>) -> bool {
    !lex_lt(b, a)
}

/// No sequence is strictly below itself.
pub proof fn lemma_lex_irreflexive(a: Seq<char>)
    ensures
        !lex_lt(a, a),
    decreases a.len(),
{
    if a.len() > 0 {
        lemma_lex_irreflexive(a.skip(1));
    }
}

/// Two sequences neither of which is below the other are equal.
pub proof fn lemma_lex_connected(a: Seq<char>, b: Seq<char>)
    requires
        !lex_lt(a, b),
        !lex_lt(b, a),
    ensures
        a == b,
    decreases a.len(),
{
    if a.len() == 0 || b.len() == 0 {
        assert(a =~= b);
    } else if a[0] == b[0] {
        lemma_lex_connected(a.skip(1), b.skip(1));
        assert(a.len() == b.len()) by {
            assert(a.skip(1).len() == b.skip(1).len());
        }
        assert forall|i: int| 1 <= i < a.len() implies a[i] == b[i] by {
            assert(a.skip(1)[i - 1] == b.skip(1)[i - 1]);
            assert(a.skip(1)[i - 1] == a[i]);
            assert(b.skip(1)[i - 1] == b[i]);
        }
        assert(a =~= b);
    } else {
        // The first characters differ, yet neither is below the other: no
        // such pair of code points exists, since the cast to u32 keeps
        // distinct characters distinct.
        vstd::utf8::char_u32_cast(a[0], a[0] as u32);
        vstd::utf8::char_u32_cast(b[0], b[0] as u32);
    }
}

/// Strict lexicographic order is transitive.
pub proof fn lemma_lex_transitive(a: Seq<char>, b: Seq<char>, c: Seq<char>)
    requires
        lex_lt(a, b),
        lex_lt(b, c),
    ensures
        lex_lt(a, c),
    decreases a.len(),
{
    if a.len() > 0 && b.len() > 0 && c.len() > 0 && a[0] == b[0] && b[0] == c[0] {
        lemma_lex_transitive(a.skip(1), b.skip(1), c.skip(1));
    }
}

/// Strict order on one side and non-strict on the other compose.
pub proof fn lemma_lex_lt_le(a: Seq<char>, b: Seq<char>, c: Seq<char>)
    requires
        lex_lt(a, b),
        lex_le(b, c),
    ensures
        lex_lt(a, c),
{
    if lex_lt(b, c) {
        lemma_lex_transitive(a, b, c);
    } else {
        lemma_lex_connected(b, c);
    }
}

/// The non-strict order is transitive.
pub proof fn lemma_lex_le_transitive(a: Seq<char>, b: Seq<char>, c: Seq<char>)
    requires
        lex_le(a, b),
        lex_le(b, c),
    ensures
        lex_le(a, c),
{
    if lex_lt(c, a) {
        lemma_lex_lt_le(c, a, b);
        lemma_lex_connected(b, c);
        lemma_lex_irreflexive(b);
    }
}

/// Compares two strings in the lexicographic order, character by
/// character.
pub fn str_lex_lt(a: &str, b: &str) -> (r: bool)
    ensures
        r == lex_lt(a@, b@),
    decreases a@.len(),
{
    let b_len = b.unicode_len();
    if b_len == 0 {
        false
    } else {
        let a_len = a.unicode_len();
        if a_len == 0 {
            true
        } else {
            let ca = a.get_char(0);
            let cb = b.get_char(0);
            if (ca as u32) != (cb as u32) {
                (ca as u32) < (cb as u32)
            } else {
                proof {
                    vstd::utf8::char_u32_cast(a@[0], a@[0] as u32);
                    vstd::utf8::char_u32_cast(b@[0], b@[0] as u32);
                }
                let ra = a.substring_char(1, a_len);
                let rb = b.substring_char(1, b_len);
                proof {
                    assert(ra@ =~= a@.skip(1));
                    assert(rb@ =~= b@.skip(1));
                }
                str_lex_lt(ra, rb)
            }
        }
    }
}

/// Compares two interface names.
pub fn interface_lt(a: &String, b: &String) -> (r: bool)
    ensures
        r == lex_lt(a@, b@),
{
    str_lex_lt(a.as_str(), b.as_str())
}

/// `g` inserted into `s` from the right: it moves left past every record
/// whose interface name is strictly greater, and no further.
pub open spec fn insert_sorted(s: Seq<GlobalView>, g: GlobalView) -> Seq<GlobalView>
    decreases s.len(),
{
    if s.len() > 0 && lex_lt(g.interface, s.last().interface) {
        insert_sorted(s.drop_last(), g).push(s.last())
    } else {
        s.push(g)
    }
}

/// The whole sort: records inserted one by one, in discovery order.
pub open spec fn sort_globals_spec(s: Seq<GlobalView>) -> Seq<GlobalView>
    decreases s.len(),
{
    if s.len() == 0 {
        Seq::empty()
    } else {
        insert_sorted(sort_globals_spec(s.drop_last()), s.last())
    }
}

/// Ordered by interface name, non-strictly.
pub open spec fn sorted_by_interface(s: Seq<GlobalView>) -> bool {
    forall|i: int, j: int| 0 <= i < j < s.len() ==> lex_le(
        #[trigger] s[i].interface,
        #[trigger] s[j].interface,
    )
}

/// Where the insertion lands: if position `k` is the first from the right
/// whose record is not strictly greater than `g`, the result is `s` with
/// `g` planted at `k`.
pub proof fn lemma_insert_sorted_at(s: Seq<GlobalView>, g: GlobalView, k: int)
    requires
        0 <= k <= s.len(),
        forall|j: int| k <= j < s.len() ==> lex_lt(g.interface, #[trigger] s[j].interface),
        k > 0 ==> !lex_lt(g.interface, s[k - 1].interface),
    ensures
        insert_sorted(s, g) == s.subrange(0, k) + seq![g] + s.subrange(k, s.len() as int),
    decreases s.len(),
{
    if k == s.len() {
        assert(insert_sorted(s, g) =~= s.subrange(0, k) + seq![g] + s.subrange(
            k,
            s.len() as int,
        ));
    } else {
        let dl = s.drop_last();
        assert(forall|j: int| k <= j < dl.len() ==> lex_lt(g.interface, #[trigger] dl[j].interface));
        lemma_insert_sorted_at(dl, g, k);
        assert(insert_sorted(s, g) =~= s.subrange(0, k) + seq![g] + s.subrange(k, s.len() as int));
    }
}

/// There is such a position for every insertion.
pub proof fn lemma_insert_position(s: Seq<GlobalView>, g: GlobalView) -> (k: int)
    ensures
        0 <= k <= s.len(),
        forall|j: int| k <= j < s.len() ==> lex_lt(g.interface, #[trigger] s[j].interface),
        k > 0 ==> !lex_lt(g.interface, s[k - 1].interface),
        insert_sorted(s, g) == s.subrange(0, k) + seq![g] + s.subrange(k, s.len() as int),
    decreases s.len(),
{
    if s.len() > 0 && lex_lt(g.interface, s.last().interface) {
        let k = lemma_insert_position(s.drop_last(), g);
        assert forall|j: int| k <= j < s.len() implies lex_lt(
            g.interface,
            #[trigger] s[j].interface,
        ) by {
            if j < s.len() - 1 {
                assert(s[j] == s.drop_last()[j]);
            }
        }
        lemma_insert_sorted_at(s, g, k);
        k
    } else {
        let k = s.len() as int;
        lemma_insert_sorted_at(s, g, k);
        k
    }
}

/// Insertion preserves order.
pub proof fn lemma_insert_preserves_sorted(s: Seq<GlobalView>, g: GlobalView)
    requires
        sorted_by_interface(s),
    ensures
        sorted_by_interface(insert_sorted(s, g)),
{
    let k = lemma_insert_position(s, g);
    let r = insert_sorted(s, g);
    assert forall|i: int, j: int| 0 <= i < j < r.len() implies lex_le(
        #[trigger] r[i].interface,
        #[trigger] r[j].interface,
    ) by {
        if i < k && j == k {
            // r[i] is s[i]; everything at or left of k - 1 is at most g.
            lemma_lex_irreflexive(s[i].interface);
            lemma_lex_le_transitive(s[i].interface, s[k - 1].interface, g.interface);
        } else if i == k && j > k {
            assert(lex_lt(g.interface, s[j - 1].interface));
            lemma_lex_irreflexive(g.interface);
            if lex_lt(s[j - 1].interface, g.interface) {
                lemma_lex_transitive(g.interface, s[j - 1].interface, g.interface);
            }
        } else if i < k && j > k {
            assert(lex_le(s[i].interface, s[j - 1].interface));
        }
    }
}

/// The sorted sequence is ordered by interface name.
pub proof fn lemma_sort_globals_sorted(s: Seq<GlobalView>)
    ensures
        sorted_by_interface(sort_globals_spec(s)),
    decreases s.len(),
{
    if s.len() > 0 {
        lemma_sort_globals_sorted(s.drop_last());
        lemma_insert_preserves_sorted(sort_globals_spec(s.drop_last()), s.last());
    }
}

/// Insertion adds exactly the new record.
pub proof fn lemma_insert_multiset(s: Seq<GlobalView>, g: GlobalView)
    ensures
        insert_sorted(s, g).to_multiset() == s.to_multiset().insert(g),
    decreases s.len(),
{
    broadcast use vstd::seq_lib::group_to_multiset_ensures;

    if s.len() > 0 && lex_lt(g.interface, s.last().interface) {
        lemma_insert_multiset(s.drop_last(), g);
        assert(s.drop_last().push(s.last()) =~= s);
        assert(insert_sorted(s, g).to_multiset() =~= s.to_multiset().insert(g)) by {
            assert(s.drop_last().to_multiset().insert(s.last()) == s.to_multiset());
        }
    }
}

/// The sorted sequence is a permutation of the input: same records, same
/// number of times.
pub proof fn lemma_sort_globals_permutes(s: Seq<GlobalView>)
    ensures
        sort_globals_spec(s).to_multiset() == s.to_multiset(),
    decreases s.len(),
{
    broadcast use vstd::seq_lib::group_to_multiset_ensures;

    if s.len() > 0 {
        lemma_sort_globals_permutes(s.drop_last());
        lemma_insert_multiset(sort_globals_spec(s.drop_last()), s.last());
        assert(s.drop_last().push(s.last()) =~= s);
    }
}

/// An index mapping witnessing that `output` is a stable reordering of
/// `input`: a bijection onto the input positions that ascends wherever two
/// output records share an interface name.
pub open spec fn is_stable_reordering(
    input: Seq<GlobalView>,
    output: Seq<GlobalView>,
    m: Seq<int>,
) -> bool {
    &&& m.len() == output.len()
    &&& output.len() == input.len()
    &&& forall|i: int| 0 <= i < m.len() ==> 0 <= #[trigger] m[i] < input.len()
    &&& forall|i: int| 0 <= i < m.len() ==> output[i] == input[#[trigger] m[i]]
    &&& forall|i: int, j: int| 0 <= i < j < m.len() ==> #[trigger] m[i] != #[trigger] m[j]
    &&& forall|i: int, j: int| 0 <= i < j < m.len() && (#[trigger] output[i]).interface == (
    #[trigger] output[j]).interface ==> m[i] < m[j]
}

/// The sort is stable: some index mapping of the kind above relates every
/// input to its sorted output, so equal interface names keep their
/// discovery order.
pub proof fn lemma_sort_globals_stable(s: Seq<GlobalView>) -> (m: Seq<int>)
    ensures
        is_stable_reordering(s, sort_globals_spec(s), m),
    decreases s.len(),
{
    if s.len() == 0 {
        Seq::empty()
    } else {
        let dl = s.drop_last();
        let g = s.last();
        let sorted_dl = sort_globals_spec(dl);
        let m0 = lemma_sort_globals_stable(dl);
        let k = lemma_insert_position(sorted_dl, g);
        let m = m0.subrange(0, k) + seq![dl.len() as int] + m0.subrange(k, m0.len() as int);
        let output = sort_globals_spec(s);
        assert(output == sorted_dl.subrange(0, k) + seq![g] + sorted_dl.subrange(
            k,
            sorted_dl.len() as int,
        ));
        assert forall|i: int| 0 <= i < m.len() implies 0 <= #[trigger] m[i] < s.len()
            && output[i] == s[m[i]] by {
            if i < k {
                assert(m[i] == m0[i] && output[i] == sorted_dl[i]);
                assert(s[m0[i]] == dl[m0[i]]);
            } else if i == k {
                assert(m[i] == dl.len() && output[i] == g);
            } else {
                assert(m[i] == m0[i - 1] && output[i] == sorted_dl[i - 1]);
                assert(s[m0[i - 1]] == dl[m0[i - 1]]);
            }
        }
        assert forall|i: int, j: int| 0 <= i < j < m.len() implies #[trigger] m[i]
            != #[trigger] m[j] by {
            if i == k || j == k {
                // The new record's index is the one position past every
                // index the old mapping uses.
            }
        }
        assert forall|i: int, j: int|
            0 <= i < j < m.len() && (#[trigger] output[i]).interface == (
            #[trigger] output[j]).interface implies m[i] < m[j] by {
            if i < k && j < k {
                assert(output[i] == sorted_dl[i] && output[j] == sorted_dl[j]);
            } else if i < k && j == k {
                // The inserted record's index is larger than every old one.
            } else if i == k && j > k {
                // Everything to the right of the insertion point is
                // strictly greater than the inserted record, so the names
                // cannot be equal.
                assert(lex_lt(g.interface, sorted_dl[j - 1].interface));
                lemma_lex_irreflexive(g.interface);
            } else if i < k && j > k {
                assert(output[i] == sorted_dl[i] && output[j] == sorted_dl[j - 1]);
            } else {
                assert(output[i] == sorted_dl[i - 1] && output[j] == sorted_dl[j - 1]);
            }
        }
        m
    }
}

/// Sorts globals by interface name, stably: records with equal names keep
/// their discovery order.
pub fn sort_globals(globals: &Vec<GlobalInfo>) -> (r: Vec<GlobalInfo>)
    ensures
        r.deep_view() == sort_globals_spec(globals.deep_view()),
{
    let ghost input = globals.deep_view();
    let mut r: Vec<GlobalInfo> = Vec::new();
    let mut i: usize = 0;
    while i < globals.len()
        invariant
            i <= globals@.len(),
            input == globals.deep_view(),
            input.len() == globals@.len(),
            r.deep_view() == sort_globals_spec(input.take(i as int)),
        decreases globals@.len() - i,
    {
        let g = GlobalInfo {
            name: globals[i].name,
            interface: globals[i].interface.clone(),
            version: globals[i].version,
        };
        let ghost before = r.deep_view();
        let mut k: usize = r.len();
        while k > 0 && interface_lt(&g.interface, &r[k - 1].interface)
            invariant
                k <= r@.len(),
                r.deep_view() == before,
                r.deep_view().len() == r@.len(),
                g@ == input[i as int],
                forall|j: int| k <= j < before.len() ==> lex_lt(
                    g@.interface,
                    (#[trigger] before[j]).interface,
                ),
            decreases k,
        {
            k = k - 1;
        }
        proof {
            lemma_insert_sorted_at(before, g@, k as int);
        }
        r.insert(k, g);
        proof {
            assert(r.deep_view() =~= before.subrange(0, k as int) + seq![input[i as int]]
                + before.subrange(k as int, before.len() as int));
            assert(input.take(i + 1).drop_last() =~= input.take(i as int));
            assert(r.deep_view() =~= sort_globals_spec(input.take(i + 1)));
        }
        i = i + 1;
    }
    proof {
        assert(input.take(input.len() as int) =~= input);
    }
    r
}

} // verus!
