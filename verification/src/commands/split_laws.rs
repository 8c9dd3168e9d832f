//! What every split of text across embeds keeps: Discord's limits.
use vstd::prelude::*;
use crate::commands::{
    chars_no_desc, embed_chars, embeds_of, opt_len, split_rest, split_result, split_start,
    SplitState, EmbedView, DESCRIPTION_LIMIT, EMBEDS_TOTAL_LIMIT,
};
use crate::text::{lemma_utf8_len_concat, utf8_len};

verus! {

/// The characters of all the embeds, counted as Discord counts them.
pub open spec fn embeds_total(es: Seq<EmbedView>) -> nat
    decreases es.len(),
{
    if es.len() == 0 {
        0
    } else {
        embeds_total(es.drop_last()) + embed_chars(es.last())
    }
}

/// The characters of embeds with descriptions `descs`, where the first embed
/// counts `c0` characters besides its description and each other one `ct`.
pub open spec fn descs_cost(descs: Seq<Seq<char>>, c0: nat, ct: nat) -> nat
    decreases descs.len(),
{
    if descs.len() == 0 {
        0
    } else {
        descs_cost(descs.drop_last(), c0, ct) + (if descs.len() == 1 {
            c0
        } else {
            ct
        }) + utf8_len(descs.last())
    }
}

proof fn lemma_embeds_total_of(f: EmbedView, t: EmbedView, descs: Seq<Seq<char>>)
    ensures
        embeds_total(embeds_of(f, t, descs)) == descs_cost(descs, chars_no_desc(f), chars_no_desc(t)),
    decreases descs.len(),
{
    if descs.len() > 0 {
        lemma_embeds_total_of(f, t, descs.drop_last());
        assert(embeds_of(f, t, descs).drop_last() =~= embeds_of(f, t, descs.drop_last()));
    }
}

/// What holds of every state the split passes through.
spec fn split_inv(st: SplitState, c0: nat, ct: nat) -> bool {
    &&& st.descs.len() >= 1
    &&& forall|j: int| 0 <= j < st.descs.len() ==> utf8_len(#[trigger] st.descs[j]) <= DESCRIPTION_LIMIT
    &&& st.total == descs_cost(st.descs, c0, ct)
    &&& st.total <= EMBEDS_TOTAL_LIMIT
}

proof fn lemma_split_rest_bounds(st: SplitState, parts: Seq<Seq<char>>, sep: Seq<char>, c0: nat, ct: nat)
    requires
        split_inv(st, c0, ct),
    ensures
        split_rest(st, parts, sep, ct) matches Some((d, _)) ==> {
            &&& forall|j: int| 0 <= j < d.len() ==> utf8_len(#[trigger] d[j]) <= DESCRIPTION_LIMIT
            &&& descs_cost(d, c0, ct) <= EMBEDS_TOTAL_LIMIT
        },
    decreases parts.len(),
{
    if parts.len() == 0 {
        return;
    }
    let part = parts[0];
    let index = st.index + 1;
    if utf8_len(part) > DESCRIPTION_LIMIT {
        return;
    }
    let sep_len: nat = if st.pending {
        utf8_len(sep)
    } else {
        0
    };
    let overflow = utf8_len(st.descs.last()) + sep_len + utf8_len(part) > DESCRIPTION_LIMIT;
    let descs = if overflow {
        st.descs.push(Seq::empty())
    } else {
        st.descs
    };
    let total: nat = if overflow {
        st.total + ct
    } else {
        st.total
    };
    let pending = !overflow && st.pending;
    let total2: nat = total + (if pending {
        utf8_len(sep)
    } else {
        0
    }) + utf8_len(part);
    assert(descs.len() >= 1);
    if overflow {
        assert(descs.drop_last() =~= st.descs);
        assert(utf8_len(Seq::<char>::empty()) == 0) by {
            vstd::utf8::encode_utf8_valid_utf8(Seq::<char>::empty());
        }
        assert(descs_cost(descs, c0, ct) == total);
    }
    assert(descs_cost(descs, c0, ct) == total);
    if total2 > EMBEDS_TOTAL_LIMIT {
        if descs.last().len() == 0 {
            let d = descs.drop_last();
            if overflow {
                assert(d =~= st.descs);
            } else {
                assert(descs_cost(d, c0, ct) <= descs_cost(descs, c0, ct));
            }
        } else {
            assert(!overflow);
        }
    } else {
        let last = if pending {
            descs.last() + sep + part
        } else {
            descs.last() + part
        };
        if pending {
            lemma_utf8_len_concat(descs.last(), sep);
            lemma_utf8_len_concat(descs.last() + sep, part);
        } else {
            lemma_utf8_len_concat(descs.last(), part);
        }
        if overflow {
            assert(utf8_len(descs.last()) == 0) by {
                assert(descs.last() =~= Seq::<char>::empty());
            }
        }
        let nd = descs.drop_last().push(last);
        assert(nd.drop_last() =~= descs.drop_last());
        assert(utf8_len(last) <= DESCRIPTION_LIMIT);
        let ns = SplitState { descs: nd, total: total2, pending: true, index };
        assert forall|j: int| 0 <= j < nd.len() implies utf8_len(#[trigger] nd[j]) <= DESCRIPTION_LIMIT by {
            if j < nd.len() - 1 {
                assert(nd[j] == descs[j]);
                if overflow {
                    assert(descs[j] == st.descs[j]);
                }
            }
        }
        assert(split_inv(ns, c0, ct));
        lemma_split_rest_bounds(ns, parts.drop_first(), sep, c0, ct);
    }
}

/// Splitting text across embeds keeps Discord's limits: no description holds
/// more than 4096 bytes, and the embeds hold at most 6000 characters together,
/// provided the first embed alone, its description left out, does not
/// already hold more.
pub proof fn law_split_keeps_limits(
    first: EmbedView,
    template: EmbedView,
    sep: Seq<char>,
    parts: Seq<Seq<char>>,
)
    requires
        chars_no_desc(first) <= EMBEDS_TOTAL_LIMIT,
    ensures
        split_result(first, template, sep, parts) matches Some((es, _)) ==> {
            &&& embeds_total(es) <= EMBEDS_TOTAL_LIMIT
            &&& forall|j: int| 0 <= j < es.len() ==> opt_len(#[trigger] es[j].description) <= DESCRIPTION_LIMIT
        },
{
    let c0 = chars_no_desc(first);
    let ct = chars_no_desc(template);
    let st = split_start(first);
    assert(utf8_len(Seq::<char>::empty()) == 0) by {
        vstd::utf8::encode_utf8_valid_utf8(Seq::<char>::empty());
    }
    assert(st.descs.drop_last() =~= Seq::<Seq<char>>::empty());
    assert(st.descs.last() == Seq::<char>::empty());
    assert(descs_cost(st.descs.drop_last(), c0, ct) == 0);
    assert(descs_cost(st.descs, c0, ct) == c0);
    assert(forall|j: int| 0 <= j < st.descs.len() ==> st.descs[j] == Seq::<char>::empty());
    assert(split_inv(st, c0, ct));
    lemma_split_rest_bounds(st, parts, sep, c0, ct);
    if let Some((d, _)) = split_rest(st, parts, sep, ct) {
        lemma_embeds_total_of(first, template, d);
        let es = embeds_of(first, template, d);
        assert forall|j: int| 0 <= j < es.len() implies opt_len(#[trigger] es[j].description) <= DESCRIPTION_LIMIT by {
            assert(es[j].description == Some(d[j]));
        }
    }
}

proof fn lemma_split_rest_index(st: SplitState, parts: Seq<Seq<char>>, sep: Seq<char>, ct: nat)
    ensures
        split_rest(st, parts, sep, ct) matches Some((_, i)) ==> i == 0 || st.index < i <= st.index + parts.len(),
    decreases parts.len(),
{
    if parts.len() > 0 {
        let index = st.index + 1;
        let sep_len: nat = if st.pending {
            utf8_len(sep)
        } else {
            0
        };
        let overflow = utf8_len(st.descs.last()) + sep_len + utf8_len(parts[0]) > DESCRIPTION_LIMIT;
        let descs = if overflow {
            st.descs.push(Seq::empty())
        } else {
            st.descs
        };
        let total: nat = if overflow {
            st.total + ct
        } else {
            st.total
        };
        let pending = !overflow && st.pending;
        let total2: nat = total + (if pending {
            utf8_len(sep)
        } else {
            0
        }) + utf8_len(parts[0]);
        let last = if pending {
            descs.last() + sep + parts[0]
        } else {
            descs.last() + parts[0]
        };
        lemma_split_rest_index(
            SplitState { descs: descs.drop_last().push(last), total: total2, pending: true, index },
            parts.drop_first(),
            sep,
            ct,
        );
    }
}

/// Where a split stops early, it has taken up at least one part and no
/// more than there are: the index it returns lies within the parts.
pub proof fn law_split_index_within(first: EmbedView, template: EmbedView, sep: Seq<char>, parts: Seq<Seq<char>>)
    ensures
        split_result(first, template, sep, parts) matches Some((_, i)) ==> i <= parts.len(),
{
    lemma_split_rest_index(split_start(first), parts, sep, chars_no_desc(template));
}

/// Every two neighbouring descriptions could not have been one: together
/// with a separator they pass the limit of a description.
pub open spec fn pairs_full(descs: Seq<Seq<char>>, sep: Seq<char>) -> bool {
    forall|j: int|
        0 <= j < descs.len() - 1 ==> utf8_len(#[trigger] descs[j]) + utf8_len(sep) + utf8_len(descs[j + 1])
            > DESCRIPTION_LIMIT
}

proof fn lemma_split_rest_pairs(st: SplitState, parts: Seq<Seq<char>>, sep: Seq<char>, ct: nat)
    requires
        st.descs.len() >= 1,
        pairs_full(st.descs, sep),
    ensures
        split_rest(st, parts, sep, ct) matches Some((d, _)) ==> pairs_full(d, sep),
    decreases parts.len(),
{
    if parts.len() == 0 {
        return;
    }
    let part = parts[0];
    let index = st.index + 1;
    if utf8_len(part) > DESCRIPTION_LIMIT {
        return;
    }
    let sep_len: nat = if st.pending {
        utf8_len(sep)
    } else {
        0
    };
    let overflow = utf8_len(st.descs.last()) + sep_len + utf8_len(part) > DESCRIPTION_LIMIT;
    let descs = if overflow {
        st.descs.push(Seq::empty())
    } else {
        st.descs
    };
    let total: nat = if overflow {
        st.total + ct
    } else {
        st.total
    };
    let pending = !overflow && st.pending;
    let total2: nat = total + (if pending {
        utf8_len(sep)
    } else {
        0
    }) + utf8_len(part);
    if total2 > EMBEDS_TOTAL_LIMIT {
        if descs.last().len() == 0 {
            let d = descs.drop_last();
            if overflow {
                assert(d =~= st.descs);
            } else {
                assert forall|j: int| 0 <= j < d.len() - 1 implies utf8_len(#[trigger] d[j]) + utf8_len(sep)
                    + utf8_len(d[j + 1]) > DESCRIPTION_LIMIT by {
                    assert(d[j] == st.descs[j] && d[j + 1] == st.descs[j + 1]);
                }
            }
        }
    } else {
        let last = if pending {
            descs.last() + sep + part
        } else {
            descs.last() + part
        };
        if pending {
            lemma_utf8_len_concat(descs.last(), sep);
            lemma_utf8_len_concat(descs.last() + sep, part);
        } else {
            lemma_utf8_len_concat(descs.last(), part);
        }
        let nd = descs.drop_last().push(last);
        assert(utf8_len(last) >= utf8_len(descs.last()));
        assert forall|j: int| 0 <= j < nd.len() - 1 implies utf8_len(#[trigger] nd[j]) + utf8_len(sep)
            + utf8_len(nd[j + 1]) > DESCRIPTION_LIMIT by {
            if overflow {
                assert(descs.last() =~= Seq::<char>::empty());
                assert(last =~= part);
                if j == nd.len() - 2 {
                    assert(nd[j] == st.descs.last());
                } else {
                    assert(nd[j] == st.descs[j] && nd[j + 1] == st.descs[j + 1]);
                }
            } else {
                assert(nd[j] == st.descs[j]);
                if j < nd.len() - 2 {
                    assert(nd[j + 1] == st.descs[j + 1]);
                }
            }
        }
        let ns = SplitState { descs: nd, total: total2, pending: true, index };
        lemma_split_rest_pairs(ns, parts.drop_first(), sep, ct);
    }
}

/// A split starts a new embed only where the next part does not fit in the
/// current description: any two neighbouring embeds' descriptions, with a
/// separator between them, would pass the limit of one description.
pub proof fn law_split_neighbours_are_full(first: EmbedView, template: EmbedView, sep: Seq<char>, parts: Seq<Seq<char>>)
    ensures
        split_result(first, template, sep, parts) matches Some((es, _)) ==> forall|j: int|
            0 <= j < es.len() - 1 ==> opt_len(#[trigger] es[j].description) + utf8_len(sep)
                + opt_len(es[j + 1].description) > DESCRIPTION_LIMIT,
{
    let st = split_start(first);
    lemma_split_rest_pairs(st, parts, sep, chars_no_desc(template));
    if let Some((d, _)) = split_rest(st, parts, sep, chars_no_desc(template)) {
        let es = embeds_of(first, template, d);
        assert forall|j: int| 0 <= j < es.len() - 1 implies opt_len(#[trigger] es[j].description) + utf8_len(sep)
            + opt_len(es[j + 1].description) > DESCRIPTION_LIMIT by {
            assert(es[j].description == Some(d[j]));
            assert(es[j + 1].description == Some(d[j + 1]));
        }
    }
}

/// The bytes of all the descriptions.
spec fn desc_sum(descs: Seq<Seq<char>>) -> nat
    decreases descs.len(),
{
    if descs.len() == 0 {
        0
    } else {
        desc_sum(descs.drop_last()) + utf8_len(descs.last())
    }
}

proof fn lemma_cost_covers_descs(descs: Seq<Seq<char>>, c0: nat, ct: nat)
    ensures
        descs_cost(descs, c0, ct) >= desc_sum(descs),
    decreases descs.len(),
{
    if descs.len() > 0 {
        lemma_cost_covers_descs(descs.drop_last(), c0, ct);
    }
}

proof fn lemma_desc_sum_prefix(descs: Seq<Seq<char>>, k: int)
    requires
        0 <= k <= descs.len(),
    ensures
        desc_sum(descs.take(k)) <= desc_sum(descs),
    decreases descs.len(),
{
    if k < descs.len() {
        lemma_desc_sum_prefix(descs.drop_last(), k);
        assert(descs.drop_last().take(k) =~= descs.take(k));
    } else {
        assert(descs.take(k) =~= descs);
    }
}

proof fn lemma_pairs_sum(descs: Seq<Seq<char>>, sep: Seq<char>, m: int)
    requires
        pairs_full(descs, sep),
        0 <= m,
        2 * m <= descs.len(),
        utf8_len(sep) <= DESCRIPTION_LIMIT,
    ensures
        desc_sum(descs.take(2 * m)) >= m * (DESCRIPTION_LIMIT + 1 - utf8_len(sep)),
    decreases m,
{
    let x: int = DESCRIPTION_LIMIT + 1 - utf8_len(sep);
    if m == 0 {
        assert(descs.take(0) =~= Seq::<Seq<char>>::empty());
    } else {
        lemma_pairs_sum(descs, sep, m - 1);
        let t = descs.take(2 * m);
        assert(t.drop_last() =~= descs.take(2 * m - 1));
        assert(t.drop_last().drop_last() =~= descs.take(2 * m - 2));
        assert(t.last() == descs[2 * m - 1]);
        assert(t.drop_last().last() == descs[2 * m - 2]);
        assert(desc_sum(t) == desc_sum(t.drop_last()) + utf8_len(t.last()));
        assert(desc_sum(t.drop_last()) == desc_sum(t.drop_last().drop_last()) + utf8_len(t.drop_last().last()));
        assert(2 * m - 2 == 2 * (m - 1));
        assert(utf8_len(descs[2 * m - 2]) + utf8_len(sep) + utf8_len(descs[2 * m - 1]) > DESCRIPTION_LIMIT);
        assert((m - 1) * x + x == m * x) by (nonlinear_arith);
    }
}

/// A split never needs more than the ten embeds a message may hold, where
/// the separator is shorter than 2897 bytes: two neighbouring descriptions
/// then hold more than 1200 bytes together, so eleven embeds would hold
/// more than the 6000 characters a message may.
pub proof fn law_split_at_most_ten_embeds(first: EmbedView, template: EmbedView, sep: Seq<char>, parts: Seq<Seq<char>>)
    requires
        chars_no_desc(first) <= EMBEDS_TOTAL_LIMIT,
        utf8_len(sep) < 2897,
    ensures
        split_result(first, template, sep, parts) matches Some((es, _)) ==> es.len() <= 10,
{
    let c0 = chars_no_desc(first);
    let ct = chars_no_desc(template);
    let st = split_start(first);
    law_split_keeps_limits(first, template, sep, parts);
    lemma_split_rest_pairs(st, parts, sep, ct);
    if let Some((d, _)) = split_rest(st, parts, sep, ct) {
        let es = embeds_of(first, template, d);
        if d.len() > 10 {
            lemma_embeds_total_of(first, template, d);
            lemma_cost_covers_descs(d, c0, ct);
            lemma_desc_sum_prefix(d, 10);
            lemma_pairs_sum(d, sep, 5);
            assert(embeds_total(es) == descs_cost(d, c0, ct));
            assert(false);
        }
    }
}

} // verus!
