//! The parameters of the call that lists transfers, and the query that they
//! make.

use crate::ids::TransferId;
use crate::query::{
    decimal, format_i64, format_u64, lemma_decimal_unescaped, pairs_view, rendered, signed_decimal,
    QueryPair,
};
use vstd::prelude::*;
use vstd::string::*;

verus! {

/// Bounds on a timestamp; each is optional.
#[derive(Clone, Copy, Debug)]
pub struct RangeBounds {
    pub gt: Option<i64>,
    pub gte: Option<i64>,
    pub lt: Option<i64>,
    pub lte: Option<i64>,
}

/// A filter on a timestamp: one exact value, or bounds.
#[derive(Clone, Copy, Debug)]
pub enum RangeQuery {
    Exact(i64),
    Bounds(RangeBounds),
}

/// The parameters of `Transfer::list`.
#[derive(Debug)]
pub struct TransferListParams<'a> {
    /// Keeps the transfers created in this range.
    pub created: Option<RangeQuery>,
    /// A cursor for use in pagination: the page that ends before this
    /// transfer.
    pub ending_before: Option<&'a TransferId>,
    /// Which fields of the response are expanded.
    pub expand: &'a [&'a str],
    /// A limit on the number of transfers returned. The service takes 1
    /// to 100 and defaults to 10; nothing is checked here.
    pub limit: Option<u64>,
    /// A cursor for use in pagination: the page that starts after this
    /// transfer.
    pub starting_after: Option<&'a TransferId>,
}

/// No pair where the value is absent, one pair where it is present.
pub open spec fn optional_pair(key: Seq<char>, value: Option<Seq<char>>) -> Seq<
    (Seq<char>, Seq<char>),
> {
    match value {
        Some(v) => seq![(key, v)],
        None => Seq::empty(),
    }
}

/// An optional timestamp in decimal.
pub open spec fn optional_decimal(t: Option<i64>) -> Option<Seq<char>> {
    match t {
        Some(t) => Some(signed_decimal(t as int)),
        None => None,
    }
}

/// The pairs of a filter on the creation time: `created` for an exact value,
/// `created[gt]`, `created[gte]`, `created[lt]` and `created[lte]` for the
/// bounds that are set.
pub open spec fn created_pairs(created: Option<RangeQuery>) -> Seq<(Seq<char>, Seq<char>)> {
    match created {
        None => Seq::empty(),
        Some(RangeQuery::Exact(t)) => seq![("created"@, signed_decimal(t as int))],
        Some(RangeQuery::Bounds(b)) => optional_pair("created[gt]"@, optional_decimal(b.gt))
            + optional_pair("created[gte]"@, optional_decimal(b.gte)) + optional_pair(
            "created[lt]"@,
            optional_decimal(b.lt),
        ) + optional_pair("created[lte]"@, optional_decimal(b.lte)),
    }
}

/// One `expand[]` pair for each field to expand, in order.
pub open spec fn expand_pairs(fields: Seq<Seq<char>>) -> Seq<(Seq<char>, Seq<char>)> {
    Seq::new(fields.len(), |i: int| ("expand[]"@, fields[i]))
}

/// Adds a pair at the end.
fn push_pair(out: &mut Vec<QueryPair>, key: &str, value: String)
    ensures
        pairs_view(final(out)@) == pairs_view(old(out)@).push((key@, value@)),
{
    out.push(QueryPair { key: key.to_owned(), value });
    assert(pairs_view(out@) =~= pairs_view(old(out)@).push((key@, value@)));
}

/// Adds the pair of a bound, where the bound is set.
fn push_timestamp(out: &mut Vec<QueryPair>, key: &str, t: Option<i64>)
    ensures
        pairs_view(final(out)@) == pairs_view(old(out)@) + optional_pair(key@, optional_decimal(t)),
{
    match t {
        Some(t) => {
            push_pair(out, key, format_i64(t));
        },
        None => {},
    }
    assert(pairs_view(out@) =~= pairs_view(old(out)@) + optional_pair(key@, optional_decimal(t)));
}

/// Adds the pair of a cursor, where the cursor is set.
fn push_cursor(out: &mut Vec<QueryPair>, key: &str, id: Option<&TransferId>)
    ensures
        pairs_view(final(out)@) == pairs_view(old(out)@) + optional_pair(
            key@,
            TransferListParams::cursor_view(id),
        ),
{
    match id {
        Some(id) => {
            push_pair(out, key, id.as_str().to_owned());
        },
        None => {},
    }
    assert(pairs_view(out@) =~= pairs_view(old(out)@) + optional_pair(
        key@,
        TransferListParams::cursor_view(id),
    ));
}

impl<'a> TransferListParams<'a> {
    /// The fields to expand, as texts.
    pub open spec fn expand_view(&self) -> Seq<Seq<char>> {
        Seq::new(self.expand@.len(), |i: int| self.expand@[i]@)
    }

    /// The text of a cursor that is set.
    pub open spec fn cursor_view(id: Option<&TransferId>) -> Option<Seq<char>> {
        match id {
            Some(id) => Some(id@),
            None => None,
        }
    }

    /// The limit in decimal, where it is set.
    pub open spec fn limit_view(&self) -> Option<Seq<char>> {
        match self.limit {
            Some(n) => Some(decimal(n as nat)),
            None => None,
        }
    }

    /// The pairs of the query, in the order of the fields: only the fields
    /// that are set, each with its value.
    pub open spec fn spec_pairs(&self) -> Seq<(Seq<char>, Seq<char>)> {
        created_pairs(self.created) + optional_pair(
            "ending_before"@,
            Self::cursor_view(self.ending_before),
        ) + expand_pairs(self.expand_view()) + optional_pair("limit"@, self.limit_view())
            + optional_pair("starting_after"@, Self::cursor_view(self.starting_after))
    }

    /// The pairs of the query that these parameters make.
    pub fn query_pairs(&self) -> (pairs: Vec<QueryPair>)
        ensures
            pairs_view(pairs@) == self.spec_pairs(),
    {
        let mut pairs: Vec<QueryPair> = Vec::new();
        assert(pairs_view(pairs@) =~= Seq::empty());
        match self.created {
            None => {},
            Some(RangeQuery::Exact(t)) => {
                push_pair(&mut pairs, "created", format_i64(t));
            },
            Some(RangeQuery::Bounds(b)) => {
                push_timestamp(&mut pairs, "created[gt]", b.gt);
                push_timestamp(&mut pairs, "created[gte]", b.gte);
                push_timestamp(&mut pairs, "created[lt]", b.lt);
                push_timestamp(&mut pairs, "created[lte]", b.lte);
            },
        }
        assert(pairs_view(pairs@) =~= created_pairs(self.created));
        push_cursor(&mut pairs, "ending_before", self.ending_before);
        let ghost head = pairs_view(pairs@);
        let mut i: usize = 0;
        while i < self.expand.len()
            invariant
                i <= self.expand@.len(),
                pairs_view(pairs@) == head + expand_pairs(self.expand_view().take(i as int)),
            decreases self.expand@.len() - i,
        {
            push_pair(&mut pairs, "expand[]", self.expand[i].to_owned());
            i += 1;
            assert(pairs_view(pairs@) =~= head + expand_pairs(self.expand_view().take(i as int)));
        }
        assert(self.expand_view().take(i as int) == self.expand_view());
        match self.limit {
            Some(n) => {
                push_pair(&mut pairs, "limit", format_u64(n));
            },
            None => {},
        }
        assert(pairs_view(pairs@) =~= head + expand_pairs(self.expand_view()) + optional_pair(
            "limit"@,
            self.limit_view(),
        ));
        push_cursor(&mut pairs, "starting_after", self.starting_after);
        pairs
    }
}

impl<'a> Clone for TransferListParams<'a> {
    fn clone(&self) -> (copy: Self)
        ensures
            copy == *self,
    {
        TransferListParams {
            created: self.created,
            ending_before: self.ending_before,
            expand: self.expand,
            limit: self.limit,
            starting_after: self.starting_after,
        }
    }
}

impl<'a> Default for TransferListParams<'a> {
    /// The parameters with nothing set.
    fn default() -> (params: Self)
        ensures
            params.created is None,
            params.ending_before is None,
            params.expand@.len() == 0,
            params.limit is None,
            params.starting_after is None,
    {
        TransferListParams {
            created: None,
            ending_before: None,
            expand: &[],
            limit: None,
            starting_after: None,
        }
    }
}

/// The values that stand under `key` in a sequence of pairs, in order.
pub open spec fn values_at(pairs: Seq<(Seq<char>, Seq<char>)>, key: Seq<char>) -> Seq<Seq<char>>
    decreases pairs.len(),
{
    if pairs.len() == 0 {
        Seq::empty()
    } else if pairs.last().0 == key {
        values_at(pairs.drop_last(), key).push(pairs.last().1)
    } else {
        values_at(pairs.drop_last(), key)
    }
}

/// No value where the option is empty, its one value where it is not.
pub open spec fn optional_seq(value: Option<Seq<char>>) -> Seq<Seq<char>> {
    match value {
        Some(v) => seq![v],
        None => Seq::empty(),
    }
}

/// The bounds of a filter, where it is made of bounds.
pub open spec fn bounds_of(created: Option<RangeQuery>) -> Option<RangeBounds> {
    match created {
        Some(RangeQuery::Bounds(b)) => Some(b),
        _ => None,
    }
}

/// The values under a key of two sequences of pairs joined are those of the
/// first followed by those of the second.
pub proof fn lemma_values_at_concat(
    a: Seq<(Seq<char>, Seq<char>)>,
    b: Seq<(Seq<char>, Seq<char>)>,
    key: Seq<char>,
)
    ensures
        values_at(a + b, key) == values_at(a, key) + values_at(b, key),
    decreases b.len(),
{
    if b.len() == 0 {
        assert(a + b =~= a);
        assert(values_at(a, key) + values_at(b, key) =~= values_at(a, key));
    } else {
        lemma_values_at_concat(a, b.drop_last(), key);
        assert((a + b).drop_last() =~= a + b.drop_last());
        assert((a + b).last() == b.last());
        assert(values_at(a + b, key) =~= values_at(a, key) + values_at(b, key));
    }
}

/// An optional pair holds its value under its own key and nothing under
/// any other.
pub proof fn lemma_values_at_optional(key: Seq<char>, value: Option<Seq<char>>, at: Seq<char>)
    ensures
        values_at(optional_pair(key, value), at) == if key == at {
            optional_seq(value)
        } else {
            Seq::empty()
        },
{
    let pairs = optional_pair(key, value);
    if value is Some {
        assert(pairs.drop_last() =~= Seq::empty());
        assert(values_at(pairs.drop_last(), at) =~= Seq::empty());
        assert(values_at(pairs, at) =~= if key == at {
            optional_seq(value)
        } else {
            Seq::empty()
        });
    }
}

/// The `expand[]` pairs hold the fields under `expand[]`, in order, and
/// nothing under any other key.
pub proof fn lemma_values_at_expand(fields: Seq<Seq<char>>, at: Seq<char>)
    ensures
        values_at(expand_pairs(fields), at) == if at == "expand[]"@ {
            fields
        } else {
            Seq::empty()
        },
    decreases fields.len(),
{
    if fields.len() > 0 {
        lemma_values_at_expand(fields.drop_last(), at);
        assert(expand_pairs(fields).drop_last() =~= expand_pairs(fields.drop_last()));
        assert(values_at(expand_pairs(fields), at) =~= if at == "expand[]"@ {
            fields
        } else {
            Seq::empty()
        });
    }
}

/// The keys of a query differ from one another.
pub proof fn lemma_keys_differ()
    ensures
        "created"@.len() == 7,
        "created[gt]"@.len() == 11,
        "created[gte]"@.len() == 12,
        "created[lt]"@.len() == 11,
        "created[lte]"@.len() == 12,
        "ending_before"@.len() == 13,
        "expand[]"@.len() == 8,
        "limit"@.len() == 5,
        "starting_after"@.len() == 14,
        "created[gt]"@ != "created[lt]"@,
        "created[gte]"@ != "created[lte]"@,
{
    reveal_strlit("created");
    reveal_strlit("created[gt]");
    reveal_strlit("created[gte]");
    reveal_strlit("created[lt]");
    reveal_strlit("created[lte]");
    reveal_strlit("ending_before");
    reveal_strlit("expand[]");
    reveal_strlit("limit");
    reveal_strlit("starting_after");
    assert("created[gt]"@[8] == 'g');
    assert("created[lt]"@[8] == 'l');
    assert("created[gte]"@[8] == 'g');
    assert("created[lte]"@[8] == 'l');
}

/// The values under `at` in a filter's pairs.
proof fn lemma_values_at_created(created: Option<RangeQuery>, at: Seq<char>)
    ensures
        values_at(created_pairs(created), at) == match created {
            None => Seq::empty(),
            Some(RangeQuery::Exact(t)) => if at == "created"@ {
                seq![signed_decimal(t as int)]
            } else {
                Seq::empty()
            },
            Some(RangeQuery::Bounds(b)) => values_at(
                optional_pair("created[gt]"@, optional_decimal(b.gt)),
                at,
            ) + values_at(optional_pair("created[gte]"@, optional_decimal(b.gte)), at) + values_at(
                optional_pair("created[lt]"@, optional_decimal(b.lt)),
                at,
            ) + values_at(optional_pair("created[lte]"@, optional_decimal(b.lte)), at),
        },
{
    match created {
        None => {},
        Some(RangeQuery::Exact(t)) => {
            lemma_values_at_optional("created"@, Some(signed_decimal(t as int)), at);
        },
        Some(RangeQuery::Bounds(b)) => {
            let above = optional_pair("created[gt]"@, optional_decimal(b.gt));
            let from = optional_pair("created[gte]"@, optional_decimal(b.gte));
            let below = optional_pair("created[lt]"@, optional_decimal(b.lt));
            let upto = optional_pair("created[lte]"@, optional_decimal(b.lte));
            lemma_values_at_concat(above, from, at);
            lemma_values_at_concat(above + from, below, at);
            lemma_values_at_concat(above + from + below, upto, at);
        },
    }
}

/// Under the key of a field, the query holds the field's value where the
/// field is set, as it is, and nothing where it is not: no pair stands for
/// a field left empty, and each field that is set stands with its exact
/// value.
pub proof fn lemma_query_holds_set_fields(params: TransferListParams<'_>)
    ensures
        values_at(params.spec_pairs(), "created"@) == match params.created {
            Some(RangeQuery::Exact(t)) => seq![signed_decimal(t as int)],
            _ => Seq::empty(),
        },
        values_at(params.spec_pairs(), "created[gt]"@) == match bounds_of(params.created) {
            Some(b) => optional_seq(optional_decimal(b.gt)),
            None => Seq::empty(),
        },
        values_at(params.spec_pairs(), "created[gte]"@) == match bounds_of(params.created) {
            Some(b) => optional_seq(optional_decimal(b.gte)),
            None => Seq::empty(),
        },
        values_at(params.spec_pairs(), "created[lt]"@) == match bounds_of(params.created) {
            Some(b) => optional_seq(optional_decimal(b.lt)),
            None => Seq::empty(),
        },
        values_at(params.spec_pairs(), "created[lte]"@) == match bounds_of(params.created) {
            Some(b) => optional_seq(optional_decimal(b.lte)),
            None => Seq::empty(),
        },
        values_at(params.spec_pairs(), "ending_before"@) == optional_seq(
            TransferListParams::cursor_view(params.ending_before),
        ),
        values_at(params.spec_pairs(), "expand[]"@) == params.expand_view(),
        values_at(params.spec_pairs(), "limit"@) == optional_seq(params.limit_view()),
        values_at(params.spec_pairs(), "starting_after"@) == optional_seq(
            TransferListParams::cursor_view(params.starting_after),
        ),
{
    lemma_keys_differ();
    lemma_values_under("created"@, params);
    lemma_values_under("created[gt]"@, params);
    lemma_values_under("created[gte]"@, params);
    lemma_values_under("created[lt]"@, params);
    lemma_values_under("created[lte]"@, params);
    lemma_values_under("ending_before"@, params);
    lemma_values_under("expand[]"@, params);
    lemma_values_under("limit"@, params);
    lemma_values_under("starting_after"@, params);
    assert(values_at(params.spec_pairs(), "expand[]"@) =~= params.expand_view());
    assert(values_at(params.spec_pairs(), "created"@) =~= match params.created {
        Some(RangeQuery::Exact(t)) => seq![signed_decimal(t as int)],
        _ => Seq::empty(),
    });
    assert(values_at(params.spec_pairs(), "created[gt]"@) =~= match bounds_of(params.created) {
        Some(b) => optional_seq(optional_decimal(b.gt)),
        None => Seq::empty(),
    });
    assert(values_at(params.spec_pairs(), "created[gte]"@) =~= match bounds_of(params.created) {
        Some(b) => optional_seq(optional_decimal(b.gte)),
        None => Seq::empty(),
    });
    assert(values_at(params.spec_pairs(), "created[lt]"@) =~= match bounds_of(params.created) {
        Some(b) => optional_seq(optional_decimal(b.lt)),
        None => Seq::empty(),
    });
    assert(values_at(params.spec_pairs(), "created[lte]"@) =~= match bounds_of(params.created) {
        Some(b) => optional_seq(optional_decimal(b.lte)),
        None => Seq::empty(),
    });
    assert(values_at(params.spec_pairs(), "ending_before"@) =~= optional_seq(
        TransferListParams::cursor_view(params.ending_before),
    ));
    assert(values_at(params.spec_pairs(), "limit"@) =~= optional_seq(params.limit_view()));
    assert(values_at(params.spec_pairs(), "starting_after"@) =~= optional_seq(
        TransferListParams::cursor_view(params.starting_after),
    ));
}

/// What each part of a query holds under `at`.
proof fn lemma_values_under(at: Seq<char>, params: TransferListParams<'_>)
    ensures
        values_at(params.spec_pairs(), at) == values_at(created_pairs(params.created), at)
            + values_at(
            optional_pair(
                "ending_before"@,
                TransferListParams::cursor_view(params.ending_before),
            ),
            at,
        ) + values_at(expand_pairs(params.expand_view()), at) + values_at(
            optional_pair("limit"@, params.limit_view()),
            at,
        ) + values_at(
            optional_pair(
                "starting_after"@,
                TransferListParams::cursor_view(params.starting_after),
            ),
            at,
        ),
        values_at(created_pairs(params.created), at) == match params.created {
            None => Seq::empty(),
            Some(RangeQuery::Exact(t)) => if at == "created"@ {
                seq![signed_decimal(t as int)]
            } else {
                Seq::empty()
            },
            Some(RangeQuery::Bounds(b)) => (if at == "created[gt]"@ {
                optional_seq(optional_decimal(b.gt))
            } else {
                Seq::empty()
            }) + (if at == "created[gte]"@ {
                optional_seq(optional_decimal(b.gte))
            } else {
                Seq::empty()
            }) + (if at == "created[lt]"@ {
                optional_seq(optional_decimal(b.lt))
            } else {
                Seq::empty()
            }) + (if at == "created[lte]"@ {
                optional_seq(optional_decimal(b.lte))
            } else {
                Seq::empty()
            }),
        },
        values_at(
            optional_pair(
                "ending_before"@,
                TransferListParams::cursor_view(params.ending_before),
            ),
            at,
        ) == if at == "ending_before"@ {
            optional_seq(TransferListParams::cursor_view(params.ending_before))
        } else {
            Seq::empty()
        },
        values_at(expand_pairs(params.expand_view()), at) == if at == "expand[]"@ {
            params.expand_view()
        } else {
            Seq::empty()
        },
        values_at(optional_pair("limit"@, params.limit_view()), at) == if at == "limit"@ {
            optional_seq(params.limit_view())
        } else {
            Seq::empty()
        },
        values_at(
            optional_pair(
                "starting_after"@,
                TransferListParams::cursor_view(params.starting_after),
            ),
            at,
        ) == if at == "starting_after"@ {
            optional_seq(TransferListParams::cursor_view(params.starting_after))
        } else {
            Seq::empty()
        },
{
    let created = created_pairs(params.created);
    let before = optional_pair(
        "ending_before"@,
        TransferListParams::cursor_view(params.ending_before),
    );
    let expand = expand_pairs(params.expand_view());
    let limit = optional_pair("limit"@, params.limit_view());
    let after = optional_pair(
        "starting_after"@,
        TransferListParams::cursor_view(params.starting_after),
    );
    lemma_values_at_concat(created, before, at);
    lemma_values_at_concat(created + before, expand, at);
    lemma_values_at_concat(created + before + expand, limit, at);
    lemma_values_at_concat(created + before + expand + limit, after, at);
    lemma_values_at_created(params.created, at);
    match params.created {
        Some(RangeQuery::Bounds(b)) => {
            lemma_values_at_optional("created[gt]"@, optional_decimal(b.gt), at);
            lemma_values_at_optional("created[gte]"@, optional_decimal(b.gte), at);
            lemma_values_at_optional("created[lt]"@, optional_decimal(b.lt), at);
            lemma_values_at_optional("created[lte]"@, optional_decimal(b.lte), at);
        },
        _ => {},
    }
    lemma_values_at_optional(
        "ending_before"@,
        TransferListParams::cursor_view(params.ending_before),
        at,
    );
    lemma_values_at_expand(params.expand_view(), at);
    lemma_values_at_optional("limit"@, params.limit_view(), at);
    lemma_values_at_optional(
        "starting_after"@,
        TransferListParams::cursor_view(params.starting_after),
        at,
    );
}

/// With no field set the query has no pair, and the query string is empty.
pub proof fn lemma_nothing_set_nothing_sent(params: TransferListParams<'_>)
    requires
        params.created is None,
        params.ending_before is None,
        params.expand@.len() == 0,
        params.limit is None,
        params.starting_after is None,
    ensures
        params.spec_pairs() == Seq::<(Seq<char>, Seq<char>)>::empty(),
        rendered(params.spec_pairs()) == Seq::<char>::empty(),
{
    assert(params.expand_view() =~= Seq::empty());
    assert(params.spec_pairs() =~= Seq::empty());
}

/// With the limit alone set, the query string is `limit=` and the limit in
/// decimal, and nothing else.
pub proof fn lemma_limit_alone(params: TransferListParams<'_>, n: u64)
    requires
        params.created is None,
        params.ending_before is None,
        params.expand@.len() == 0,
        params.limit == Some(n),
        params.starting_after is None,
    ensures
        rendered(params.spec_pairs()) == "limit"@ + seq!['='] + decimal(n as nat),
{
    let only = seq![("limit"@, decimal(n as nat))];
    assert(params.expand_view() =~= Seq::empty());
    assert(params.spec_pairs() =~= only);
    lemma_decimal_unescaped(n as nat);
    assert(only.drop_last() =~= Seq::empty());
    assert(rendered(only.drop_last()) =~= Seq::empty());
    assert(rendered(only) =~= "limit"@ + seq!['='] + decimal(n as nat));
}

} // verus!
