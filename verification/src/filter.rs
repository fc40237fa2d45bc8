//! The composable predicate structure a query carries: single conditions
//! and boolean combinations, rendered to a SQL boolean expression whose
//! exact text the contracts pin down.

use vstd::prelude::*;
use crate::sqltext::{join_sep, push_joined, str_views};

verus! {

/// The closed set of comparison operators a condition can carry. The
/// operand text is rendered verbatim: the caller supplies it already in
/// SQL literal form.
#[derive(Clone, Debug)]
pub enum FilterOperator {
    Equals(String),
    NotEquals(String),
    Gt(String),
    Lt(String),
    Gte(String),
    Lte(String),
    Like(String),
    In(Vec<String>),
    IsNull,
    IsNotNull,
}

/// One leaf predicate: a column compared through one operator.
#[derive(Clone, Debug)]
pub struct FilterCondition {
    pub column: String,
    pub operator: FilterOperator,
}

/// A link in a filter chain. The first link of a chain stands alone;
/// every later link is attached with the boolean connector its variant
/// names (`BASE` attaches with `AND`).
#[allow(non_camel_case_types)]
#[derive(Clone, Debug)]
pub enum Filter {
    BASE(FilterCondition),
    AND(FilterCondition),
    OR(FilterCondition),
}

/// The text of an operator together with its operand.
pub open spec fn op_sql(op: FilterOperator) -> Seq<char> {
    match op {
        FilterOperator::Equals(v) => " = "@ + v@,
        FilterOperator::NotEquals(v) => " <> "@ + v@,
        FilterOperator::Gt(v) => " > "@ + v@,
        FilterOperator::Lt(v) => " < "@ + v@,
        FilterOperator::Gte(v) => " >= "@ + v@,
        FilterOperator::Lte(v) => " <= "@ + v@,
        FilterOperator::Like(v) => " LIKE "@ + v@,
        FilterOperator::In(vs) => " IN ("@ + join_sep(str_views(vs@), ", "@) + ")"@,
        FilterOperator::IsNull => " IS NULL"@,
        FilterOperator::IsNotNull => " IS NOT NULL"@,
    }
}

/// The text of one leaf condition.
pub open spec fn cond_sql(c: FilterCondition) -> Seq<char> {
    c.column@ + op_sql(c.operator)
}

/// The text one link contributes, with its connector unless it is the
/// first link of the chain.
pub open spec fn filter_sql(f: Filter, first: bool) -> Seq<char> {
    match f {
        Filter::BASE(c) => if first {
            cond_sql(c)
        } else {
            " AND "@ + cond_sql(c)
        },
        Filter::AND(c) => if first {
            cond_sql(c)
        } else {
            " AND "@ + cond_sql(c)
        },
        Filter::OR(c) => if first {
            cond_sql(c)
        } else {
            " OR "@ + cond_sql(c)
        },
    }
}

/// The boolean SQL text of a whole chain; an empty chain renders to the
/// empty no-op text.
pub open spec fn chain_sql(fs: Seq<Filter>) -> Seq<char>
    decreases fs.len(),
{
    if fs.len() == 0 {
        Seq::empty()
    } else {
        chain_sql(fs.drop_last()) + filter_sql(fs.last(), fs.len() == 1)
    }
}

/// A composable predicate: empty, a single condition, or a boolean
/// combination of conditions.
#[derive(Clone, Debug)]
pub struct FilterChain {
    pub filters: Vec<Filter>,
}

impl FilterChain {
    /// The SQL text this chain renders to.
    pub open spec fn sql(self) -> Seq<char> {
        chain_sql(self.filters@)
    }

    /// A chain with no links.
    pub fn new() -> (c: FilterChain)
        ensures
            c.filters@ == Seq::<Filter>::empty(),
    {
        FilterChain { filters: Vec::new() }
    }

    /// A chain with no links; renders to the no-op text.
    pub fn empty() -> (c: FilterChain)
        ensures
            c.filters@ == Seq::<Filter>::empty(),
    {
        FilterChain::new()
    }

    /// A chain holding exactly the given links, in order.
    pub fn prefill(filters: Vec<Filter>) -> (c: FilterChain)
        ensures
            c.filters@ == filters@,
    {
        FilterChain { filters }
    }

    /// Appends one link to the chain.
    pub fn add_one(&mut self, f: Filter)
        ensures
            final(self).filters@ == old(self).filters@.push(f),
    {
        self.filters.push(f);
    }

    /// Whether the chain carries at least one condition.
    pub fn not_empty(&self) -> (b: bool)
        ensures
            b == (self.filters@.len() != 0),
    {
        self.filters.len() != 0
    }

    /// Appends the chain's SQL text to `out`.
    pub fn push_sql(&self, out: &mut String)
        ensures
            final(out)@ == old(out)@ + self.sql(),
    {
        let mut i: usize = 0;
        while i < self.filters.len()
            invariant
                0 <= i <= self.filters@.len(),
                out@ == old(out)@ + chain_sql(self.filters@.take(i as int)),
            decreases self.filters@.len() - i,
        {
            push_filter_sql(out, &self.filters[i], i == 0);
            proof {
                let fs = self.filters@;
                assert(fs.take(i + 1).drop_last() =~= fs.take(i as int));
                assert(fs.take(i + 1).last() == fs[i as int]);
                assert(out@ =~= old(out)@ + chain_sql(fs.take(i + 1)));
            }
            i = i + 1;
        }
        proof {
            assert(self.filters@.take(self.filters@.len() as int) =~= self.filters@);
        }
    }
}

/// Appends the text of one link.
fn push_filter_sql(out: &mut String, f: &Filter, first: bool)
    ensures
        final(out)@ == old(out)@ + filter_sql(*f, first),
{
    match f {
        Filter::BASE(c) => {
            if !first {
                out.append(" AND ");
            }
            push_cond_sql(out, c);
        },
        Filter::AND(c) => {
            if !first {
                out.append(" AND ");
            }
            push_cond_sql(out, c);
        },
        Filter::OR(c) => {
            if !first {
                out.append(" OR ");
            }
            push_cond_sql(out, c);
        },
    }
    proof {
        assert(out@ =~= old(out)@ + filter_sql(*f, first));
    }
}

/// Appends the text of one leaf condition.
fn push_cond_sql(out: &mut String, c: &FilterCondition)
    ensures
        final(out)@ == old(out)@ + cond_sql(*c),
{
    out.append(c.column.as_str());
    match &c.operator {
        FilterOperator::Equals(v) => {
            out.append(" = ");
            out.append(v.as_str());
        },
        FilterOperator::NotEquals(v) => {
            out.append(" <> ");
            out.append(v.as_str());
        },
        FilterOperator::Gt(v) => {
            out.append(" > ");
            out.append(v.as_str());
        },
        FilterOperator::Lt(v) => {
            out.append(" < ");
            out.append(v.as_str());
        },
        FilterOperator::Gte(v) => {
            out.append(" >= ");
            out.append(v.as_str());
        },
        FilterOperator::Lte(v) => {
            out.append(" <= ");
            out.append(v.as_str());
        },
        FilterOperator::Like(v) => {
            out.append(" LIKE ");
            out.append(v.as_str());
        },
        FilterOperator::In(vs) => {
            out.append(" IN (");
            push_joined(out, vs, ", ");
            out.append(")");
        },
        FilterOperator::IsNull => {
            out.append(" IS NULL");
        },
        FilterOperator::IsNotNull => {
            out.append(" IS NOT NULL");
        },
    }
    proof {
        assert(out@ =~= old(out)@ + cond_sql(*c));
    }
}

} // verus!
