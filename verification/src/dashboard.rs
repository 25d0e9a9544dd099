//! The monthly overview: income and expense totals, and the month's
//! transactions grouped by category in (name, type) order.

use vstd::prelude::*;

use crate::models::TransactionDetail;
use crate::templates::{CategoryGroup, DashboardTemplate};
use crate::text::{same_text, shows_money, lemma_money_text_reads_back, cents_text, cents_to_text, text_less, text_lt, lemma_text_lt_irreflexive, lemma_text_lt_transitive, lemma_text_lt_total};

verus! {

/// The category type that counts as income; every other type counts as expense.
pub open spec fn income_tag() -> Seq<char> {
    seq!['I', 'N', 'C', 'O', 'M', 'E']
}

pub open spec fn is_income(r: TransactionDetail) -> bool {
    r.c_type@ == income_tag()
}

/// Sum of the amounts of all transactions in `s`.
pub open spec fn amount_sum(s: Seq<TransactionDetail>) -> int
    decreases s.len(),
{
    if s.len() == 0 {
        0
    } else {
        amount_sum(s.drop_last()) + s.last().amount
    }
}

/// Sum of the amounts of the income transactions in `s`.
pub open spec fn income_total(s: Seq<TransactionDetail>) -> int
    decreases s.len(),
{
    if s.len() == 0 {
        0
    } else {
        income_total(s.drop_last()) + if is_income(s.last()) { s.last().amount as int } else { 0 }
    }
}

/// Sum of the amounts of the expense (non-income) transactions in `s`.
pub open spec fn expense_total(s: Seq<TransactionDetail>) -> int
    decreases s.len(),
{
    if s.len() == 0 {
        0
    } else {
        expense_total(s.drop_last()) + if is_income(s.last()) { 0 } else { s.last().amount as int }
    }
}

/// The grouping key of a transaction: its category's name and type.
pub open spec fn key_of(r: TransactionDetail) -> (Seq<char>, Seq<char>) {
    (r.category_name@, r.c_type@)
}

/// The order of grouping keys: by name, then by type.
pub open spec fn key_lt(a: (Seq<char>, Seq<char>), b: (Seq<char>, Seq<char>)) -> bool {
    text_lt(a.0, b.0) || (a.0 == b.0 && text_lt(a.1, b.1))
}

/// The transactions of `s` whose key is `k`, in their order in `s`.
pub open spec fn with_key(s: Seq<TransactionDetail>, k: (Seq<char>, Seq<char>)) -> Seq<TransactionDetail>
    decreases s.len(),
{
    if s.len() == 0 {
        Seq::empty()
    } else if key_of(s.last()) == k {
        with_key(s.drop_last(), k).push(s.last())
    } else {
        with_key(s.drop_last(), k)
    }
}

pub open spec fn fits_i64(x: int) -> bool {
    i64::MIN <= x <= i64::MAX
}

/// Every running total that summarizing `s` in order computes fits in an `i64`:
/// income and expense so far, each category's total so far, and the net balance.
pub open spec fn summable(s: Seq<TransactionDetail>) -> bool {
    &&& forall|k: int|
        0 <= k <= s.len() ==> #[trigger] fits_i64(income_total(s.take(k))) && fits_i64(
            expense_total(s.take(k)),
        )
    &&& forall|k: int, key: (Seq<char>, Seq<char>)|
        0 <= k <= s.len() ==> #[trigger] fits_i64(amount_sum(with_key(s.take(k), key)))
    &&& fits_i64(income_total(s) - expense_total(s))
}

pub open spec fn group_key(g: CategoryGroup) -> (Seq<char>, Seq<char>) {
    (g.category_name@, g.category_type@)
}

/// `groups` is the grouping of `records` by category: one group per key that
/// occurs, in strictly increasing key order, each holding the transactions with
/// its key in their order in `records` and showing their total.
pub open spec fn grouped(records: Seq<TransactionDetail>, groups: Seq<CategoryGroup>) -> bool {
    &&& forall|i: int, j: int|
        0 <= i < j < groups.len() ==> key_lt(group_key(#[trigger] groups[i]), group_key(#[trigger] groups[j]))
    &&& forall|i: int|
        0 <= i < groups.len() ==> {
            &&& (#[trigger] groups[i]).transactions@ == with_key(records, group_key(groups[i]))
            &&& groups[i].transactions@.len() > 0
            &&& shows_money(groups[i].total@, amount_sum(groups[i].transactions@))
        }
    &&& forall|k: int|
        0 <= k < records.len() ==> exists|i: int|
            0 <= i < groups.len() && group_key(#[trigger] groups[i]) == key_of(#[trigger] records[k])
}

/// Sum of the transaction amounts of the groups whose category type is income
/// (`income == true`) or is not (`income == false`).
pub open spec fn groups_total(groups: Seq<CategoryGroup>, income: bool) -> int
    decreases groups.len(),
{
    if groups.len() == 0 {
        0
    } else {
        groups_total(groups.drop_last(), income) + if (groups.last().category_type@ == income_tag()) == income {
            amount_sum(groups.last().transactions@)
        } else {
            0
        }
    }
}

spec fn keyed_sum(rs: Seq<TransactionDetail>, keys: Seq<(Seq<char>, Seq<char>)>, income: bool) -> int
    decreases keys.len(),
{
    if keys.len() == 0 {
        0
    } else {
        keyed_sum(rs, keys.drop_last(), income) + if (keys.last().1 == income_tag()) == income {
            amount_sum(with_key(rs, keys.last()))
        } else {
            0
        }
    }
}

spec fn distinct_keys(keys: Seq<(Seq<char>, Seq<char>)>) -> bool {
    forall|i: int, j: int| 0 <= i < keys.len() && 0 <= j < keys.len() && i != j ==> keys[i] != keys[j]
}

proof fn lemma_keyed_sum_empty(keys: Seq<(Seq<char>, Seq<char>)>, income: bool)
    ensures
        keyed_sum(Seq::empty(), keys, income) == 0,
    decreases keys.len(),
{
    if keys.len() > 0 {
        lemma_keyed_sum_empty(keys.drop_last(), income);
        assert(amount_sum(Seq::<TransactionDetail>::empty()) == 0);
    }
}

proof fn lemma_keyed_sum_push(
    rs: Seq<TransactionDetail>,
    r: TransactionDetail,
    keys: Seq<(Seq<char>, Seq<char>)>,
    income: bool,
)
    requires
        distinct_keys(keys),
    ensures
        keyed_sum(rs.push(r), keys, income) == keyed_sum(rs, keys, income) + if keys.contains(key_of(r))
            && is_income(r) == income {
            r.amount as int
        } else {
            0
        },
    decreases keys.len(),
{
    let q = rs.push(r);
    assert(q.drop_last() =~= rs);
    if keys.len() > 0 {
        let ks = keys.drop_last();
        let k = keys.last();
        assert(distinct_keys(ks));
        lemma_keyed_sum_push(rs, r, ks, income);
        if k == key_of(r) {
            assert(with_key(q, k) == with_key(rs, k).push(r));
            assert(with_key(rs, k).push(r).drop_last() =~= with_key(rs, k));
            assert(!ks.contains(key_of(r))) by {
                if ks.contains(key_of(r)) {
                    let i = choose|i: int| 0 <= i < ks.len() && ks[i] == key_of(r);
                    assert(keys[i] == keys[keys.len() - 1]);
                }
            }
            assert(keys.contains(key_of(r))) by {
                assert(keys[keys.len() - 1] == key_of(r));
            }
        } else {
            assert(with_key(q, k) == with_key(rs, k));
            assert(keys.contains(key_of(r)) == ks.contains(key_of(r))) by {
                if keys.contains(key_of(r)) {
                    let i = choose|i: int| 0 <= i < keys.len() && keys[i] == key_of(r);
                    assert(ks[i] == key_of(r));
                }
                if ks.contains(key_of(r)) {
                    let i = choose|i: int| 0 <= i < ks.len() && ks[i] == key_of(r);
                    assert(keys[i] == key_of(r));
                }
            }
        }
    }
}

proof fn lemma_keyed_sum_totals(rs: Seq<TransactionDetail>, keys: Seq<(Seq<char>, Seq<char>)>)
    requires
        distinct_keys(keys),
        forall|j: int| 0 <= j < rs.len() ==> keys.contains(key_of(#[trigger] rs[j])),
    ensures
        keyed_sum(rs, keys, true) == income_total(rs),
        keyed_sum(rs, keys, false) == expense_total(rs),
    decreases rs.len(),
{
    if rs.len() == 0 {
        assert(rs =~= Seq::<TransactionDetail>::empty());
        lemma_keyed_sum_empty(keys, true);
        lemma_keyed_sum_empty(keys, false);
    } else {
        let front = rs.drop_last();
        let r = rs.last();
        assert(front.push(r) =~= rs);
        assert forall|j: int| 0 <= j < front.len() implies keys.contains(key_of(#[trigger] front[j])) by {
            assert(front[j] == rs[j]);
        }
        lemma_keyed_sum_totals(front, keys);
        assert(keys.contains(key_of(rs[rs.len() - 1])));
        lemma_keyed_sum_push(front, r, keys, true);
        lemma_keyed_sum_push(front, r, keys, false);
    }
}

proof fn lemma_groups_total_keyed(records: Seq<TransactionDetail>, groups: Seq<CategoryGroup>, income: bool)
    requires
        forall|i: int| 0 <= i < groups.len() ==> (#[trigger] groups[i]).transactions@ == with_key(records, group_key(groups[i])),
    ensures
        groups_total(groups, income) == keyed_sum(records, groups.map_values(|g: CategoryGroup| group_key(g)), income),
    decreases groups.len(),
{
    let keys = groups.map_values(|g: CategoryGroup| group_key(g));
    if groups.len() > 0 {
        let gs = groups.drop_last();
        assert(gs.map_values(|g: CategoryGroup| group_key(g)) =~= keys.drop_last());
        lemma_groups_total_keyed(records, gs, income);
        assert(groups.last() == groups[groups.len() - 1]);
    }
}

/// The category totals add up to the month's totals: the groups of income type
/// sum to the income and the other groups sum to the expenses.
pub proof fn lemma_group_totals_add_up(records: Seq<TransactionDetail>, groups: Seq<CategoryGroup>)
    requires
        grouped(records, groups),
    ensures
        groups_total(groups, true) == income_total(records),
        groups_total(groups, false) == expense_total(records),
{
    let keys = groups.map_values(|g: CategoryGroup| group_key(g));
    assert(distinct_keys(keys)) by {
        assert forall|i: int, j: int| 0 <= i < keys.len() && 0 <= j < keys.len() && i != j implies keys[i] != keys[j] by {
            lemma_key_lt_irreflexive(keys[i]);
            if i < j {
                assert(key_lt(group_key(groups[i]), group_key(groups[j])));
            } else {
                assert(key_lt(group_key(groups[j]), group_key(groups[i])));
            }
        }
    }
    assert forall|j: int| 0 <= j < records.len() implies keys.contains(key_of(#[trigger] records[j])) by {
        let i = choose|i: int| 0 <= i < groups.len() && group_key(#[trigger] groups[i]) == key_of(#[trigger] records[j]);
        assert(keys[i] == key_of(records[j]));
    }
    lemma_keyed_sum_totals(records, keys);
    lemma_groups_total_keyed(records, groups, true);
    lemma_groups_total_keyed(records, groups, false);
}

/// The figures of one month.
pub struct MonthSummary {
    pub income_cents: i64,
    pub expense_cents: i64,
    pub net_cents: i64,
    pub groups: Vec<CategoryGroup>,
}

struct GroupAcc {
    name: String,
    c_type: String,
    total: i64,
    items: Vec<TransactionDetail>,
}

spec fn acc_key(a: GroupAcc) -> (Seq<char>, Seq<char>) {
    (a.name@, a.c_type@)
}

spec fn accs_inv(p: Seq<TransactionDetail>, accs: Seq<GroupAcc>) -> bool {
    &&& forall|i: int, j: int|
        0 <= i < j < accs.len() ==> key_lt(acc_key(#[trigger] accs[i]), acc_key(#[trigger] accs[j]))
    &&& forall|i: int|
        0 <= i < accs.len() ==> {
            &&& (#[trigger] accs[i]).items@ == with_key(p, acc_key(accs[i]))
            &&& accs[i].items@.len() > 0
            &&& accs[i].total == amount_sum(accs[i].items@)
        }
    &&& forall|k: int|
        0 <= k < p.len() ==> exists|i: int|
            0 <= i < accs.len() && acc_key(#[trigger] accs[i]) == key_of(#[trigger] p[k])
}

proof fn lemma_with_key_absent(p: Seq<TransactionDetail>, k: (Seq<char>, Seq<char>))
    requires
        forall|i: int| 0 <= i < p.len() ==> key_of(#[trigger] p[i]) != k,
    ensures
        with_key(p, k) == Seq::<TransactionDetail>::empty(),
    decreases p.len(),
{
    if p.len() > 0 {
        assert(key_of(p[p.len() - 1]) != k);
        lemma_with_key_absent(p.drop_last(), k);
    }
}

proof fn lemma_key_lt_transitive(a: (Seq<char>, Seq<char>), b: (Seq<char>, Seq<char>), c: (Seq<char>, Seq<char>))
    requires
        key_lt(a, b),
        key_lt(b, c),
    ensures
        key_lt(a, c),
{
    if text_lt(a.0, b.0) && text_lt(b.0, c.0) {
        lemma_text_lt_transitive(a.0, b.0, c.0);
    } else if text_lt(a.0, b.0) {
    } else if text_lt(b.0, c.0) {
    } else {
        lemma_text_lt_transitive(a.1, b.1, c.1);
    }
}

proof fn lemma_key_lt_total(a: (Seq<char>, Seq<char>), b: (Seq<char>, Seq<char>))
    ensures
        key_lt(a, b) || key_lt(b, a) || a == b,
{
    lemma_text_lt_total(a.0, b.0);
    lemma_text_lt_total(a.1, b.1);
}

proof fn lemma_key_lt_irreflexive(a: (Seq<char>, Seq<char>))
    ensures
        !key_lt(a, a),
{
    lemma_text_lt_irreflexive(a.0);
    lemma_text_lt_irreflexive(a.1);
}

fn key_less(name_a: &String, type_a: &String, name_b: &String, type_b: &String) -> (r: bool)
    ensures
        r == key_lt((name_a@, type_a@), (name_b@, type_b@)),
{
    if text_less(name_a.as_str(), name_b.as_str()) {
        true
    } else if *name_a == *name_b {
        text_less(type_a.as_str(), type_b.as_str())
    } else {
        false
    }
}

/// Adds one more transaction to the groups built so far.
/// Fails exactly when the category's running total leaves the `i64` range.
fn add_to_groups(accs: &mut Vec<GroupAcc>, r: TransactionDetail, Ghost(p): Ghost<Seq<TransactionDetail>>) -> (ok: bool)
    requires
        accs_inv(p, old(accs)@),
    ensures
        ok == fits_i64(amount_sum(with_key(p.push(r), key_of(r)))),
        ok ==> accs_inv(p.push(r), final(accs)@),
{
    let ghost q = p.push(r);
    let ghost old_accs = accs@;
    assert(q.drop_last() =~= p);
    assert(q.last() == r);
    assert forall|i: int, j: int| 0 <= i < old_accs.len() && 0 <= j < old_accs.len() && i != j implies
        acc_key(#[trigger] old_accs[i]) != acc_key(#[trigger] old_accs[j]) by {
        lemma_key_lt_irreflexive(acc_key(old_accs[i]));
        if i > j {
            assert(key_lt(acc_key(old_accs[j]), acc_key(old_accs[i])));
        } else {
            assert(key_lt(acc_key(old_accs[i]), acc_key(old_accs[j])));
        }
    }
    let amount = r.amount;
    let mut j: usize = 0;
    let mut found = false;
    while j < accs.len()
        invariant
            accs@ == old_accs,
            0 <= j <= accs.len(),
            !found ==> forall|m: int| 0 <= m < j ==> acc_key(#[trigger] accs@[m]) != key_of(r),
            found ==> j < accs.len() && acc_key(accs@[j as int]) == key_of(r),
        ensures
            accs@ == old_accs,
            !found ==> forall|m: int| 0 <= m < accs.len() ==> acc_key(#[trigger] accs@[m]) != key_of(r),
            found ==> j < accs.len() && acc_key(accs@[j as int]) == key_of(r),
        decreases accs.len() - j,
    {
        if accs[j].name == r.category_name && accs[j].c_type == r.c_type {
            found = true;
            break;
        }
        j = j + 1;
    }
    if found {
        let mut g = accs.remove(j);
        proof {
            old_accs.remove_ensures(j as int);
            assert(g.items@ == with_key(p, key_of(r)));
            assert(with_key(q, key_of(r)) == g.items@.push(r));
            assert(g.items@.push(r).drop_last() =~= g.items@);
            assert(amount_sum(g.items@.push(r)) == g.total + amount);
        }
        match g.total.checked_add(amount) {
            Some(t) => {
                g.total = t;
            },
            None => {
                return false;
            },
        }
        g.items.push(r);
        accs.insert(j, g);
        proof {
            let new_accs = accs@;
            assert(new_accs =~= old_accs.update(j as int, g));
            assert forall|m: int| 0 <= m < new_accs.len() implies acc_key(#[trigger] new_accs[m]) == acc_key(old_accs[m]) by {}
            assert forall|m: int| 0 <= m < new_accs.len() implies {
                &&& (#[trigger] new_accs[m]).items@ == with_key(q, acc_key(new_accs[m]))
                &&& new_accs[m].items@.len() > 0
                &&& new_accs[m].total == amount_sum(new_accs[m].items@)
            } by {
                if m != j {
                    assert(acc_key(old_accs[m]) != acc_key(old_accs[j as int]));
                    assert(with_key(q, acc_key(old_accs[m])) == with_key(p, acc_key(old_accs[m])));
                }
            }
            assert forall|k: int| 0 <= k < q.len() implies exists|i: int|
                0 <= i < new_accs.len() && acc_key(#[trigger] new_accs[i]) == key_of(#[trigger] q[k]) by {
                if k < p.len() {
                    assert(q[k] == p[k]);
                    let i = choose|i: int| 0 <= i < old_accs.len() && acc_key(#[trigger] old_accs[i]) == key_of(#[trigger] p[k]);
                    assert(acc_key(new_accs[i]) == key_of(q[k]));
                } else {
                    assert(acc_key(new_accs[j as int]) == key_of(q[k]));
                }
            }
        }
    } else {
        let mut pos: usize = 0;
        while pos < accs.len() && !key_less(&r.category_name, &r.c_type, &accs[pos].name, &accs[pos].c_type)
            invariant
                accs@ == old_accs,
                0 <= pos <= accs.len(),
                forall|m: int| 0 <= m < pos ==> !key_lt(key_of(r), acc_key(#[trigger] accs@[m])),
            decreases accs.len() - pos,
        {
            pos = pos + 1;
        }
        proof {
            assert forall|k: int| 0 <= k < p.len() implies key_of(#[trigger] p[k]) != key_of(r) by {
                let i = choose|i: int| 0 <= i < old_accs.len() && acc_key(#[trigger] old_accs[i]) == key_of(#[trigger] p[k]);
                assert(acc_key(old_accs[i]) != key_of(r));
            }
            lemma_with_key_absent(p, key_of(r));
            assert(with_key(q, key_of(r)) =~= seq![r]);
            assert(seq![r].drop_last() =~= Seq::<TransactionDetail>::empty());
            assert(amount_sum(Seq::<TransactionDetail>::empty()) == 0);
            assert(amount_sum(seq![r]) == amount);
        }
        let mut items: Vec<TransactionDetail> = Vec::new();
        let name = r.category_name.clone();
        let c_type = r.c_type.clone();
        items.push(r);
        let g = GroupAcc { name, c_type, total: amount, items };
        accs.insert(pos, g);
        proof {
            let new_accs = accs@;
            old_accs.insert_ensures(pos as int, g);
            assert(items@ =~= seq![r]);
            assert forall|m: int| 0 <= m < old_accs.len() implies key_lt(acc_key(#[trigger] old_accs[m]), key_of(r)) <==> m < pos by {
                lemma_key_lt_total(acc_key(old_accs[m]), key_of(r));
                if m < pos {
                } else {
                    lemma_key_lt_irreflexive(key_of(r));
                    if m > pos {
                        assert(key_lt(acc_key(old_accs[pos as int]), acc_key(old_accs[m])));
                        lemma_key_lt_transitive(key_of(r), acc_key(old_accs[pos as int]), acc_key(old_accs[m]));
                        if key_lt(acc_key(old_accs[m]), key_of(r)) {
                            lemma_key_lt_transitive(key_of(r), acc_key(old_accs[m]), key_of(r));
                        }
                    } else {
                        if key_lt(acc_key(old_accs[m]), key_of(r)) {
                            lemma_key_lt_transitive(key_of(r), acc_key(old_accs[m]), key_of(r));
                        }
                    }
                }
            }
            assert forall|a: int, b: int| 0 <= a < b < new_accs.len() implies
                key_lt(acc_key(#[trigger] new_accs[a]), acc_key(#[trigger] new_accs[b])) by {
                if b < pos {
                } else if b == pos {
                    assert(new_accs[a] == old_accs[a]);
                } else if a < pos {
                    assert(new_accs[b] == old_accs[b - 1]);
                    assert(key_lt(acc_key(old_accs[a]), key_of(r)));
                    assert(!key_lt(acc_key(old_accs[b - 1]), key_of(r)));
                    lemma_key_lt_total(acc_key(old_accs[b - 1]), key_of(r));
                    lemma_key_lt_transitive(acc_key(old_accs[a]), key_of(r), acc_key(old_accs[b - 1]));
                } else if a == pos {
                    assert(new_accs[b] == old_accs[b - 1]);
                    assert(!key_lt(acc_key(old_accs[b - 1]), key_of(r)));
                    lemma_key_lt_total(acc_key(old_accs[b - 1]), key_of(r));
                } else {
                    assert(new_accs[a] == old_accs[a - 1]);
                    assert(new_accs[b] == old_accs[b - 1]);
                }
            }
            assert forall|m: int| 0 <= m < new_accs.len() implies {
                &&& (#[trigger] new_accs[m]).items@ == with_key(q, acc_key(new_accs[m]))
                &&& new_accs[m].items@.len() > 0
                &&& new_accs[m].total == amount_sum(new_accs[m].items@)
            } by {
                if m < pos {
                    assert(new_accs[m] == old_accs[m]);
                    assert(acc_key(old_accs[m]) != key_of(r));
                } else if m > pos {
                    assert(new_accs[m] == old_accs[m - 1]);
                    assert(acc_key(old_accs[m - 1]) != key_of(r));
                }
            }
            assert forall|k: int| 0 <= k < q.len() implies exists|i: int|
                0 <= i < new_accs.len() && acc_key(#[trigger] new_accs[i]) == key_of(#[trigger] q[k]) by {
                if k < p.len() {
                    assert(q[k] == p[k]);
                    let i = choose|i: int| 0 <= i < old_accs.len() && acc_key(#[trigger] old_accs[i]) == key_of(#[trigger] p[k]);
                    if i < pos {
                        assert(new_accs[i] == old_accs[i]);
                    } else {
                        assert(new_accs[i + 1] == old_accs[i]);
                    }
                } else {
                    assert(acc_key(new_accs[pos as int]) == key_of(q[k]));
                }
            }
        }
    }
    true
}

/// Totals and category groups of a month's transactions.
/// There is no summary (`None`) exactly when a running total leaves the `i64`
/// range, where adding it up in order would overflow.
pub fn summarize_month(records: Vec<TransactionDetail>) -> (r: Option<MonthSummary>)
    ensures
        r.is_some() == summable(records@),
        r matches Some(s) ==> {
            &&& s.income_cents == income_total(records@)
            &&& s.expense_cents == expense_total(records@)
            &&& s.net_cents == income_total(records@) - expense_total(records@)
            &&& grouped(records@, s.groups@)
        },
{
    let ghost all = records@;
    let n = records.len();
    // Reverse the records so that popping yields them in their given order.
    let mut rest = records;
    let mut pending: Vec<TransactionDetail> = Vec::new();
    while rest.len() > 0
        invariant
            all.len() == n,
            rest@ == all.take(rest.len() as int),
            pending.len() + rest.len() == n,
            forall|k: int| 0 <= k < pending.len() ==> #[trigger] pending@[k] == all[n - 1 - k],
        decreases rest.len(),
    {
        let x = rest.pop().unwrap();
        pending.push(x);
        assert(rest@ =~= all.take(rest.len() as int));
    }
    let mut income: i64 = 0;
    let mut expense: i64 = 0;
    let mut accs: Vec<GroupAcc> = Vec::new();
    let mut i: usize = 0;
    assert(all.take(0) =~= Seq::<TransactionDetail>::empty());
    while i < n
        invariant
            all == records@,
            all.len() == n,
            i <= n,
            pending.len() == n - i,
            forall|k: int| 0 <= k < pending.len() ==> #[trigger] pending@[k] == all[n - 1 - k],
            income == income_total(all.take(i as int)),
            expense == expense_total(all.take(i as int)),
            accs_inv(all.take(i as int), accs@),
            forall|k: int|
                0 <= k <= i ==> #[trigger] fits_i64(income_total(all.take(k))) && fits_i64(
                    expense_total(all.take(k)),
                ),
            forall|k: int, key: (Seq<char>, Seq<char>)|
                0 <= k <= i ==> #[trigger] fits_i64(amount_sum(with_key(all.take(k), key))),
        decreases n - i,
    {
        let r = pending.pop().unwrap();
        let ghost p = all.take(i as int);
        let ghost p2 = all.take(i + 1);
        assert(r == all[i as int]);
        assert(p2.drop_last() =~= p);
        assert(p2.last() == r);
        let amount = r.amount;
        proof {
            reveal_strlit("INCOME");
            assert("INCOME"@ =~= income_tag());
        }
        if same_text(r.c_type.as_str(), "INCOME") {
            match income.checked_add(amount) {
                Some(v) => {
                    income = v;
                },
                None => {
                    assert(income_total(p2) == income_total(p) + amount);
                    assert(!fits_i64(income_total(all.take(i + 1))));
                    assert(!summable(all)) by {
                        if summable(all) {
                            assert(fits_i64(income_total(all.take(i + 1))));
                        }
                    }
                    return None;
                },
            }
        } else {
            match expense.checked_add(amount) {
                Some(v) => {
                    expense = v;
                },
                None => {
                    assert(expense_total(p2) == expense_total(p) + amount);
                    assert(!fits_i64(expense_total(all.take(i + 1))));
                    assert(!summable(all)) by {
                        if summable(all) {
                            assert(fits_i64(income_total(all.take(i + 1))));
                        }
                    }
                    return None;
                },
            }
        }
        proof {
            assert(p.push(r) =~= p2);
        }
        let ghost before = accs@;
        if !add_to_groups(&mut accs, r, Ghost(p)) {
            assert(!fits_i64(amount_sum(with_key(all.take(i + 1), key_of(r)))));
            return None;
        }
        proof {
            assert forall|key: (Seq<char>, Seq<char>)| #[trigger] fits_i64(amount_sum(with_key(all.take(i + 1), key))) by {
                if key != key_of(r) {
                    assert(with_key(p2, key) == with_key(p, key));
                    assert(fits_i64(amount_sum(with_key(all.take(i as int), key))));
                }
            }
            assert(fits_i64(income_total(all.take(i + 1))) && fits_i64(expense_total(all.take(i + 1))));
        }
        i = i + 1;
    }
    assert(all.take(n as int) =~= all);
    let net = match income.checked_sub(expense) {
        Some(v) => v,
        None => {
            return None;
        },
    };
    proof {
        assert forall|k: int| 0 <= k <= all.len() implies #[trigger] fits_i64(income_total(all.take(k))) && fits_i64(
            expense_total(all.take(k))) by {}
        assert forall|k: int, key: (Seq<char>, Seq<char>)| 0 <= k <= all.len() implies #[trigger] fits_i64(
            amount_sum(with_key(all.take(k), key))) by {}
        assert(summable(all));
    }
    let mut groups: Vec<CategoryGroup> = Vec::new();
    let ghost built = accs@;
    while accs.len() > 0
        invariant
            accs_inv(all, built),
            groups.len() + accs.len() == built.len(),
            accs@ == built.skip(groups.len() as int),
            forall|m: int| 0 <= m < groups.len() ==> {
                &&& group_key(#[trigger] groups@[m]) == acc_key(built[m])
                &&& groups@[m].transactions@ == built[m].items@
                &&& groups@[m].total@ == cents_text(built[m].total as int)
            },
        decreases accs.len(),
    {
        proof {
            assert(accs@[0] == built[groups.len() as int]);
        }
        let a = accs.remove(0);
        proof {
            assert(accs@ =~= built.skip(groups.len() + 1));
        }
        let total = cents_to_text(a.total);
        groups.push(CategoryGroup { category_name: a.name, category_type: a.c_type, total, transactions: a.items });
    }
    proof {
        let gs = groups@;
        assert forall|a: int, b: int| 0 <= a < b < gs.len() implies key_lt(group_key(#[trigger] gs[a]), group_key(#[trigger] gs[b])) by {
            assert(key_lt(acc_key(built[a]), acc_key(built[b])));
        }
        assert forall|m: int| 0 <= m < gs.len() implies {
            &&& (#[trigger] gs[m]).transactions@ == with_key(all, group_key(gs[m]))
            &&& gs[m].transactions@.len() > 0
            &&& gs[m].total@ == cents_text(amount_sum(gs[m].transactions@))
        } by {
            assert(built[m].items@ == with_key(all, acc_key(built[m])));
        }
        assert forall|m: int| 0 <= m < gs.len() implies shows_money(
            (#[trigger] gs[m]).total@,
            amount_sum(gs[m].transactions@),
        ) by {
            lemma_money_text_reads_back(amount_sum(gs[m].transactions@));
        }
        assert forall|k: int| 0 <= k < all.len() implies exists|i: int|
            0 <= i < gs.len() && group_key(#[trigger] gs[i]) == key_of(#[trigger] all[k]) by {
            let i = choose|i: int| 0 <= i < built.len() && acc_key(#[trigger] built[i]) == key_of(#[trigger] all[k]);
            assert(group_key(gs[i]) == key_of(all[k]));
        }
    }
    Some(MonthSummary { income_cents: income, expense_cents: expense, net_cents: net, groups })
}

} // verus!
