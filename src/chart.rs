//! Budget entries and their partition into income and expense chart points.
use vstd::prelude::*;
use vstd::string::*;

verus! {

/// One record of the budget book; `entry_type` is the category label.
#[derive(Clone, Debug, PartialEq, Eq)]
pub struct BudgetBookEntry {
    pub date: String,
    pub entry_type: String,
    pub amount: u64,
}

/// Chart points, each a date and an amount, in stored order.
#[derive(Clone, Debug, PartialEq, Eq)]
pub struct ChartData {
    pub income: Vec<(String, u64)>,
    pub expense: Vec<(String, u64)>,
}

/// The lowercase mapping of a string.
pub uninterp spec fn lower_of(s: Seq<char>) -> Seq<char>;

/// Relies on `str::to_lowercase`: the lowercase mapping of the string, which
/// depends on its characters alone.
#[verifier::external_body]
fn to_lowercase(s: &str) -> (r: String)
    ensures
        r@ == lower_of(s@),
{
    s.to_lowercase()
}

/// The label that marks income, after lowercasing.
pub open spec fn income_word() -> Seq<char> {
    seq!['i', 'n', 'c', 'o', 'm', 'e']
}

/// An entry counts as income when its label, lowercased, is `income`.
pub open spec fn is_income_entry(e: BudgetBookEntry) -> bool {
    lower_of(e.entry_type@) == income_word()
}

/// The chart point of an entry: its date and amount.
pub open spec fn point_of(e: BudgetBookEntry) -> (Seq<char>, u64) {
    (e.date@, e.amount)
}

/// The points of the income entries of `es`, in order.
pub open spec fn income_points(es: Seq<BudgetBookEntry>) -> Seq<(Seq<char>, u64)>
    decreases es.len(),
{
    if es.len() == 0 {
        Seq::empty()
    } else if is_income_entry(es.last()) {
        income_points(es.drop_last()).push(point_of(es.last()))
    } else {
        income_points(es.drop_last())
    }
}

/// The points of all other entries of `es`, in order.
pub open spec fn expense_points(es: Seq<BudgetBookEntry>) -> Seq<(Seq<char>, u64)>
    decreases es.len(),
{
    if es.len() == 0 {
        Seq::empty()
    } else if is_income_entry(es.last()) {
        expense_points(es.drop_last())
    } else {
        expense_points(es.drop_last()).push(point_of(es.last()))
    }
}

/// The mathematical value of a list of chart points.
pub open spec fn points_view(v: Seq<(String, u64)>) -> Seq<(Seq<char>, u64)> {
    v.map_values(|p: (String, u64)| (p.0@, p.1))
}

/// Whether an already lowercased label is exactly `income`.
pub fn is_income_label(lowered: &str) -> (r: bool)
    ensures
        r == (lowered@ == income_word()),
{
    let word = "income";
    proof {
        reveal_strlit("income");
        assert(word@ =~= income_word());
    }
    if lowered.unicode_len() != 6 {
        return false;
    }
    let mut i: usize = 0;
    while i < 6
        invariant
            i <= 6,
            lowered@.len() == 6,
            word@ == income_word(),
            forall|j: int| 0 <= j < i ==> lowered@[j] == word@[j],
        decreases 6 - i,
    {
        if lowered.get_char(i) != word.get_char(i) {
            return false;
        }
        i = i + 1;
    }
    assert(lowered@ =~= word@);
    true
}

/// Whether `entry` is an income entry: its label matches `income` ignoring case.
pub fn is_income(entry: &BudgetBookEntry) -> (r: bool)
    ensures
        r == is_income_entry(*entry),
{
    let lowered = to_lowercase(entry.entry_type.as_str());
    is_income_label(lowered.as_str())
}

/// Splits `entries` into income and expense points, each list in stored order,
/// with no summing across entries.
pub fn chart_data(entries: &Vec<BudgetBookEntry>) -> (r: ChartData)
    ensures
        points_view(r.income@) == income_points(entries@),
        points_view(r.expense@) == expense_points(entries@),
{
    let mut income: Vec<(String, u64)> = Vec::new();
    let mut expense: Vec<(String, u64)> = Vec::new();
    let mut i: usize = 0;
    while i < entries.len()
        invariant
            i <= entries@.len(),
            points_view(income@) == income_points(entries@.subrange(0, i as int)),
            points_view(expense@) == expense_points(entries@.subrange(0, i as int)),
        decreases entries@.len() - i,
    {
        let entry = &entries[i];
        let point = (entry.date.clone(), entry.amount);
        let prefix = Ghost(entries@.subrange(0, i as int));
        let next = Ghost(entries@.subrange(0, i as int + 1));
        assert(next@.drop_last() =~= prefix@);
        assert(next@.last() == *entry);
        if is_income(entry) {
            let ghost before = income@;
            income.push(point);
            assert(points_view(income@) =~= points_view(before).push(point_of(*entry)));
        } else {
            let ghost before = expense@;
            expense.push(point);
            assert(points_view(expense@) =~= points_view(before).push(point_of(*entry)));
        }
        i = i + 1;
    }
    assert(entries@.subrange(0, entries@.len() as int) =~= entries@);
    ChartData { income, expense }
}

} // verus!
