//! The books of a circle: the totals of the payments ledger, what recording
//! a payment and distributing a pot do to the list of months, what one
//! operation may do to the books, and the account of the pot that every
//! history of operations keeps: the pot is what was paid in, less what was
//! distributed and what stands with the lending venue.

use vstd::prelude::*;
use crate::keys::Pubkey;
use crate::state::{Circle, CircleEscrow, MemberContribution, MonthlyContribution};

verus! {

/// Sum of the amounts of a list of payments.
pub open spec fn entries_total(entries: Seq<MemberContribution>) -> int
    decreases entries.len(),
{
    if entries.len() == 0 {
        0
    } else {
        entries_total(entries.drop_last()) + entries.last().amount
    }
}

/// Sum of the amounts of every payment recorded in a list of months.
pub open spec fn ledger_total(months: Seq<MonthlyContribution>) -> int
    decreases months.len(),
{
    if months.len() == 0 {
        0
    } else {
        ledger_total(months.drop_last()) + entries_total(months.last().contributions@)
    }
}

/// Whether `who` has a payment among `entries`.
pub open spec fn has_entry(entries: Seq<MemberContribution>, who: Pubkey) -> bool {
    exists|k: int| 0 <= k < entries.len() && (#[trigger] entries[k]).member == who
}

/// No member occurs twice among `entries`.
pub open spec fn entries_unique(entries: Seq<MemberContribution>) -> bool {
    forall|i: int, j: int|
        0 <= i < j < entries.len() ==> (#[trigger] entries[i]).member != (#[trigger] entries[j]).member
}

/// What a month counts as paid out of the pot: what it collected, once its
/// pot has been distributed.
pub open spec fn month_paid_out(record: MonthlyContribution) -> int {
    if record.distributed_to is Some {
        record.total_collected as int
    } else {
        0
    }
}

/// Sum of the collected totals of the months whose pot has been
/// distributed.
pub open spec fn distributed_total(months: Seq<MonthlyContribution>) -> int
    decreases months.len(),
{
    if months.len() == 0 {
        0
    } else {
        distributed_total(months.drop_last()) + month_paid_out(months.last())
    }
}

/// The pot of a circle accounts for `paid_out`: the pot, what the escrow
/// has placed with the lending venue and what was paid out of the pot are
/// together what the ledger records as paid in.
pub open spec fn pot_accounts_for(circle: &Circle, escrow: &CircleEscrow, paid_out: int) -> bool {
    circle.total_pot + escrow.solend_c_token_balance + paid_out == circle.recorded_total()
}

/// The books of a circle and its escrow balance: the pot accounts for the
/// collected totals of the months whose pot has been distributed.
///
/// This reads what was paid out off the month records. It is what was
/// paid out as long as no payment is recorded into a month after the pot
/// of that month was distributed; `pot_accounts_for` holds without that
/// condition of the amounts that were in fact paid.
pub open spec fn books_balance(circle: &Circle, escrow: &CircleEscrow) -> bool {
    pot_accounts_for(circle, escrow, distributed_total(circle.monthly_contributions@))
}

/// With balanced books, the pot of a circle is the sum of every payment
/// recorded so far, less the pots that were distributed and less what
/// stands with the lending venue.
pub proof fn lemma_pot_by_the_books(circle: &Circle, escrow: &CircleEscrow)
    requires
        books_balance(circle, escrow),
    ensures
        circle.total_pot == ledger_total(circle.monthly_contributions@) - distributed_total(
            circle.monthly_contributions@,
        ) - escrow.solend_c_token_balance,
{
}

/// In a well-formed circle the recorded total is the sum of the monthly
/// totals.
pub proof fn lemma_recorded_total_is_sum_of_months(circle: &Circle)
    requires
        circle.wf(),
    ensures
        circle.recorded_total() == collected_total(circle.monthly_contributions@),
{
    lemma_collected_total(circle.monthly_contributions@);
}

/// Sum of the collected totals of a list of months.
pub open spec fn collected_total(months: Seq<MonthlyContribution>) -> int
    decreases months.len(),
{
    if months.len() == 0 {
        0
    } else {
        collected_total(months.drop_last()) + months.last().total_collected
    }
}

proof fn lemma_collected_total(months: Seq<MonthlyContribution>)
    requires
        forall|i: int| 0 <= i < months.len() ==> (#[trigger] months[i]).wf(),
    ensures
        ledger_total(months) == collected_total(months),
    decreases months.len(),
{
    if months.len() > 0 {
        let rest = months.drop_last();
        assert forall|i: int| 0 <= i < rest.len() implies (#[trigger] rest[i]).wf() by {
            assert(rest[i] == months[i]);
        }
        lemma_collected_total(rest);
        assert(months.last() == months[months.len() - 1]);
    }
}

/// Adding a payment raises the total by its amount.
pub proof fn lemma_entries_total_push(entries: Seq<MemberContribution>, e: MemberContribution)
    ensures
        entries_total(entries.push(e)) == entries_total(entries) + e.amount,
{
    assert(entries.push(e).drop_last() =~= entries);
}

/// Replacing one month changes the ledger total by the difference between
/// the new and the old month.
pub proof fn lemma_ledger_total_update(months: Seq<MonthlyContribution>, i: int, m: MonthlyContribution)
    requires
        0 <= i < months.len(),
    ensures
        ledger_total(months.update(i, m)) == ledger_total(months) - entries_total(
            months[i].contributions@,
        ) + entries_total(m.contributions@),
    decreases months.len(),
{
    let updated = months.update(i, m);
    if i == months.len() - 1 {
        assert(updated.drop_last() =~= months.drop_last());
    } else {
        assert(updated.drop_last() =~= months.drop_last().update(i, m));
        lemma_ledger_total_update(months.drop_last(), i, m);
    }
}

/// A month record without payments.
pub open spec fn blank_month(record: MonthlyContribution, index: int) -> bool {
    &&& record.month == index
    &&& record.contributions@.len() == 0
    &&& record.total_collected == 0
    &&& record.distributed_to is None
}

/// `after` is `before` with `entry` recorded for month `m`: the months
/// between the end of `before` and `m` are added without payments, month
/// `m` gains the entry and its amount, and every other month is as it was.
pub open spec fn months_record(
    before: Seq<MonthlyContribution>,
    after: Seq<MonthlyContribution>,
    m: int,
    entry: MemberContribution,
) -> bool {
    &&& after.len() == if m < before.len() {
        before.len() as int
    } else {
        m + 1
    }
    &&& forall|i: int| 0 <= i < before.len() && i != m ==> #[trigger] after[i] == before[i]
    &&& forall|i: int| before.len() <= i < m ==> blank_month(#[trigger] after[i], i)
    &&& if m < before.len() {
        &&& after[m].month == before[m].month
        &&& after[m].contributions@ == before[m].contributions@.push(entry)
        &&& after[m].total_collected == before[m].total_collected + entry.amount
        &&& after[m].distributed_to == before[m].distributed_to
    } else {
        &&& after[m].month == m
        &&& after[m].contributions@ == seq![entry]
        &&& after[m].total_collected == entry.amount
        &&& after[m].distributed_to is None
    }
}

/// Two lists of months hold the same payments.
pub open spec fn same_entries(before: Seq<MonthlyContribution>, after: Seq<MonthlyContribution>) -> bool {
    &&& after.len() == before.len()
    &&& forall|i: int|
        0 <= i < before.len() ==> (#[trigger] after[i]).contributions@ == before[i].contributions@
}

/// Two lists of months hold the same payments, the same collected totals
/// and the same distributions.
pub open spec fn same_months(before: Seq<MonthlyContribution>, after: Seq<MonthlyContribution>) -> bool {
    &&& after.len() == before.len()
    &&& forall|i: int|
        0 <= i < before.len() ==> {
            &&& (#[trigger] after[i]).contributions@ == before[i].contributions@
            &&& after[i].total_collected == before[i].total_collected
            &&& after[i].distributed_to == before[i].distributed_to
        }
}

/// `after` is `before` with the pot of month `m` distributed: the month
/// was not distributed and now is, with its payments and its collected
/// total as they were, and every other month is as it was.
pub open spec fn months_distribute(
    before: Seq<MonthlyContribution>,
    after: Seq<MonthlyContribution>,
    m: int,
) -> bool {
    &&& 0 <= m < before.len()
    &&& before[m].distributed_to is None
    &&& after.len() == before.len()
    &&& forall|i: int| 0 <= i < before.len() && i != m ==> #[trigger] after[i] == before[i]
    &&& after[m].contributions@ == before[m].contributions@
    &&& after[m].total_collected == before[m].total_collected
    &&& after[m].distributed_to is Some
}

/// `after` is `before` with a payment recorded into a month whose pot had
/// been distributed before.
pub open spec fn pays_into_distributed_month(
    before: Seq<MonthlyContribution>,
    after: Seq<MonthlyContribution>,
) -> bool {
    exists|m: int, entry: MemberContribution|
        0 <= m < before.len() && #[trigger] months_record(before, after, m, entry)
            && before[m].distributed_to is Some
}

/// What one operation may do to the books of a circle, with `paid` the
/// amount it pays out of the pot. It does one of three things:
/// - it leaves the months as they are and, at most, moves value between
///   the pot and the lending venue, and pays nothing;
/// - it records one payment and adds the amount to the pot, and pays
///   nothing;
/// - it distributes the pot of one month and takes what that month
///   collected out of the pot, and pays that amount.
pub open spec fn ledger_step(
    circle0: &Circle,
    escrow0: &CircleEscrow,
    circle1: &Circle,
    escrow1: &CircleEscrow,
    paid: int,
) -> bool {
    ||| {
        &&& same_months(circle0.monthly_contributions@, circle1.monthly_contributions@)
        &&& circle1.total_pot + escrow1.solend_c_token_balance == circle0.total_pot
            + escrow0.solend_c_token_balance
        &&& paid == 0
    }
    ||| exists|m: int, entry: MemberContribution|
        {
            &&& 0 <= m
            &&& #[trigger] months_record(
                circle0.monthly_contributions@,
                circle1.monthly_contributions@,
                m,
                entry,
            )
            &&& circle1.total_pot == circle0.total_pot + entry.amount
            &&& escrow1.solend_c_token_balance == escrow0.solend_c_token_balance
            &&& paid == 0
        }
    ||| exists|m: int|
        {
            &&& #[trigger] months_distribute(
                circle0.monthly_contributions@,
                circle1.monthly_contributions@,
                m,
            )
            &&& paid == circle0.monthly_contributions@[m].total_collected
            &&& circle1.total_pot == circle0.total_pot - paid
            &&& escrow1.solend_c_token_balance == escrow0.solend_c_token_balance
        }
}

/// What the first `i` steps of a history paid out of the pot.
pub open spec fn paid_before(paid: Seq<int>, i: int) -> int
    decreases i,
{
    if i <= 0 {
        0
    } else {
        paid_before(paid, i - 1) + paid[i - 1]
    }
}

/// The step from position `i` of a history to the next is a ledger step
/// that pays `paid[i]`.
pub open spec fn step_at(circles: Seq<Circle>, escrows: Seq<CircleEscrow>, paid: Seq<int>, i: int) -> bool {
    ledger_step(&circles[i], &escrows[i], &circles[i + 1], &escrows[i + 1], paid[i])
}

/// Months without payments add nothing to the ledger total.
proof fn lemma_blank_months_total(months: Seq<MonthlyContribution>, from: int, to: int)
    requires
        0 <= from <= to <= months.len(),
        forall|i: int| from <= i < to ==> blank_month(#[trigger] months[i], i),
    ensures
        ledger_total(months.take(to)) == ledger_total(months.take(from)),
    decreases to - from,
{
    if from < to {
        lemma_blank_months_total(months, from, to - 1);
        assert(months.take(to).drop_last() =~= months.take(to - 1));
        assert(blank_month(months[to - 1], to - 1));
        assert(months.take(to).last() == months[to - 1]);
    }
}

/// Recording an entry raises the ledger total by the entry's amount.
pub proof fn lemma_months_record_total(
    before: Seq<MonthlyContribution>,
    after: Seq<MonthlyContribution>,
    m: int,
    entry: MemberContribution,
)
    requires
        0 <= m,
        months_record(before, after, m, entry),
    ensures
        ledger_total(after) == ledger_total(before) + entry.amount,
{
    if m < before.len() {
        assert(after =~= before.update(m, after[m]));
        lemma_ledger_total_update(before, m, after[m]);
        lemma_entries_total_push(before[m].contributions@, entry);
    } else {
        assert(after.take(before.len() as int) =~= before);
        lemma_blank_months_total(after, before.len() as int, m);
        assert(after.drop_last() =~= after.take(m));
        assert(after.last() == after[m]);
        assert(seq![entry] =~= Seq::<MemberContribution>::empty().push(entry));
        lemma_entries_total_push(Seq::<MemberContribution>::empty(), entry);
    }
}

/// Lists of months with the same payments have the same total.
pub proof fn lemma_same_entries_total(before: Seq<MonthlyContribution>, after: Seq<MonthlyContribution>)
    requires
        same_entries(before, after),
    ensures
        ledger_total(after) == ledger_total(before),
    decreases before.len(),
{
    if before.len() > 0 {
        let b = before.drop_last();
        let a = after.drop_last();
        assert forall|i: int| 0 <= i < b.len() implies (#[trigger] a[i]).contributions@
            == b[i].contributions@ by {
            assert(after[i].contributions@ == before[i].contributions@);
        }
        lemma_same_entries_total(b, a);
        assert(after[after.len() - 1].contributions@ == before[before.len() - 1].contributions@);
    }
}

/// Replacing one month changes the distributed total by the difference
/// between what the new and the old month count as paid out.
pub proof fn lemma_distributed_total_update(months: Seq<MonthlyContribution>, i: int, m: MonthlyContribution)
    requires
        0 <= i < months.len(),
    ensures
        distributed_total(months.update(i, m)) == distributed_total(months) - month_paid_out(months[i])
            + month_paid_out(m),
    decreases months.len(),
{
    let updated = months.update(i, m);
    if i == months.len() - 1 {
        assert(updated.drop_last() =~= months.drop_last());
    } else {
        assert(updated.drop_last() =~= months.drop_last().update(i, m));
        lemma_distributed_total_update(months.drop_last(), i, m);
    }
}

/// Months that are not distributed add nothing to the distributed total.
proof fn lemma_undistributed_months(months: Seq<MonthlyContribution>, from: int, to: int)
    requires
        0 <= from <= to <= months.len(),
        forall|i: int| from <= i < to ==> (#[trigger] months[i]).distributed_to is None,
    ensures
        distributed_total(months.take(to)) == distributed_total(months.take(from)),
    decreases to - from,
{
    if from < to {
        lemma_undistributed_months(months, from, to - 1);
        assert(months.take(to).drop_last() =~= months.take(to - 1));
        assert(months[to - 1].distributed_to is None);
        assert(months.take(to).last() == months[to - 1]);
    }
}

/// Lists with the same months have the same totals.
pub proof fn lemma_same_months_totals(before: Seq<MonthlyContribution>, after: Seq<MonthlyContribution>)
    requires
        same_months(before, after),
    ensures
        same_entries(before, after),
        ledger_total(after) == ledger_total(before),
        distributed_total(after) == distributed_total(before),
    decreases before.len(),
{
    assert(same_entries(before, after)) by {
        assert forall|i: int| 0 <= i < before.len() implies (#[trigger] after[i]).contributions@
            == before[i].contributions@ by {}
    }
    lemma_same_entries_total(before, after);
    if before.len() > 0 {
        let b = before.drop_last();
        let a = after.drop_last();
        assert forall|i: int| 0 <= i < b.len() implies {
            &&& (#[trigger] a[i]).contributions@ == b[i].contributions@
            &&& a[i].total_collected == b[i].total_collected
            &&& a[i].distributed_to == b[i].distributed_to
        } by {
            assert(after[i].total_collected == before[i].total_collected);
        }
        lemma_same_months_totals(b, a);
        assert(after[after.len() - 1].total_collected == before[before.len() - 1].total_collected);
    }
}

/// Recording a payment into a month whose pot is not distributed leaves
/// the distributed total as it was.
pub proof fn lemma_months_record_distributed(
    before: Seq<MonthlyContribution>,
    after: Seq<MonthlyContribution>,
    m: int,
    entry: MemberContribution,
)
    requires
        0 <= m,
        months_record(before, after, m, entry),
        m < before.len() ==> before[m].distributed_to is None,
    ensures
        distributed_total(after) == distributed_total(before),
{
    if m < before.len() {
        assert(after =~= before.update(m, after[m]));
        lemma_distributed_total_update(before, m, after[m]);
    } else {
        assert(after.take(before.len() as int) =~= before);
        assert forall|i: int| before.len() <= i < m + 1 implies (#[trigger] after[i]).distributed_to
            is None by {
            if i < m {
                assert(blank_month(after[i], i));
            }
        }
        lemma_undistributed_months(after, before.len() as int, m + 1);
        assert(after.take(m + 1) =~= after);
    }
}

/// Distributing the pot of a month leaves the payments as they were and
/// raises the distributed total by what the month collected.
pub proof fn lemma_months_distribute_totals(
    before: Seq<MonthlyContribution>,
    after: Seq<MonthlyContribution>,
    m: int,
)
    requires
        months_distribute(before, after, m),
    ensures
        same_entries(before, after),
        ledger_total(after) == ledger_total(before),
        distributed_total(after) == distributed_total(before) + before[m].total_collected,
{
    assert(after =~= before.update(m, after[m]));
    lemma_ledger_total_update(before, m, after[m]);
    lemma_distributed_total_update(before, m, after[m]);
    assert forall|i: int| 0 <= i < before.len() implies (#[trigger] after[i]).contributions@
        == before[i].contributions@ by {
        if i != m {
            assert(after[i] == before[i]);
        }
    }
}

/// After a ledger step the pot accounts for what it accounted for before
/// and for what the step paid.
pub proof fn lemma_step_keeps_account(
    circle0: &Circle,
    escrow0: &CircleEscrow,
    circle1: &Circle,
    escrow1: &CircleEscrow,
    paid: int,
    paid_out: int,
)
    requires
        pot_accounts_for(circle0, escrow0, paid_out),
        ledger_step(circle0, escrow0, circle1, escrow1, paid),
    ensures
        pot_accounts_for(circle1, escrow1, paid_out + paid),
{
    let before = circle0.monthly_contributions@;
    let after = circle1.monthly_contributions@;
    if same_months(before, after) && circle1.total_pot + escrow1.solend_c_token_balance
        == circle0.total_pot + escrow0.solend_c_token_balance && paid == 0 {
        lemma_same_months_totals(before, after);
    } else if exists|m: int, entry: MemberContribution|
        {
            &&& 0 <= m
            &&& #[trigger] months_record(before, after, m, entry)
            &&& circle1.total_pot == circle0.total_pot + entry.amount
            &&& escrow1.solend_c_token_balance == escrow0.solend_c_token_balance
            &&& paid == 0
        } {
        let (m, entry) = choose|m: int, entry: MemberContribution|
            {
                &&& 0 <= m
                &&& #[trigger] months_record(before, after, m, entry)
                &&& circle1.total_pot == circle0.total_pot + entry.amount
                &&& escrow1.solend_c_token_balance == escrow0.solend_c_token_balance
                &&& paid == 0
            };
        lemma_months_record_total(before, after, m, entry);
    } else {
        let m = choose|m: int|
            {
                &&& #[trigger] months_distribute(before, after, m)
                &&& paid == before[m].total_collected
                &&& circle1.total_pot == circle0.total_pot - paid
                &&& escrow1.solend_c_token_balance == escrow0.solend_c_token_balance
            };
        lemma_months_distribute_totals(before, after, m);
    }
}

/// A ledger step keeps balanced books balanced, unless it records a
/// payment into a month whose pot had been distributed before.
pub proof fn lemma_step_keeps_balance(
    circle0: &Circle,
    escrow0: &CircleEscrow,
    circle1: &Circle,
    escrow1: &CircleEscrow,
    paid: int,
)
    requires
        books_balance(circle0, escrow0),
        ledger_step(circle0, escrow0, circle1, escrow1, paid),
        !pays_into_distributed_month(circle0.monthly_contributions@, circle1.monthly_contributions@),
    ensures
        books_balance(circle1, escrow1),
{
    let before = circle0.monthly_contributions@;
    let after = circle1.monthly_contributions@;
    lemma_step_keeps_account(circle0, escrow0, circle1, escrow1, paid, distributed_total(before));
    if same_months(before, after) && circle1.total_pot + escrow1.solend_c_token_balance
        == circle0.total_pot + escrow0.solend_c_token_balance && paid == 0 {
        lemma_same_months_totals(before, after);
    } else if exists|m: int, entry: MemberContribution|
        {
            &&& 0 <= m
            &&& #[trigger] months_record(before, after, m, entry)
            &&& circle1.total_pot == circle0.total_pot + entry.amount
            &&& escrow1.solend_c_token_balance == escrow0.solend_c_token_balance
            &&& paid == 0
        } {
        let (m, entry) = choose|m: int, entry: MemberContribution|
            {
                &&& 0 <= m
                &&& #[trigger] months_record(before, after, m, entry)
                &&& circle1.total_pot == circle0.total_pot + entry.amount
                &&& escrow1.solend_c_token_balance == escrow0.solend_c_token_balance
                &&& paid == 0
            };
        lemma_months_record_distributed(before, after, m, entry);
    } else {
        let m = choose|m: int|
            {
                &&& #[trigger] months_distribute(before, after, m)
                &&& paid == before[m].total_collected
                &&& circle1.total_pot == circle0.total_pot - paid
                &&& escrow1.solend_c_token_balance == escrow0.solend_c_token_balance
            };
        lemma_months_distribute_totals(before, after, m);
    }
}

proof fn lemma_pot_at(
    circles: Seq<Circle>,
    escrows: Seq<CircleEscrow>,
    paid: Seq<int>,
    start: int,
    i: int,
)
    requires
        circles.len() == escrows.len(),
        circles.len() == paid.len() + 1,
        pot_accounts_for(&circles[0], &escrows[0], start),
        forall|k: int| 0 <= k < paid.len() ==> #[trigger] step_at(circles, escrows, paid, k),
        0 <= i < circles.len(),
    ensures
        pot_accounts_for(&circles[i], &escrows[i], start + paid_before(paid, i)),
    decreases i,
{
    if i > 0 {
        lemma_pot_at(circles, escrows, paid, start, i - 1);
        assert(step_at(circles, escrows, paid, i - 1));
        lemma_step_keeps_account(
            &circles[i - 1],
            &escrows[i - 1],
            &circles[i],
            &escrows[i],
            paid[i - 1],
            start + paid_before(paid, i - 1),
        );
    }
}

/// Along every history of a circle and its escrow that proceeds by ledger
/// steps, the pot is at every point the sum of all payments recorded so
/// far, less all that was paid out of the pot so far and less what stands
/// with the lending venue.
pub proof fn lemma_pot_is_payments_less_payouts(
    circles: Seq<Circle>,
    escrows: Seq<CircleEscrow>,
    paid: Seq<int>,
    start: int,
)
    requires
        circles.len() == escrows.len(),
        circles.len() == paid.len() + 1,
        pot_accounts_for(&circles[0], &escrows[0], start),
        forall|k: int| 0 <= k < paid.len() ==> #[trigger] step_at(circles, escrows, paid, k),
    ensures
        forall|i: int|
            0 <= i < circles.len() ==> pot_accounts_for(
                &#[trigger] circles[i],
                &escrows[i],
                start + paid_before(paid, i),
            ),
{
    assert forall|i: int| 0 <= i < circles.len() implies pot_accounts_for(
        &#[trigger] circles[i],
        &escrows[i],
        start + paid_before(paid, i),
    ) by {
        lemma_pot_at(circles, escrows, paid, start, i);
    }
}

} // verus!
