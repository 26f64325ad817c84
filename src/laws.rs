//! Properties that hold of every well-formed store. Every write of the store
//! requires and ensures well-formedness, so these hold in every state that
//! the store can reach.
use vstd::prelude::*;
use crate::model::{SaleLine, SaleRequest, StoreError};
use crate::store::{drawn, lemma_drawn_line, lines_valid, StoreView};

verus! {

/// Every batch holds a quantity that is not negative, a selling price that is
/// positive and at most its MRP, and a cost price that is not negative.
pub proof fn lemma_batch_invariants(s: StoreView)
    requires
        s.wf(),
    ensures
        forall|b: int|
            0 <= b < s.batches.len() ==> {
                let d = #[trigger] s.batches[b].details;
                &&& 0 <= d.quantity
                &&& 0 < d.selling_price <= d.mrp
                &&& 0 <= d.cost_price
            },
{
}

/// Every sale's grand total is its subtotal, less its discount, plus its
/// GST, and its GST is its CGST plus its SGST.
pub proof fn lemma_sale_totals(s: StoreView)
    requires
        s.wf(),
    ensures
        forall|i: int|
            0 <= i < s.sales.len() ==> {
                let sale = #[trigger] s.sales[i];
                &&& sale.grand_total == sale.subtotal - sale.discount + sale.total_gst
                &&& sale.total_gst == sale.total_cgst + sale.total_sgst
            },
{
}

/// Invoice numbers increase with the order of the sales, so no two sales
/// share one, and the next number to allocate is above all of them.
pub proof fn lemma_invoice_numbers_unique(s: StoreView)
    requires
        s.wf(),
    ensures
        forall|i: int, j: int|
            0 <= i < s.sales.len() && 0 <= j < s.sales.len() && i != j ==> #[trigger] s.sales[i].invoice_number
                != #[trigger] s.sales[j].invoice_number,
        forall|i: int, j: int|
            0 <= i < j < s.sales.len() ==> #[trigger] s.sales[i].invoice_number
                < #[trigger] s.sales[j].invoice_number,
        forall|i: int|
            0 <= i < s.sales.len() ==> #[trigger] s.sales[i].invoice_number
                < s.settings->Some_0.details.next_invoice_number,
{
    assert forall|i: int, j: int|
        0 <= i < s.sales.len() && 0 <= j < s.sales.len() && i != j implies #[trigger] s.sales[i].invoice_number
            != #[trigger] s.sales[j].invoice_number by {
        if i < j {
            assert(s.sales[i].invoice_number < s.sales[j].invoice_number);
        } else {
            assert(s.sales[j].invoice_number < s.sales[i].invoice_number);
        }
    }
}

/// A sale whose rows exist and whose lines are well formed, with a line
/// asking more than its batch holds, is refused for short stock.
pub proof fn lemma_short_stock_refused(
    s: StoreView,
    req: SaleRequest,
    lines: Seq<SaleLine>,
    k: int,
)
    requires
        s.wf(),
        s.sale_refs_ok(req, lines),
        lines_valid(lines),
        0 <= k < lines.len(),
        lines[k].quantity > s.batches[lines[k].batch_id as int].details.quantity,
    ensures
        s.sale_error(req, lines) == Some(StoreError::InsufficientStock),
{
    lemma_drawn_line(lines, k);
    assert(drawn(lines, lines[k].batch_id as int) > s.batches[lines[k].batch_id as int].details.quantity);
}

} // verus!
