//! The pharmacy data store: tables of entities, each write validated before
//! anything changes, so that a rejected write leaves the store as it was.
use vstd::prelude::*;
use crate::model::{
    Batch, BatchDetails, Customer, CustomerDetails, GstSlab, Medicine, MedicineDetails,
    PaymentDetails, PharmacySettings, Prescription, PrescriptionDetails, Role, Sale, SaleItem,
    SaleLine, SaleRequest, SettingsDetails, SettingsPatch, StoreError, Supplier, SupplierDetails,
    SupplierPayment, User,
};
use crate::tax::{half_tax, valid_rate_bp, compute_line, LineAmounts, MAX_PRICE_PAISE, MAX_QUANTITY};

verus! {

/// The store as a value: one sequence per table, row `i` having id `i`.
pub struct StoreView {
    pub users: Seq<User>,
    pub gst_slabs: Seq<GstSlab>,
    pub medicines: Seq<Medicine>,
    pub batches: Seq<Batch>,
    pub customers: Seq<Customer>,
    pub suppliers: Seq<Supplier>,
    pub supplier_payments: Seq<SupplierPayment>,
    pub sales: Seq<Sale>,
    pub sale_items: Seq<SaleItem>,
    pub prescriptions: Seq<Prescription>,
    pub settings: Option<PharmacySettings>,
}

/// The numeric invariants of a batch.
pub open spec fn batch_valid(d: BatchDetails) -> bool {
    &&& 0 <= d.quantity <= MAX_QUANTITY
    &&& 0 < d.selling_price <= d.mrp <= MAX_PRICE_PAISE
    &&& 0 <= d.cost_price <= MAX_PRICE_PAISE
}

/// The totals of a sale agree with one another.
pub open spec fn sale_totals_consistent(s: Sale) -> bool {
    &&& s.total_gst == s.total_cgst + s.total_sgst
    &&& s.grand_total == s.subtotal - s.discount + s.total_gst
}

/// The amounts of a sale line agree with one another.
pub open spec fn item_consistent(it: SaleItem) -> bool {
    &&& it.taxable == it.unit_price * it.quantity - it.discount
    &&& it.total == it.taxable + it.cgst + it.sgst
}

impl StoreView {
    pub open spec fn users_wf(self) -> bool {
        &&& forall|i: int| 0 <= i < self.users.len() ==> self.users[i].id == i
        &&& forall|i: int, j: int|
            0 <= i < j < self.users.len() ==> self.users[i].username@ != self.users[j].username@
    }

    pub open spec fn slabs_wf(self) -> bool {
        &&& forall|i: int|
            0 <= i < self.gst_slabs.len() ==> self.gst_slabs[i].id == i && valid_rate_bp(
                self.gst_slabs[i].rate_bp as int,
            )
        &&& forall|i: int, j: int|
            0 <= i < j < self.gst_slabs.len() ==> self.gst_slabs[i].rate_bp
                != self.gst_slabs[j].rate_bp
    }

    pub open spec fn medicines_wf(self) -> bool {
        forall|i: int|
            0 <= i < self.medicines.len() ==> self.medicines[i].id == i
                && self.medicines[i].details.gst_slab_id < self.gst_slabs.len()
    }

    pub open spec fn batches_wf(self) -> bool {
        forall|i: int|
            0 <= i < self.batches.len() ==> self.batches[i].id == i
                && self.batches[i].medicine_id < self.medicines.len()
                && batch_valid(self.batches[i].details)
    }

    pub open spec fn contacts_wf(self) -> bool {
        &&& forall|i: int| 0 <= i < self.customers.len() ==> self.customers[i].id == i
        &&& forall|i: int| 0 <= i < self.suppliers.len() ==> self.suppliers[i].id == i
        &&& forall|i: int|
            0 <= i < self.supplier_payments.len() ==> self.supplier_payments[i].id == i
                && self.supplier_payments[i].details.supplier_id < self.suppliers.len()
        &&& forall|i: int|
            0 <= i < self.prescriptions.len() ==> self.prescriptions[i].id == i
                && self.prescriptions[i].details.customer_id < self.customers.len()
                && (self.prescriptions[i].details.sale_id matches Some(s) ==> s < self.sales.len())
    }

    pub open spec fn sales_wf(self) -> bool {
        &&& forall|i: int|
            0 <= i < self.sales.len() ==> self.sales[i].id == i && self.sales[i].user_id
                < self.users.len() && (self.sales[i].customer_id matches Some(c) ==> c
                < self.customers.len()) && sale_totals_consistent(self.sales[i])
        &&& forall|i: int, j: int|
            0 <= i < j < self.sales.len() ==> self.sales[i].invoice_number
                < self.sales[j].invoice_number
        &&& forall|i: int|
            0 <= i < self.sales.len() ==> self.settings is Some && self.sales[i].invoice_number
                < self.settings->Some_0.details.next_invoice_number
    }

    /// A sale line names an existing sale and batch, the batch's medicine,
    /// and its amounts agree.
    pub open spec fn item_ok(self, it: SaleItem) -> bool {
        &&& it.sale_id < self.sales.len()
        &&& it.batch_id < self.batches.len()
        &&& it.medicine_id == self.batches[it.batch_id as int].medicine_id
        &&& item_consistent(it)
    }

    pub open spec fn items_wf(self) -> bool {
        forall|k: int|
            0 <= k < self.sale_items.len() ==> self.sale_items[k].id == k && self.item_ok(
                self.sale_items[k],
            )
    }

    /// Every invariant of the store: ids are positions, references point at
    /// existing rows, usernames and GST rates are unique, batches and sales
    /// hold their numeric invariants, and invoice numbers increase and stay
    /// below the next number to allocate.
    pub open spec fn wf(self) -> bool {
        &&& self.users_wf()
        &&& self.slabs_wf()
        &&& self.medicines_wf()
        &&& self.batches_wf()
        &&& self.contacts_wf()
        &&& self.sales_wf()
        &&& self.items_wf()
    }

    /// The slab rate of the medicine of batch `b`.
    pub open spec fn batch_rate(self, b: int) -> int {
        self.gst_slabs[self.medicines[self.batches[b].medicine_id as int].details.gst_slab_id as int].rate_bp as int
    }
}

/// The total quantity that `lines` draw from batch `b`.
pub open spec fn drawn(lines: Seq<SaleLine>, b: int) -> int
    decreases lines.len(),
{
    if lines.len() == 0 {
        0
    } else {
        drawn(lines.drop_last(), b) + if lines.last().batch_id == b {
            lines.last().quantity as int
        } else {
            0
        }
    }
}

/// Each line asks for a positive quantity and gives a discount that is not
/// negative, and there is at least one line.
pub open spec fn lines_valid(lines: Seq<SaleLine>) -> bool {
    &&& lines.len() > 0
    &&& forall|k: int| 0 <= k < lines.len() ==> lines[k].quantity > 0 && lines[k].discount >= 0
}

/// The sum of the discounts of `lines`.
pub open spec fn sum_discount(lines: Seq<SaleLine>) -> int
    decreases lines.len(),
{
    if lines.len() == 0 {
        0
    } else {
        sum_discount(lines.drop_last()) + lines.last().discount
    }
}

pub proof fn lemma_drawn_nonneg(lines: Seq<SaleLine>, b: int)
    requires
        forall|k: int| 0 <= k < lines.len() ==> lines[k].quantity > 0,
    ensures
        drawn(lines, b) >= 0,
    decreases lines.len(),
{
    if lines.len() > 0 {
        lemma_drawn_nonneg(lines.drop_last(), b);
    }
}

/// A batch gives at least what any one line asks of it.
pub proof fn lemma_drawn_line(lines: Seq<SaleLine>, k: int)
    requires
        0 <= k < lines.len(),
        forall|j: int| 0 <= j < lines.len() ==> lines[j].quantity > 0,
    ensures
        drawn(lines, lines[k].batch_id as int) >= lines[k].quantity,
    decreases lines.len(),
{
    let b = lines[k].batch_id as int;
    if k == lines.len() - 1 {
        lemma_drawn_nonneg(lines.drop_last(), b);
    } else {
        lemma_drawn_line(lines.drop_last(), k);
    }
}

/// A prefix of the lines draws no more than all of them.
pub proof fn lemma_drawn_prefix(lines: Seq<SaleLine>, b: int, j: int)
    requires
        0 <= j <= lines.len(),
        forall|k: int| 0 <= k < lines.len() ==> lines[k].quantity > 0,
    ensures
        drawn(lines.take(j), b) <= drawn(lines, b),
    decreases lines.len(),
{
    if j == lines.len() {
        assert(lines.take(j) =~= lines);
    } else {
        lemma_drawn_prefix(lines.drop_last(), b, j);
        assert(lines.drop_last().take(j) =~= lines.take(j));
    }
}

impl StoreView {
    /// Every row that a sale request names exists, and so does the settings
    /// record that numbers invoices.
    pub open spec fn sale_refs_ok(self, req: SaleRequest, lines: Seq<SaleLine>) -> bool {
        &&& self.settings is Some
        &&& req.user_id < self.users.len()
        &&& (req.customer_id matches Some(c) ==> c < self.customers.len())
        &&& forall|k: int| 0 <= k < lines.len() ==> lines[k].batch_id < self.batches.len()
    }

    /// Every batch holds at least what all the lines together draw from it.
    pub open spec fn stock_ok(self, lines: Seq<SaleLine>) -> bool {
        forall|k: int|
            0 <= k < lines.len() ==> drawn(lines, lines[k].batch_id as int)
                <= self.batches[lines[k].batch_id as int].details.quantity
    }

    /// The unit price of a line times its quantity.
    pub open spec fn line_gross(self, l: SaleLine) -> int {
        self.batches[l.batch_id as int].details.selling_price * l.quantity
    }

    /// The CGST of a line, which is also its SGST.
    pub open spec fn line_half_tax(self, l: SaleLine) -> int {
        half_tax(self.line_gross(l) - l.discount, self.batch_rate(l.batch_id as int))
    }

    pub open spec fn line_total(self, l: SaleLine) -> int {
        self.line_gross(l) - l.discount + 2 * self.line_half_tax(l)
    }

    /// No line's discount exceeds its gross amount.
    pub open spec fn discounts_ok(self, lines: Seq<SaleLine>) -> bool {
        forall|k: int| 0 <= k < lines.len() ==> lines[k].discount <= self.line_gross(lines[k])
    }

    pub open spec fn sum_gross(self, lines: Seq<SaleLine>) -> int
        decreases lines.len(),
    {
        if lines.len() == 0 {
            0
        } else {
            self.sum_gross(lines.drop_last()) + self.line_gross(lines.last())
        }
    }

    pub open spec fn sum_half_tax(self, lines: Seq<SaleLine>) -> int
        decreases lines.len(),
    {
        if lines.len() == 0 {
            0
        } else {
            self.sum_half_tax(lines.drop_last()) + self.line_half_tax(lines.last())
        }
    }

    pub open spec fn sum_total(self, lines: Seq<SaleLine>) -> int
        decreases lines.len(),
    {
        if lines.len() == 0 {
            0
        } else {
            self.sum_total(lines.drop_last()) + self.line_total(lines.last())
        }
    }

    /// The sale's totals fit the store's integers, and there are ids and an
    /// invoice number left for it.
    pub open spec fn sale_fits(self, lines: Seq<SaleLine>) -> bool {
        &&& self.sum_gross(lines) <= i64::MAX
        &&& self.sum_total(lines) <= i64::MAX
        &&& self.sale_items.len() + lines.len() <= u64::MAX
        &&& self.settings is Some && self.settings->Some_0.details.next_invoice_number < u64::MAX
    }

    /// The error that recording this sale meets, if any, checked in this
    /// order: missing rows, malformed lines, short stock, then discounts and
    /// totals out of range.
    pub open spec fn sale_error(self, req: SaleRequest, lines: Seq<SaleLine>) -> Option<StoreError> {
        if !self.sale_refs_ok(req, lines) {
            Some(StoreError::Referential)
        } else if !lines_valid(lines) {
            Some(StoreError::Validation)
        } else if !self.stock_ok(lines) {
            Some(StoreError::InsufficientStock)
        } else if !self.discounts_ok(lines) || !self.sale_fits(lines) {
            Some(StoreError::Validation)
        } else {
            None
        }
    }

    /// The recorded line for `l`, with id `id`, in sale `sale_id`.
    pub open spec fn item_of(self, sale_id: u64, id: int, l: SaleLine) -> SaleItem {
        let b = self.batches[l.batch_id as int];
        let half = (self.batch_rate(l.batch_id as int) / 2) as u32;
        SaleItem {
            id: id as u64,
            sale_id,
            batch_id: l.batch_id,
            medicine_id: b.medicine_id,
            quantity: l.quantity,
            unit_price: b.details.selling_price,
            discount: l.discount,
            taxable: (self.line_gross(l) - l.discount) as i64,
            cgst_rate_bp: half,
            cgst: self.line_half_tax(l) as i64,
            sgst_rate_bp: half,
            sgst: self.line_half_tax(l) as i64,
            total: self.line_total(l) as i64,
        }
    }

    /// Batch `b` after `lines` have drawn from it.
    pub open spec fn batch_after(self, lines: Seq<SaleLine>, b: int) -> Batch {
        let old_b = self.batches[b];
        Batch {
            details: BatchDetails {
                quantity: (old_b.details.quantity - drawn(lines, b)) as i64,
                ..old_b.details
            },
            ..old_b
        }
    }

    /// The sale row that recording `lines` for `req` at `now` writes.
    pub open spec fn sale_of(self, req: SaleRequest, lines: Seq<SaleLine>, now: u64) -> Sale {
        let st = self.settings->Some_0.details;
        Sale {
            id: self.sales.len() as u64,
            invoice_prefix: st.invoice_prefix,
            invoice_number: st.next_invoice_number,
            customer_id: req.customer_id,
            user_id: req.user_id,
            sale_time: now,
            subtotal: self.sum_gross(lines) as i64,
            discount: sum_discount(lines) as i64,
            total_cgst: self.sum_half_tax(lines) as i64,
            total_sgst: self.sum_half_tax(lines) as i64,
            total_gst: (2 * self.sum_half_tax(lines)) as i64,
            grand_total: self.sum_total(lines) as i64,
            payment_mode: req.payment_mode,
            notes: req.notes,
        }
    }
}

/// The sums of a sale's lines.
pub struct SaleTotals {
    pub subtotal: i64,
    pub discount: i64,
    pub half_tax: i64,
    pub grand_total: i64,
}

/// The totals of a sale's lines agree: the grand total is the subtotal,
/// less the discounts, plus both halves of the tax.
pub proof fn lemma_sale_sums(s: StoreView, lines: Seq<SaleLine>)
    ensures
        s.sum_total(lines) == s.sum_gross(lines) - sum_discount(lines) + 2 * s.sum_half_tax(lines),
    decreases lines.len(),
{
    if lines.len() > 0 {
        lemma_sale_sums(s, lines.drop_last());
    }
}

/// A batch that no line names gives nothing.
pub proof fn lemma_drawn_unnamed(lines: Seq<SaleLine>, b: int)
    requires
        forall|k: int| 0 <= k < lines.len() ==> lines[k].batch_id != b,
    ensures
        drawn(lines, b) == 0,
    decreases lines.len(),
{
    if lines.len() > 0 {
        lemma_drawn_unnamed(lines.drop_last(), b);
    }
}

/// When the stock suffices, every batch keeps a quantity between zero and
/// what it held.
pub proof fn lemma_stock_after(s: StoreView, lines: Seq<SaleLine>)
    requires
        s.wf(),
        lines_valid(lines),
        s.stock_ok(lines),
    ensures
        forall|b: int| 0 <= b < s.batches.len() ==> 0 <= #[trigger] drawn(lines, b) <= s.batches[b].details.quantity,
{
    assert forall|b: int| 0 <= b < s.batches.len() implies 0 <= #[trigger] drawn(lines, b) <= s.batches[b].details.quantity by {
        lemma_drawn_nonneg(lines, b);
        if exists|k: int| 0 <= k < lines.len() && lines[k].batch_id == b {
            let k = choose|k: int| 0 <= k < lines.len() && lines[k].batch_id == b;
            assert(drawn(lines, lines[k].batch_id as int) <= s.batches[lines[k].batch_id as int].details.quantity);
        } else {
            lemma_drawn_unnamed(lines, b);
        }
    }
}

/// The pharmacy data store.
pub struct Store {
    users: Vec<User>,
    gst_slabs: Vec<GstSlab>,
    medicines: Vec<Medicine>,
    batches: Vec<Batch>,
    customers: Vec<Customer>,
    suppliers: Vec<Supplier>,
    supplier_payments: Vec<SupplierPayment>,
    sales: Vec<Sale>,
    sale_items: Vec<SaleItem>,
    prescriptions: Vec<Prescription>,
    settings: Option<PharmacySettings>,
}

impl View for Store {
    type V = StoreView;

    closed spec fn view(&self) -> StoreView {
        StoreView {
            users: self.users@,
            gst_slabs: self.gst_slabs@,
            medicines: self.medicines@,
            batches: self.batches@,
            customers: self.customers@,
            suppliers: self.suppliers@,
            supplier_payments: self.supplier_payments@,
            sales: self.sales@,
            sale_items: self.sale_items@,
            prescriptions: self.prescriptions@,
            settings: self.settings,
        }
    }
}

impl Store {
    pub open spec fn wf(&self) -> bool {
        self@.wf()
    }

    /// An empty store, with no settings record yet.
    pub fn new() -> (r: Store)
        ensures
            r.wf(),
            r@.users.len() == 0,
            r@.gst_slabs.len() == 0,
            r@.medicines.len() == 0,
            r@.batches.len() == 0,
            r@.customers.len() == 0,
            r@.suppliers.len() == 0,
            r@.supplier_payments.len() == 0,
            r@.sales.len() == 0,
            r@.sale_items.len() == 0,
            r@.prescriptions.len() == 0,
            r@.settings is None,
    {
        Store {
            users: Vec::new(),
            gst_slabs: Vec::new(),
            medicines: Vec::new(),
            batches: Vec::new(),
            customers: Vec::new(),
            suppliers: Vec::new(),
            supplier_payments: Vec::new(),
            sales: Vec::new(),
            sale_items: Vec::new(),
            prescriptions: Vec::new(),
            settings: None,
        }
    }

    /// Whether some user already has `username`.
    pub fn username_taken(&self, username: &String) -> (r: bool)
        ensures
            r == exists|i: int| 0 <= i < self@.users.len() && self@.users[i].username@ == username@,
    {
        let mut i: usize = 0;
        while i < self.users.len()
            invariant
                i <= self.users@.len(),
                forall|j: int| 0 <= j < i ==> self.users@[j].username@ != username@,
            decreases self.users.len() - i,
        {
            if self.users[i].username == *username {
                return true;
            }
            i += 1;
        }
        false
    }

    /// Adds a user. Fails with `Uniqueness` exactly when the username is
    /// taken.
    pub fn create_user(
        &mut self,
        username: String,
        password_hash: String,
        full_name: String,
        role: Role,
        now: u64,
    ) -> (r: Result<u64, StoreError>)
        requires
            old(self).wf(),
        ensures
            final(self).wf(),
            (exists|i: int|
                0 <= i < old(self)@.users.len() && old(self)@.users[i].username@ == username@)
                <==> r == Err::<u64, StoreError>(StoreError::Uniqueness),
            r is Ok || r == Err::<u64, StoreError>(StoreError::Uniqueness),
            r is Err ==> final(self)@ == old(self)@,
            r matches Ok(id) ==> id == old(self)@.users.len() && final(self)@ == (StoreView {
                users: old(self)@.users.push(
                    User {
                        id,
                        username,
                        password_hash,
                        full_name,
                        role,
                        is_active: true,
                        created_at: now,
                        updated_at: now,
                    },
                ),
                ..old(self)@
            }),
    {
        if self.username_taken(&username) {
            return Err(StoreError::Uniqueness);
        }
        let id = self.users.len() as u64;
        self.users.push(
            User {
                id,
                username,
                password_hash,
                full_name,
                role,
                is_active: true,
                created_at: now,
                updated_at: now,
            },
        );
        Ok(id)
    }

    /// Marks a user inactive. Users are never deleted, so the sales that
    /// name them stay as they were. Fails with `Referential` exactly when no
    /// user has that id.
    pub fn deactivate_user(&mut self, id: u64, now: u64) -> (r: Result<(), StoreError>)
        requires
            old(self).wf(),
        ensures
            final(self).wf(),
            r is Err <==> id >= old(self)@.users.len(),
            r is Err ==> r == Err::<(), StoreError>(StoreError::Referential) && final(self)@
                == old(self)@,
            r is Ok ==> final(self)@ == (StoreView {
                users: old(self)@.users.update(
                    id as int,
                    User { is_active: false, updated_at: now, ..old(self)@.users[id as int] },
                ),
                ..old(self)@
            }),
            final(self)@.sales == old(self)@.sales,
    {
        if id >= self.users.len() as u64 {
            return Err(StoreError::Referential);
        }
        let i = id as usize;
        self.users[i].is_active = false;
        self.users[i].updated_at = now;
        assert(self@.users =~= old(self)@.users.update(
            id as int,
            User { is_active: false, updated_at: now, ..old(self)@.users[id as int] },
        ));
        Ok(())
    }
}

/// Whether `lines` is non-empty and each line asks for a positive quantity
/// with a discount that is not negative.
pub fn lines_well_formed(lines: &Vec<SaleLine>) -> (r: bool)
    ensures
        r == lines_valid(lines@),
{
    if lines.len() == 0 {
        return false;
    }
    let mut k: usize = 0;
    while k < lines.len()
        invariant
            k <= lines@.len(),
            forall|j: int| 0 <= j < k ==> lines@[j].quantity > 0 && lines@[j].discount >= 0,
        decreases lines.len() - k,
    {
        if lines[k].quantity <= 0 || lines[k].discount < 0 {
            return false;
        }
        k += 1;
    }
    true
}

impl Store {
    /// Whether every row that the sale names exists.
    fn sale_refs_exist(&self, req: &SaleRequest, lines: &Vec<SaleLine>) -> (r: bool)
        ensures
            r == self@.sale_refs_ok(*req, lines@),
    {
        if self.settings.is_none() || req.user_id >= self.users.len() as u64 {
            return false;
        }
        match req.customer_id {
            Some(c) => {
                if c >= self.customers.len() as u64 {
                    return false;
                }
            },
            None => {},
        }
        let mut k: usize = 0;
        while k < lines.len()
            invariant
                k <= lines@.len(),
                forall|j: int| 0 <= j < k ==> lines@[j].batch_id < self@.batches.len(),
            decreases lines.len() - k,
        {
            if lines[k].batch_id >= self.batches.len() as u64 {
                return false;
            }
            k += 1;
        }
        true
    }

    /// Whether every batch holds what all the lines together draw from it.
    fn stock_sufficient(&self, lines: &Vec<SaleLine>) -> (r: bool)
        requires
            self.wf(),
            forall|k: int| 0 <= k < lines@.len() ==> lines@[k].batch_id < self@.batches.len(),
            lines_valid(lines@),
        ensures
            r == self@.stock_ok(lines@),
    {
        let mut k: usize = 0;
        while k < lines.len()
            invariant
                self.wf(),
                forall|k: int| 0 <= k < lines@.len() ==> lines@[k].batch_id < self@.batches.len(),
                lines_valid(lines@),
                k <= lines@.len(),
                forall|j: int|
                    0 <= j < k ==> drawn(lines@, lines@[j].batch_id as int)
                        <= self@.batches[lines@[j].batch_id as int].details.quantity,
            decreases lines.len() - k,
        {
            let b = lines[k].batch_id;
            let nb: usize = self.batches.len();
            assert(lines@[k as int].batch_id < nb);
            let avail: i64 = self.batches[b as usize].details.quantity;
            let mut acc: i64 = 0;
            let mut j: usize = 0;
            while j < lines.len()
                invariant
                    self.wf(),
                    forall|k: int| 0 <= k < lines@.len() ==> lines@[k].batch_id < self@.batches.len(),
                    lines_valid(lines@),
                    k < lines@.len(),
                    b == lines@[k as int].batch_id,
                    avail == self@.batches[b as int].details.quantity,
                    j <= lines@.len(),
                    acc == drawn(lines@.take(j as int), b as int),
                    0 <= acc <= avail,
                decreases lines.len() - j,
            {
                proof {
                    assert(lines@.take(j + 1).drop_last() =~= lines@.take(j as int));
                }
                if lines[j].batch_id == b {
                    if lines[j].quantity > avail - acc {
                        proof {
                            lemma_drawn_prefix(lines@, b as int, j + 1);
                        }
                        return false;
                    }
                    acc = acc + lines[j].quantity;
                }
                j += 1;
            }
            proof {
                assert(lines@.take(lines@.len() as int) =~= lines@);
            }
            k += 1;
        }
        true
    }

    /// Prices every line and sums the sale's totals. Fails with
    /// `Validation` exactly when a discount exceeds its line's gross amount
    /// or a total does not fit.
    fn price_lines(&self, lines: &Vec<SaleLine>, sale_id: u64) -> (r: Result<
        (Vec<SaleItem>, SaleTotals),
        StoreError,
    >)
        requires
            self.wf(),
            forall|k: int| 0 <= k < lines@.len() ==> lines@[k].batch_id < self@.batches.len(),
            lines_valid(lines@),
            self@.stock_ok(lines@),
            self@.sale_items.len() + lines@.len() <= u64::MAX,
        ensures
            r is Ok <==> self@.discounts_ok(lines@) && self@.sum_gross(lines@) <= i64::MAX
                && self@.sum_total(lines@) <= i64::MAX,
            r is Err ==> r == Err::<(Vec<SaleItem>, SaleTotals), StoreError>(StoreError::Validation),
            r matches Ok((items, t)) ==> {
                &&& items@.len() == lines@.len()
                &&& forall|k: int|
                    0 <= k < lines@.len() ==> items@[k] == self@.item_of(
                        sale_id,
                        self@.sale_items.len() + k,
                        lines@[k],
                    )
                &&& forall|k: int| 0 <= k < lines@.len() ==> item_consistent(#[trigger] items@[k])
                &&& t.subtotal == self@.sum_gross(lines@)
                &&& t.discount == sum_discount(lines@)
                &&& t.half_tax == self@.sum_half_tax(lines@)
                &&& t.grand_total == self@.sum_total(lines@)
                &&& 0 <= t.half_tax <= t.subtotal
                &&& 0 <= t.discount <= t.subtotal
            },
    {
        let base: u64 = self.sale_items.len() as u64;
        let mut items: Vec<SaleItem> = Vec::new();
        let mut g: i128 = 0;
        let mut d: i128 = 0;
        let mut h: i128 = 0;
        let mut t: i128 = 0;
        let mut k: usize = 0;
        while k < lines.len()
            invariant
                self.wf(),
                forall|k: int| 0 <= k < lines@.len() ==> lines@[k].batch_id < self@.batches.len(),
                lines_valid(lines@),
                self@.stock_ok(lines@),
                self@.sale_items.len() + lines@.len() <= u64::MAX,
                base == self@.sale_items.len(),
                k <= lines@.len(),
                items@.len() == k,
                forall|j: int|
                    0 <= j < k ==> items@[j] == self@.item_of(sale_id, base + j, lines@[j]),
                forall|j: int| 0 <= j < k ==> lines@[j].discount <= self@.line_gross(lines@[j]),
                forall|j: int| 0 <= j < k ==> item_consistent(#[trigger] items@[j]),
                g == self@.sum_gross(lines@.take(k as int)),
                d == sum_discount(lines@.take(k as int)),
                h == self@.sum_half_tax(lines@.take(k as int)),
                t == self@.sum_total(lines@.take(k as int)),
                0 <= d <= g,
                0 <= h <= g,
                0 <= t <= 3 * g,
                g <= k * 1000000000000000000,
            decreases lines.len() - k,
        {
            let line = lines[k];
            let nb: usize = self.batches.len();
            assert(lines@[k as int].batch_id < nb);
            let bi = line.batch_id as usize;
            let price: i64 = self.batches[bi].details.selling_price;
            let nm: usize = self.medicines.len();
            let ns: usize = self.gst_slabs.len();
            assert(self@.batches[bi as int].medicine_id < nm);
            let mi = self.batches[bi].medicine_id as usize;
            assert(self@.medicines[mi as int].details.gst_slab_id < ns);
            let si = self.medicines[mi].details.gst_slab_id as usize;
            let rate: u32 = self.gst_slabs[si].rate_bp;
            proof {
                lemma_drawn_line(lines@, k as int);
                assert(0 < price * line.quantity <= 1000000000000000000) by (nonlinear_arith)
                    requires
                        0 < price <= MAX_PRICE_PAISE,
                        0 < line.quantity <= MAX_QUANTITY,
                ;
                assert(lines@.take(k + 1).drop_last() =~= lines@.take(k as int));
            }
            let gross: i64 = price * line.quantity;
            if line.discount > gross {
                return Err(StoreError::Validation);
            }
            let a: LineAmounts = compute_line(price, line.quantity, line.discount, rate);
            proof {
                crate::tax::lemma_half_tax_bounds(a.taxable as int, rate as int);
            }
            items.push(
                SaleItem {
                    id: base + k as u64,
                    sale_id,
                    batch_id: line.batch_id,
                    medicine_id: self.batches[bi].medicine_id,
                    quantity: line.quantity,
                    unit_price: price,
                    discount: line.discount,
                    taxable: a.taxable,
                    cgst_rate_bp: a.cgst_rate_bp,
                    cgst: a.cgst,
                    sgst_rate_bp: a.sgst_rate_bp,
                    sgst: a.sgst,
                    total: a.total,
                },
            );
            g = g + a.gross as i128;
            d = d + a.discount as i128;
            h = h + a.cgst as i128;
            t = t + a.total as i128;
            k += 1;
        }
        proof {
            assert(lines@.take(lines@.len() as int) =~= lines@);
        }
        if g > i64::MAX as i128 || t > i64::MAX as i128 {
            return Err(StoreError::Validation);
        }
        Ok(
            (
                items,
                SaleTotals {
                    subtotal: g as i64,
                    discount: d as i64,
                    half_tax: h as i64,
                    grand_total: t as i64,
                },
            ),
        )
    }

    /// Takes from each batch what the lines draw from it.
    fn draw_stock(&mut self, lines: &Vec<SaleLine>)
        requires
            old(self).wf(),
            forall|k: int| 0 <= k < lines@.len() ==> lines@[k].batch_id < old(self)@.batches.len(),
            lines_valid(lines@),
            old(self)@.stock_ok(lines@),
        ensures
            final(self)@ == (StoreView {
                batches: Seq::new(
                    old(self)@.batches.len(),
                    |b: int| old(self)@.batch_after(lines@, b),
                ),
                ..old(self)@
            }),
    {
        let ghost o = self@;
        let mut k: usize = 0;
        assert forall|b: int| 0 <= b < o.batches.len() implies drawn(lines@.take(0), b) == 0 by {}
        while k < lines.len()
            invariant
                o == old(self)@,
                o.wf(),
                forall|k: int| 0 <= k < lines@.len() ==> lines@[k].batch_id < o.batches.len(),
                lines_valid(lines@),
                o.stock_ok(lines@),
                k <= lines@.len(),
                self@ == (StoreView { batches: self@.batches, ..o }),
                self@.batches.len() == o.batches.len(),
                forall|b: int|
                    0 <= b < o.batches.len() ==> self@.batches[b] == (Batch {
                        details: BatchDetails {
                            quantity: self@.batches[b].details.quantity,
                            ..o.batches[b].details
                        },
                        ..o.batches[b]
                    }),
                forall|b: int|
                    0 <= b < o.batches.len() ==> self@.batches[b].details.quantity
                        == o.batches[b].details.quantity - drawn(lines@.take(k as int), b),
            decreases lines.len() - k,
        {
            let nb: usize = self.batches.len();
            assert(lines@[k as int].batch_id < nb);
            let bi = lines[k].batch_id as usize;
            let q = lines[k].quantity;
            proof {
                assert(lines@.take(k + 1).drop_last() =~= lines@.take(k as int));
                lemma_drawn_prefix(lines@, bi as int, k + 1);
            }
            assert(drawn(lines@, bi as int) <= o.batches[bi as int].details.quantity);
            assert(lines@.take(k + 1).last() == lines@[k as int]);
            proof {
                assert forall|b: int| 0 <= b < o.batches.len() implies drawn(lines@.take(k + 1), b)
                    == drawn(lines@.take(k as int), b) + if lines@[k as int].batch_id == b {
                    q as int
                } else {
                    0
                } by {
                    assert(lines@.take(k + 1).drop_last() =~= lines@.take(k as int));
                }
            }
            assert(drawn(lines@.take(k + 1), bi as int) == drawn(lines@.take(k as int), bi as int)
                + q);
            assert(self@.batches[bi as int].details.quantity == o.batches[bi as int].details.quantity
                - drawn(lines@.take(k as int), bi as int));
            let ghost before = self@.batches;
            let cur: i64 = self.batches[bi].details.quantity;
            self.batches[bi].details.quantity = cur - q;
            proof {
                assert forall|b: int| 0 <= b < o.batches.len() implies self@.batches[b].details.quantity
                    == o.batches[b].details.quantity - drawn(lines@.take(k + 1), b) by {
                    assert(before[b].details.quantity == o.batches[b].details.quantity - drawn(
                        lines@.take(k as int),
                        b,
                    ));
                    assert(drawn(lines@.take(k + 1), b) == drawn(lines@.take(k as int), b)
                        + if lines@[k as int].batch_id == b {
                        q as int
                    } else {
                        0
                    });
                    if b != bi as int {
                        assert(self@.batches[b] == before[b]);
                    }
                }
            }
            k += 1;
        }
        proof {
            assert(lines@.take(lines@.len() as int) =~= lines@);
            assert(self@.batches =~= Seq::new(o.batches.len(), |b: int| o.batch_after(lines@, b)));
            assert(self@ =~= (StoreView {
                batches: Seq::new(o.batches.len(), |b: int| o.batch_after(lines@, b)),
                ..o
            }));
        }
    }
}

impl Store {
    /// Records a sale as one all-or-nothing write: allocates the next
    /// invoice number, writes the sale and one line per request line, takes
    /// the sold quantities from the batches and advances the invoice counter.
    /// On any error nothing changes; the error is `sale_error`.
    pub fn record_sale(&mut self, req: SaleRequest, lines: Vec<SaleLine>, now: u64) -> (r: Result<
        u64,
        StoreError,
    >)
        requires
            old(self).wf(),
        ensures
            final(self).wf(),
            r is Ok <==> old(self)@.sale_error(req, lines@) is None,
            r matches Err(e) ==> old(self)@.sale_error(req, lines@) == Some(e) && final(self)@
                == old(self)@,
            r matches Ok(id) ==> id == old(self)@.sales.len() && final(self)@ == (StoreView {
                batches: Seq::new(
                    old(self)@.batches.len(),
                    |b: int| old(self)@.batch_after(lines@, b),
                ),
                sales: old(self)@.sales.push(old(self)@.sale_of(req, lines@, now)),
                sale_items: old(self)@.sale_items + Seq::new(
                    lines@.len(),
                    |k: int| old(self)@.item_of(id, old(self)@.sale_items.len() + k, lines@[k]),
                ),
                settings: Some(
                    PharmacySettings {
                        details: SettingsDetails {
                            next_invoice_number: (old(
                                self,
                            )@.settings->Some_0.details.next_invoice_number + 1) as u64,
                            ..old(self)@.settings->Some_0.details
                        },
                        updated_at: now,
                        ..old(self)@.settings->Some_0
                    },
                ),
                ..old(self)@
            }),
    {
        if !self.sale_refs_exist(&req, &lines) {
            return Err(StoreError::Referential);
        }
        if !lines_well_formed(&lines) {
            return Err(StoreError::Validation);
        }
        if !self.stock_sufficient(&lines) {
            return Err(StoreError::InsufficientStock);
        }
        let (next, prefix) = match &self.settings {
            Some(st) => (st.details.next_invoice_number, st.details.invoice_prefix.clone()),
            None => {
                return Err(StoreError::Referential);
            },
        };
        let base: usize = self.sale_items.len();
        if next == u64::MAX || lines.len() as u64 > u64::MAX - base as u64 {
            return Err(StoreError::Validation);
        }
        let sale_id = self.sales.len() as u64;
        let (mut items, totals) = match self.price_lines(&lines, sale_id) {
            Ok(priced) => priced,
            Err(e) => {
                return Err(e);
            },
        };
        let ghost o = self@;
        proof {
            lemma_sale_sums(o, lines@);
            lemma_stock_after(o, lines@);
        }
        self.draw_stock(&lines);
        self.sales.push(
            Sale {
                id: sale_id,
                invoice_prefix: prefix,
                invoice_number: next,
                customer_id: req.customer_id,
                user_id: req.user_id,
                sale_time: now,
                subtotal: totals.subtotal,
                discount: totals.discount,
                total_cgst: totals.half_tax,
                total_sgst: totals.half_tax,
                total_gst: totals.half_tax + totals.half_tax,
                grand_total: totals.grand_total,
                payment_mode: req.payment_mode,
                notes: req.notes,
            },
        );
        self.sale_items.append(&mut items);
        match &mut self.settings {
            Some(st) => {
                st.details.next_invoice_number = next + 1;
                st.updated_at = now;
            },
            None => {},
        }
        proof {
            assert(self@.sale_items =~= o.sale_items + Seq::new(
                lines@.len(),
                |k: int| o.item_of(sale_id, o.sale_items.len() + k, lines@[k]),
            ));
            assert(self@.users_wf());
            assert(self@.slabs_wf());
            assert(self@.medicines_wf());
            assert(self@.batches_wf());
            assert(self@.contacts_wf());
            assert(self@.sales_wf());
            assert(self@.items_wf());
        }
        Ok(sale_id)
    }
}

/// The settings after `p` is applied to `d`.
pub open spec fn patched(d: SettingsDetails, p: SettingsPatch) -> SettingsDetails {
    SettingsDetails {
        name: if let Some(v) = p.name { v } else { d.name },
        address: if let Some(v) = p.address { v } else { d.address },
        phone: if let Some(v) = p.phone { v } else { d.phone },
        email: if let Some(v) = p.email { v } else { d.email },
        gstin: if let Some(v) = p.gstin { v } else { d.gstin },
        drug_license_no: if let Some(v) = p.drug_license_no { v } else { d.drug_license_no },
        state_code: if let Some(v) = p.state_code { v } else { d.state_code },
        invoice_prefix: if let Some(v) = p.invoice_prefix { v } else { d.invoice_prefix },
        next_invoice_number: if let Some(v) = p.next_invoice_number {
            v
        } else {
            d.next_invoice_number
        },
        low_stock_threshold: if let Some(v) = p.low_stock_threshold {
            v
        } else {
            d.low_stock_threshold
        },
        near_expiry_days: if let Some(v) = p.near_expiry_days { v } else { d.near_expiry_days },
    }
}

/// `r` lists, in increasing order, exactly the ids below `n` that satisfy
/// `p`.
pub open spec fn lists_exactly(r: Seq<u64>, n: int, p: spec_fn(int) -> bool) -> bool {
    &&& forall|i: int, j: int| 0 <= i < j < r.len() ==> r[i] < r[j]
    &&& forall|i: int| 0 <= i < r.len() ==> r[i] < n && p(r[i] as int)
    &&& forall|id: int| 0 <= id < n && #[trigger] p(id) ==> r.contains(id as u64)
}

/// One more id considered: it is listed if and only if it satisfies `p`.
pub proof fn lemma_lists_step(r: Seq<u64>, i: int, p: spec_fn(int) -> bool)
    requires
        lists_exactly(r, i, p),
        0 <= i < u64::MAX,
    ensures
        p(i) ==> lists_exactly(r.push(i as u64), i + 1, p),
        !p(i) ==> lists_exactly(r, i + 1, p),
{
    if p(i) {
        let r2 = r.push(i as u64);
        assert(r2[r.len() as int] == i as u64);
        assert forall|id: int| 0 <= id < i + 1 && #[trigger] p(id) implies r2.contains(id as u64) by {
            if id < i {
                let k = choose|k: int| 0 <= k < r.len() && r[k] == id as u64;
                assert(r2[k] == id as u64);
            } else {
                assert(r2[r.len() as int] == id as u64);
            }
        }
    } else {
        assert forall|id: int| 0 <= id < i + 1 && #[trigger] p(id) implies r.contains(id as u64) by {
            assert(id < i);
        }
    }
}

impl Store {
    /// Adds a GST slab. Fails with `Validation` when the rate is not a valid
    /// slab rate, else with `Uniqueness` exactly when a slab has that rate.
    pub fn create_gst_slab(&mut self, rate_bp: u32, description: String) -> (r: Result<
        u64,
        StoreError,
    >)
        requires
            old(self).wf(),
        ensures
            final(self).wf(),
            !valid_rate_bp(rate_bp as int) ==> r == Err::<u64, StoreError>(StoreError::Validation),
            valid_rate_bp(rate_bp as int) ==> ((exists|i: int|
                0 <= i < old(self)@.gst_slabs.len() && old(self)@.gst_slabs[i].rate_bp == rate_bp)
                <==> r == Err::<u64, StoreError>(StoreError::Uniqueness)),
            valid_rate_bp(rate_bp as int) ==> r is Ok || r == Err::<u64, StoreError>(
                StoreError::Uniqueness,
            ),
            r is Err ==> final(self)@ == old(self)@,
            r matches Ok(id) ==> id == old(self)@.gst_slabs.len() && final(self)@ == (StoreView {
                gst_slabs: old(self)@.gst_slabs.push(GstSlab { id, rate_bp, description }),
                ..old(self)@
            }),
    {
        if rate_bp > 10000 || rate_bp % 2 != 0 {
            return Err(StoreError::Validation);
        }
        let mut i: usize = 0;
        while i < self.gst_slabs.len()
            invariant
                self@ == old(self)@,
                old(self).wf(),
                valid_rate_bp(rate_bp as int),
                i <= self.gst_slabs@.len(),
                forall|j: int| 0 <= j < i ==> self.gst_slabs@[j].rate_bp != rate_bp,
            decreases self.gst_slabs.len() - i,
        {
            if self.gst_slabs[i].rate_bp == rate_bp {
                return Err(StoreError::Uniqueness);
            }
            i += 1;
        }
        let id = self.gst_slabs.len() as u64;
        self.gst_slabs.push(GstSlab { id, rate_bp, description });
        Ok(id)
    }

    /// Adds a medicine. Fails with `Referential` exactly when its GST slab
    /// does not exist.
    pub fn create_medicine(&mut self, details: MedicineDetails, now: u64) -> (r: Result<
        u64,
        StoreError,
    >)
        requires
            old(self).wf(),
        ensures
            final(self).wf(),
            r is Err <==> details.gst_slab_id >= old(self)@.gst_slabs.len(),
            r is Err ==> r == Err::<u64, StoreError>(StoreError::Referential) && final(self)@
                == old(self)@,
            r matches Ok(id) ==> id == old(self)@.medicines.len() && final(self)@ == (StoreView {
                medicines: old(self)@.medicines.push(
                    Medicine { id, details, is_active: true, created_at: now, updated_at: now },
                ),
                ..old(self)@
            }),
    {
        if details.gst_slab_id >= self.gst_slabs.len() as u64 {
            return Err(StoreError::Referential);
        }
        let id = self.medicines.len() as u64;
        self.medicines.push(
            Medicine { id, details, is_active: true, created_at: now, updated_at: now },
        );
        Ok(id)
    }

    /// Marks a medicine inactive; it then receives no new batches. Fails
    /// with `Referential` exactly when no medicine has that id.
    pub fn deactivate_medicine(&mut self, id: u64, now: u64) -> (r: Result<(), StoreError>)
        requires
            old(self).wf(),
        ensures
            final(self).wf(),
            r is Err <==> id >= old(self)@.medicines.len(),
            r is Err ==> r == Err::<(), StoreError>(StoreError::Referential) && final(self)@
                == old(self)@,
            r is Ok ==> final(self)@ == (StoreView {
                medicines: old(self)@.medicines.update(
                    id as int,
                    Medicine { is_active: false, updated_at: now, ..old(self)@.medicines[id as int] },
                ),
                ..old(self)@
            }),
    {
        if id >= self.medicines.len() as u64 {
            return Err(StoreError::Referential);
        }
        let i = id as usize;
        self.medicines[i].is_active = false;
        self.medicines[i].updated_at = now;
        assert(self@.medicines =~= old(self)@.medicines.update(
            id as int,
            Medicine { is_active: false, updated_at: now, ..old(self)@.medicines[id as int] },
        ));
        Ok(())
    }

    /// Receives a batch of a medicine. Fails with `Referential` exactly when
    /// the medicine does not exist; otherwise with `Validation` exactly when
    /// the medicine is inactive or a price or the quantity is out of range.
    pub fn receive_batch(&mut self, medicine_id: u64, details: BatchDetails, now: u64) -> (r:
        Result<u64, StoreError>)
        requires
            old(self).wf(),
        ensures
            final(self).wf(),
            medicine_id >= old(self)@.medicines.len() ==> r == Err::<u64, StoreError>(
                StoreError::Referential,
            ),
            medicine_id < old(self)@.medicines.len() ==> ((!old(
                self,
            )@.medicines[medicine_id as int].is_active || !batch_valid(details)) <==> r
                == Err::<u64, StoreError>(StoreError::Validation)),
            medicine_id < old(self)@.medicines.len() ==> r is Ok || r == Err::<u64, StoreError>(
                StoreError::Validation,
            ),
            r is Err ==> final(self)@ == old(self)@,
            r matches Ok(id) ==> id == old(self)@.batches.len() && final(self)@ == (StoreView {
                batches: old(self)@.batches.push(
                    Batch { id, medicine_id, details, created_at: now },
                ),
                ..old(self)@
            }),
    {
        if medicine_id >= self.medicines.len() as u64 {
            return Err(StoreError::Referential);
        }
        if !self.medicines[medicine_id as usize].is_active {
            return Err(StoreError::Validation);
        }
        if details.selling_price > details.mrp || details.mrp <= 0 || details.selling_price <= 0
            || details.cost_price < 0 || details.quantity < 0 || details.mrp > MAX_PRICE_PAISE
            || details.cost_price > MAX_PRICE_PAISE || details.quantity > MAX_QUANTITY {
            return Err(StoreError::Validation);
        }
        let id = self.batches.len() as u64;
        self.batches.push(Batch { id, medicine_id, details, created_at: now });
        Ok(id)
    }

    /// Adds a customer.
    pub fn create_customer(&mut self, details: CustomerDetails, now: u64) -> (r: u64)
        requires
            old(self).wf(),
        ensures
            final(self).wf(),
            r == old(self)@.customers.len(),
            final(self)@ == (StoreView {
                customers: old(self)@.customers.push(
                    Customer { id: r, details, created_at: now, updated_at: now },
                ),
                ..old(self)@
            }),
    {
        let id = self.customers.len() as u64;
        self.customers.push(Customer { id, details, created_at: now, updated_at: now });
        id
    }

    /// Adds a supplier.
    pub fn create_supplier(&mut self, details: SupplierDetails, now: u64) -> (r: u64)
        requires
            old(self).wf(),
        ensures
            final(self).wf(),
            r == old(self)@.suppliers.len(),
            final(self)@ == (StoreView {
                suppliers: old(self)@.suppliers.push(
                    Supplier { id: r, details, created_at: now, updated_at: now },
                ),
                ..old(self)@
            }),
    {
        let id = self.suppliers.len() as u64;
        self.suppliers.push(Supplier { id, details, created_at: now, updated_at: now });
        id
    }

    /// Records a payment to a supplier. Fails with `Referential` exactly
    /// when the supplier does not exist.
    pub fn record_supplier_payment(&mut self, details: PaymentDetails, now: u64) -> (r: Result<
        u64,
        StoreError,
    >)
        requires
            old(self).wf(),
        ensures
            final(self).wf(),
            r is Err <==> details.supplier_id >= old(self)@.suppliers.len(),
            r is Err ==> r == Err::<u64, StoreError>(StoreError::Referential) && final(self)@
                == old(self)@,
            r matches Ok(id) ==> id == old(self)@.supplier_payments.len() && final(self)@ == (
            StoreView {
                supplier_payments: old(self)@.supplier_payments.push(
                    SupplierPayment { id, details, created_at: now },
                ),
                ..old(self)@
            }),
    {
        if details.supplier_id >= self.suppliers.len() as u64 {
            return Err(StoreError::Referential);
        }
        let id = self.supplier_payments.len() as u64;
        self.supplier_payments.push(SupplierPayment { id, details, created_at: now });
        Ok(id)
    }

    /// Records a prescription. Fails with `Referential` exactly when its
    /// customer, or the sale it names, does not exist.
    pub fn create_prescription(&mut self, details: PrescriptionDetails, now: u64) -> (r: Result<
        u64,
        StoreError,
    >)
        requires
            old(self).wf(),
        ensures
            final(self).wf(),
            r is Err <==> details.customer_id >= old(self)@.customers.len() || (
            details.sale_id matches Some(s) && s >= old(self)@.sales.len()),
            r is Err ==> r == Err::<u64, StoreError>(StoreError::Referential) && final(self)@
                == old(self)@,
            r matches Ok(id) ==> id == old(self)@.prescriptions.len() && final(self)@ == (
            StoreView {
                prescriptions: old(self)@.prescriptions.push(
                    Prescription { id, details, created_at: now },
                ),
                ..old(self)@
            }),
    {
        if details.customer_id >= self.customers.len() as u64 {
            return Err(StoreError::Referential);
        }
        match details.sale_id {
            Some(s) => {
                if s >= self.sales.len() as u64 {
                    return Err(StoreError::Referential);
                }
            },
            None => {},
        }
        let id = self.prescriptions.len() as u64;
        self.prescriptions.push(Prescription { id, details, created_at: now });
        Ok(id)
    }

    /// Creates the settings record. Fails with `Uniqueness` exactly when it
    /// already exists: there is only ever one.
    pub fn create_settings(&mut self, details: SettingsDetails, now: u64) -> (r: Result<
        (),
        StoreError,
    >)
        requires
            old(self).wf(),
        ensures
            final(self).wf(),
            r is Err <==> old(self)@.settings is Some,
            r is Err ==> r == Err::<(), StoreError>(StoreError::Uniqueness) && final(self)@
                == old(self)@,
            r is Ok ==> final(self)@ == (StoreView {
                settings: Some(PharmacySettings { details, created_at: now, updated_at: now }),
                ..old(self)@
            }),
    {
        if self.settings.is_some() {
            return Err(StoreError::Uniqueness);
        }
        self.settings = Some(PharmacySettings { details, created_at: now, updated_at: now });
        Ok(())
    }

    /// Applies a patch to the settings record. Fails with `Referential`
    /// exactly when there is no settings record; otherwise with `Validation`
    /// exactly when the patch would move the invoice counter back, which
    /// could hand out an invoice number twice.
    pub fn update_settings(&mut self, patch: SettingsPatch, now: u64) -> (r: Result<
        (),
        StoreError,
    >)
        requires
            old(self).wf(),
        ensures
            final(self).wf(),
            old(self)@.settings is None ==> r == Err::<(), StoreError>(StoreError::Referential),
            old(self)@.settings is Some ==> ((patch.next_invoice_number matches Some(n) && n < old(
                self,
            )@.settings->Some_0.details.next_invoice_number) <==> r == Err::<(), StoreError>(
                StoreError::Validation,
            )),
            old(self)@.settings is Some ==> r is Ok || r == Err::<(), StoreError>(
                StoreError::Validation,
            ),
            r is Err ==> final(self)@ == old(self)@,
            r is Ok ==> final(self)@ == (StoreView {
                settings: Some(
                    PharmacySettings {
                        details: patched(old(self)@.settings->Some_0.details, patch),
                        updated_at: now,
                        ..old(self)@.settings->Some_0
                    },
                ),
                ..old(self)@
            }),
    {
        let cur = match &self.settings {
            Some(st) => st.details.next_invoice_number,
            None => {
                return Err(StoreError::Referential);
            },
        };
        match patch.next_invoice_number {
            Some(n) => {
                if n < cur {
                    return Err(StoreError::Validation);
                }
            },
            None => {},
        }
        match &mut self.settings {
            Some(st) => {
                if let Some(v) = patch.name {
                    st.details.name = v;
                }
                if let Some(v) = patch.address {
                    st.details.address = v;
                }
                if let Some(v) = patch.phone {
                    st.details.phone = v;
                }
                if let Some(v) = patch.email {
                    st.details.email = v;
                }
                if let Some(v) = patch.gstin {
                    st.details.gstin = v;
                }
                if let Some(v) = patch.drug_license_no {
                    st.details.drug_license_no = v;
                }
                if let Some(v) = patch.state_code {
                    st.details.state_code = v;
                }
                if let Some(v) = patch.invoice_prefix {
                    st.details.invoice_prefix = v;
                }
                if let Some(v) = patch.next_invoice_number {
                    st.details.next_invoice_number = v;
                }
                if let Some(v) = patch.low_stock_threshold {
                    st.details.low_stock_threshold = v;
                }
                if let Some(v) = patch.near_expiry_days {
                    st.details.near_expiry_days = v;
                }
                st.updated_at = now;
            },
            None => {},
        }
        Ok(())
    }

    /// The ids of the medicines named `name`, in increasing order.
    pub fn medicines_named(&self, name: &String) -> (r: Vec<u64>)
        ensures
            lists_exactly(
                r@,
                self@.medicines.len() as int,
                |i: int| self@.medicines[i].details.name@ == name@,
            ),
    {
        let mut r: Vec<u64> = Vec::new();
        let mut i: usize = 0;
        while i < self.medicines.len()
            invariant
                i <= self.medicines@.len(),
                lists_exactly(r@, i as int, |j: int| self@.medicines[j].details.name@ == name@),
            decreases self.medicines.len() - i,
        {
            proof {
                lemma_lists_step(r@, i as int, |j: int| self@.medicines[j].details.name@ == name@);
            }
            if self.medicines[i].details.name == *name {
                r.push(i as u64);
            }
            i += 1;
        }
        r
    }

    /// The ids of the batches that expire from `first_day` to `last_day`,
    /// both included, in increasing order.
    pub fn batches_expiring_between(&self, first_day: u32, last_day: u32) -> (r: Vec<u64>)
        ensures
            lists_exactly(
                r@,
                self@.batches.len() as int,
                |i: int|
                    first_day <= self@.batches[i].details.expiry_day && self@.batches[i].details.expiry_day
                        <= last_day,
            ),
    {
        let mut r: Vec<u64> = Vec::new();
        let mut i: usize = 0;
        while i < self.batches.len()
            invariant
                i <= self.batches@.len(),
                lists_exactly(
                    r@,
                    i as int,
                    |j: int|
                        first_day <= self@.batches[j].details.expiry_day
                            && self@.batches[j].details.expiry_day <= last_day,
                ),
            decreases self.batches.len() - i,
        {
            proof {
                lemma_lists_step(
                    r@,
                    i as int,
                    |j: int|
                        first_day <= self@.batches[j].details.expiry_day
                            && self@.batches[j].details.expiry_day <= last_day,
                );
            }
            let e = self.batches[i].details.expiry_day;
            if first_day <= e && e <= last_day {
                r.push(i as u64);
            }
            i += 1;
        }
        r
    }

    /// The ids of the batches holding at most `threshold` units, in
    /// increasing order.
    pub fn low_stock_batches(&self, threshold: i64) -> (r: Vec<u64>)
        ensures
            lists_exactly(
                r@,
                self@.batches.len() as int,
                |i: int| self@.batches[i].details.quantity <= threshold,
            ),
    {
        let mut r: Vec<u64> = Vec::new();
        let mut i: usize = 0;
        while i < self.batches.len()
            invariant
                i <= self.batches@.len(),
                lists_exactly(r@, i as int, |j: int| self@.batches[j].details.quantity <= threshold),
            decreases self.batches.len() - i,
        {
            proof {
                lemma_lists_step(r@, i as int, |j: int| self@.batches[j].details.quantity <= threshold);
            }
            if self.batches[i].details.quantity <= threshold {
                r.push(i as u64);
            }
            i += 1;
        }
        r
    }
}

impl Store {
    /// A store holding the default data: the GST slabs of 0%, 5%, 12% and
    /// 18%, an administrator account whose password is meant to be changed,
    /// and the settings record numbering invoices from 1.
    pub fn with_defaults(now: u64) -> (r: Store)
        ensures
            r.wf(),
            r@.gst_slabs.len() == 4,
            r@.gst_slabs[0].rate_bp == 0,
            r@.gst_slabs[1].rate_bp == 500,
            r@.gst_slabs[2].rate_bp == 1200,
            r@.gst_slabs[3].rate_bp == 1800,
            r@.users.len() == 1,
            r@.users[0].username@ == "admin"@,
            r@.users[0].role == Role::Admin,
            r@.users[0].is_active,
            r@.medicines.len() == 0,
            r@.batches.len() == 0,
            r@.customers.len() == 0,
            r@.suppliers.len() == 0,
            r@.supplier_payments.len() == 0,
            r@.sales.len() == 0,
            r@.sale_items.len() == 0,
            r@.prescriptions.len() == 0,
            r@.settings is Some,
            r@.settings->Some_0.details.invoice_prefix@ == "INV"@,
            r@.settings->Some_0.details.next_invoice_number == 1,
            r@.settings->Some_0.details.low_stock_threshold == 20,
            r@.settings->Some_0.details.near_expiry_days == 90,
    {
        let mut s = Store::new();
        let r0 = s.create_gst_slab(0, String::from_str("GST Exempt (0%)"));
        assert(r0 is Ok);
        let r1 = s.create_gst_slab(500, String::from_str("GST 5%"));
        assert(s@.gst_slabs[0].rate_bp != 500);
        assert(r1 is Ok);
        let r2 = s.create_gst_slab(1200, String::from_str("GST 12%"));
        assert(s@.gst_slabs[0].rate_bp != 1200 && s@.gst_slabs[1].rate_bp != 1200);
        assert(r2 is Ok);
        let r3 = s.create_gst_slab(1800, String::from_str("GST 18%"));
        assert(s@.gst_slabs[0].rate_bp != 1800 && s@.gst_slabs[1].rate_bp != 1800
            && s@.gst_slabs[2].rate_bp != 1800);
        assert(r3 is Ok);
        let _ = s.create_user(
            String::from_str("admin"),
            String::from_str("$2a$10$N9qo8uLOickgx2ZMRZoMyeIjZAgcfl7p92ldGxad68LJZdL17lhWy"),
            String::from_str("Administrator"),
            Role::Admin,
            now,
        );
        let _ = s.create_settings(
            SettingsDetails {
                name: String::from_str("My Pharmacy"),
                address: String::from_str("123 Main Street"),
                phone: String::from_str("0000000000"),
                email: None,
                gstin: String::new(),
                drug_license_no: String::new(),
                state_code: String::new(),
                invoice_prefix: String::from_str("INV"),
                next_invoice_number: 1,
                low_stock_threshold: 20,
                near_expiry_days: 90,
            },
            now,
        );
        s
    }
}

impl Store {
    /// The user with id `id`, if there is one.
    pub fn user(&self, id: u64) -> (r: Option<&User>)
        ensures
            id < self@.users.len() ==> (r matches Some(x) && *x == self@.users[id as int]),
            id >= self@.users.len() ==> r is None,
    {
        if id < self.users.len() as u64 {
            Some(&self.users[id as usize])
        } else {
            None
        }
    }

    /// The number of rows in the user table.
    pub fn user_count(&self) -> (r: usize)
        ensures
            r == self@.users.len(),
    {
        self.users.len()
    }

    /// The gst slab with id `id`, if there is one.
    pub fn gst_slab(&self, id: u64) -> (r: Option<&GstSlab>)
        ensures
            id < self@.gst_slabs.len() ==> (r matches Some(x) && *x == self@.gst_slabs[id as int]),
            id >= self@.gst_slabs.len() ==> r is None,
    {
        if id < self.gst_slabs.len() as u64 {
            Some(&self.gst_slabs[id as usize])
        } else {
            None
        }
    }

    /// The number of rows in the gst slab table.
    pub fn gst_slab_count(&self) -> (r: usize)
        ensures
            r == self@.gst_slabs.len(),
    {
        self.gst_slabs.len()
    }

    /// The medicine with id `id`, if there is one.
    pub fn medicine(&self, id: u64) -> (r: Option<&Medicine>)
        ensures
            id < self@.medicines.len() ==> (r matches Some(x) && *x == self@.medicines[id as int]),
            id >= self@.medicines.len() ==> r is None,
    {
        if id < self.medicines.len() as u64 {
            Some(&self.medicines[id as usize])
        } else {
            None
        }
    }

    /// The number of rows in the medicine table.
    pub fn medicine_count(&self) -> (r: usize)
        ensures
            r == self@.medicines.len(),
    {
        self.medicines.len()
    }

    /// The batch with id `id`, if there is one.
    pub fn batch(&self, id: u64) -> (r: Option<&Batch>)
        ensures
            id < self@.batches.len() ==> (r matches Some(x) && *x == self@.batches[id as int]),
            id >= self@.batches.len() ==> r is None,
    {
        if id < self.batches.len() as u64 {
            Some(&self.batches[id as usize])
        } else {
            None
        }
    }

    /// The number of rows in the batch table.
    pub fn batch_count(&self) -> (r: usize)
        ensures
            r == self@.batches.len(),
    {
        self.batches.len()
    }

    /// The customer with id `id`, if there is one.
    pub fn customer(&self, id: u64) -> (r: Option<&Customer>)
        ensures
            id < self@.customers.len() ==> (r matches Some(x) && *x == self@.customers[id as int]),
            id >= self@.customers.len() ==> r is None,
    {
        if id < self.customers.len() as u64 {
            Some(&self.customers[id as usize])
        } else {
            None
        }
    }

    /// The number of rows in the customer table.
    pub fn customer_count(&self) -> (r: usize)
        ensures
            r == self@.customers.len(),
    {
        self.customers.len()
    }

    /// The supplier with id `id`, if there is one.
    pub fn supplier(&self, id: u64) -> (r: Option<&Supplier>)
        ensures
            id < self@.suppliers.len() ==> (r matches Some(x) && *x == self@.suppliers[id as int]),
            id >= self@.suppliers.len() ==> r is None,
    {
        if id < self.suppliers.len() as u64 {
            Some(&self.suppliers[id as usize])
        } else {
            None
        }
    }

    /// The number of rows in the supplier table.
    pub fn supplier_count(&self) -> (r: usize)
        ensures
            r == self@.suppliers.len(),
    {
        self.suppliers.len()
    }

    /// The supplier payment with id `id`, if there is one.
    pub fn supplier_payment(&self, id: u64) -> (r: Option<&SupplierPayment>)
        ensures
            id < self@.supplier_payments.len() ==> (r matches Some(x) && *x == self@.supplier_payments[id as int]),
            id >= self@.supplier_payments.len() ==> r is None,
    {
        if id < self.supplier_payments.len() as u64 {
            Some(&self.supplier_payments[id as usize])
        } else {
            None
        }
    }

    /// The number of rows in the supplier payment table.
    pub fn supplier_payment_count(&self) -> (r: usize)
        ensures
            r == self@.supplier_payments.len(),
    {
        self.supplier_payments.len()
    }

    /// The sale with id `id`, if there is one.
    pub fn sale(&self, id: u64) -> (r: Option<&Sale>)
        ensures
            id < self@.sales.len() ==> (r matches Some(x) && *x == self@.sales[id as int]),
            id >= self@.sales.len() ==> r is None,
    {
        if id < self.sales.len() as u64 {
            Some(&self.sales[id as usize])
        } else {
            None
        }
    }

    /// The number of rows in the sale table.
    pub fn sale_count(&self) -> (r: usize)
        ensures
            r == self@.sales.len(),
    {
        self.sales.len()
    }

    /// The sale item with id `id`, if there is one.
    pub fn sale_item(&self, id: u64) -> (r: Option<&SaleItem>)
        ensures
            id < self@.sale_items.len() ==> (r matches Some(x) && *x == self@.sale_items[id as int]),
            id >= self@.sale_items.len() ==> r is None,
    {
        if id < self.sale_items.len() as u64 {
            Some(&self.sale_items[id as usize])
        } else {
            None
        }
    }

    /// The number of rows in the sale item table.
    pub fn sale_item_count(&self) -> (r: usize)
        ensures
            r == self@.sale_items.len(),
    {
        self.sale_items.len()
    }

    /// The prescription with id `id`, if there is one.
    pub fn prescription(&self, id: u64) -> (r: Option<&Prescription>)
        ensures
            id < self@.prescriptions.len() ==> (r matches Some(x) && *x == self@.prescriptions[id as int]),
            id >= self@.prescriptions.len() ==> r is None,
    {
        if id < self.prescriptions.len() as u64 {
            Some(&self.prescriptions[id as usize])
        } else {
            None
        }
    }

    /// The number of rows in the prescription table.
    pub fn prescription_count(&self) -> (r: usize)
        ensures
            r == self@.prescriptions.len(),
    {
        self.prescriptions.len()
    }

    /// The settings record, if it has been created.
    pub fn settings(&self) -> (r: Option<&PharmacySettings>)
        ensures
            r is Some <==> self@.settings is Some,
            r matches Some(x) ==> *x == self@.settings->Some_0,
    {
        match &self.settings {
            Some(st) => Some(st),
            None => None,
        }
    }
}

} // verus!
