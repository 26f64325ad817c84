//! The ordered list of schema migrations and the version ledger that
//! decides which of them still have to run.
use vstd::prelude::*;
use crate::store::{lemma_lists_step, lists_exactly};

verus! {

/// Creates every table and index of the store.
pub const SCHEMA_SQL: &'static str = r#"
                PRAGMA journal_mode=WAL;
                PRAGMA foreign_keys=ON;

                CREATE TABLE IF NOT EXISTS users (
                    id INTEGER PRIMARY KEY AUTOINCREMENT,
                    username TEXT NOT NULL UNIQUE,
                    password_hash TEXT NOT NULL,
                    full_name TEXT NOT NULL,
                    role TEXT NOT NULL CHECK(role IN ('admin', 'pharmacist', 'cashier')),
                    is_active INTEGER NOT NULL DEFAULT 1,
                    created_at TEXT NOT NULL DEFAULT (datetime('now')),
                    updated_at TEXT NOT NULL DEFAULT (datetime('now'))
                );

                CREATE TABLE IF NOT EXISTS gst_slabs (
                    id INTEGER PRIMARY KEY AUTOINCREMENT,
                    rate REAL NOT NULL UNIQUE,
                    description TEXT NOT NULL
                );

                CREATE TABLE IF NOT EXISTS medicines (
                    id INTEGER PRIMARY KEY AUTOINCREMENT,
                    name TEXT NOT NULL,
                    generic_name TEXT,
                    brand_name TEXT,
                    manufacturer TEXT,
                    dosage_form TEXT NOT NULL DEFAULT 'tablet',
                    strength TEXT,
                    category TEXT,
                    hsn_code TEXT NOT NULL DEFAULT '3004',
                    gst_slab_id INTEGER NOT NULL,
                    reorder_level INTEGER NOT NULL DEFAULT 20,
                    is_active INTEGER NOT NULL DEFAULT 1,
                    created_at TEXT NOT NULL DEFAULT (datetime('now')),
                    updated_at TEXT NOT NULL DEFAULT (datetime('now')),
                    FOREIGN KEY (gst_slab_id) REFERENCES gst_slabs(id)
                );

                CREATE TABLE IF NOT EXISTS batches (
                    id INTEGER PRIMARY KEY AUTOINCREMENT,
                    medicine_id INTEGER NOT NULL,
                    batch_number TEXT NOT NULL,
                    expiry_date TEXT NOT NULL,
                    cost_price_paise INTEGER NOT NULL,
                    mrp_paise INTEGER NOT NULL,
                    selling_price_paise INTEGER NOT NULL,
                    quantity INTEGER NOT NULL DEFAULT 0,
                    manufacturing_date TEXT,
                    created_at TEXT NOT NULL DEFAULT (datetime('now')),
                    FOREIGN KEY (medicine_id) REFERENCES medicines(id),
                    CHECK (selling_price_paise <= mrp_paise),
                    CHECK (cost_price_paise >= 0),
                    CHECK (mrp_paise > 0),
                    CHECK (selling_price_paise > 0),
                    CHECK (quantity >= 0)
                );

                CREATE TABLE IF NOT EXISTS customers (
                    id INTEGER PRIMARY KEY AUTOINCREMENT,
                    name TEXT NOT NULL,
                    phone TEXT,
                    email TEXT,
                    address TEXT,
                    created_at TEXT NOT NULL DEFAULT (datetime('now')),
                    updated_at TEXT NOT NULL DEFAULT (datetime('now'))
                );

                CREATE TABLE IF NOT EXISTS suppliers (
                    id INTEGER PRIMARY KEY AUTOINCREMENT,
                    name TEXT NOT NULL,
                    phone TEXT,
                    email TEXT,
                    address TEXT,
                    gst_in TEXT,
                    drug_license_no TEXT,
                    created_at TEXT NOT NULL DEFAULT (datetime('now')),
                    updated_at TEXT NOT NULL DEFAULT (datetime('now'))
                );

                CREATE TABLE IF NOT EXISTS supplier_payments (
                    id INTEGER PRIMARY KEY AUTOINCREMENT,
                    supplier_id INTEGER NOT NULL,
                    amount_paise INTEGER NOT NULL,
                    payment_date TEXT NOT NULL,
                    payment_mode TEXT NOT NULL CHECK(payment_mode IN ('cash', 'card', 'upi', 'credit')),
                    reference TEXT,
                    notes TEXT,
                    created_at TEXT NOT NULL DEFAULT (datetime('now')),
                    FOREIGN KEY (supplier_id) REFERENCES suppliers(id)
                );

                CREATE TABLE IF NOT EXISTS sales (
                    id INTEGER PRIMARY KEY AUTOINCREMENT,
                    invoice_number TEXT NOT NULL UNIQUE,
                    customer_id INTEGER,
                    user_id INTEGER NOT NULL,
                    sale_date TEXT NOT NULL DEFAULT (datetime('now')),
                    subtotal_paise INTEGER NOT NULL DEFAULT 0,
                    discount_paise INTEGER NOT NULL DEFAULT 0,
                    total_cgst_paise INTEGER NOT NULL DEFAULT 0,
                    total_sgst_paise INTEGER NOT NULL DEFAULT 0,
                    total_gst_paise INTEGER NOT NULL DEFAULT 0,
                    grand_total_paise INTEGER NOT NULL DEFAULT 0,
                    payment_mode TEXT NOT NULL DEFAULT 'cash' CHECK(payment_mode IN ('cash', 'card', 'upi', 'credit')),
                    notes TEXT,
                    created_at TEXT NOT NULL DEFAULT (datetime('now')),
                    FOREIGN KEY (customer_id) REFERENCES customers(id),
                    FOREIGN KEY (user_id) REFERENCES users(id)
                );

                CREATE TABLE IF NOT EXISTS sale_items (
                    id INTEGER PRIMARY KEY AUTOINCREMENT,
                    sale_id INTEGER NOT NULL,
                    batch_id INTEGER NOT NULL,
                    medicine_id INTEGER NOT NULL,
                    quantity INTEGER NOT NULL,
                    unit_price_paise INTEGER NOT NULL,
                    discount_paise INTEGER NOT NULL DEFAULT 0,
                    taxable_amount_paise INTEGER NOT NULL,
                    cgst_rate REAL NOT NULL DEFAULT 0,
                    cgst_amount_paise INTEGER NOT NULL DEFAULT 0,
                    sgst_rate REAL NOT NULL DEFAULT 0,
                    sgst_amount_paise INTEGER NOT NULL DEFAULT 0,
                    total_paise INTEGER NOT NULL,
                    FOREIGN KEY (sale_id) REFERENCES sales(id),
                    FOREIGN KEY (batch_id) REFERENCES batches(id),
                    FOREIGN KEY (medicine_id) REFERENCES medicines(id)
                );

                CREATE TABLE IF NOT EXISTS prescriptions (
                    id INTEGER PRIMARY KEY AUTOINCREMENT,
                    customer_id INTEGER NOT NULL,
                    sale_id INTEGER,
                    doctor_name TEXT NOT NULL,
                    rx_number TEXT,
                    prescription_date TEXT NOT NULL,
                    notes TEXT,
                    created_at TEXT NOT NULL DEFAULT (datetime('now')),
                    FOREIGN KEY (customer_id) REFERENCES customers(id),
                    FOREIGN KEY (sale_id) REFERENCES sales(id)
                );

                CREATE TABLE IF NOT EXISTS pharmacy_settings (
                    id INTEGER PRIMARY KEY CHECK(id = 1),
                    name TEXT NOT NULL DEFAULT 'My Pharmacy',
                    address TEXT NOT NULL DEFAULT '',
                    phone TEXT NOT NULL DEFAULT '',
                    email TEXT,
                    gstin TEXT NOT NULL DEFAULT '',
                    drug_license_no TEXT NOT NULL DEFAULT '',
                    state_code TEXT NOT NULL DEFAULT '',
                    invoice_prefix TEXT NOT NULL DEFAULT 'INV',
                    next_invoice_number INTEGER NOT NULL DEFAULT 1,
                    low_stock_threshold INTEGER NOT NULL DEFAULT 20,
                    near_expiry_days INTEGER NOT NULL DEFAULT 90,
                    created_at TEXT NOT NULL DEFAULT (datetime('now')),
                    updated_at TEXT NOT NULL DEFAULT (datetime('now'))
                );

                CREATE INDEX IF NOT EXISTS idx_medicines_name ON medicines(name);
                CREATE INDEX IF NOT EXISTS idx_batches_medicine_id ON batches(medicine_id);
                CREATE INDEX IF NOT EXISTS idx_batches_expiry_date ON batches(expiry_date);
                CREATE INDEX IF NOT EXISTS idx_sales_invoice_number ON sales(invoice_number);
                CREATE INDEX IF NOT EXISTS idx_sales_sale_date ON sales(sale_date);
                CREATE INDEX IF NOT EXISTS idx_sale_items_sale_id ON sale_items(sale_id);
                CREATE INDEX IF NOT EXISTS idx_customers_name ON customers(name);
                CREATE INDEX IF NOT EXISTS idx_customers_phone ON customers(phone);
                CREATE INDEX IF NOT EXISTS idx_suppliers_name ON suppliers(name);
                CREATE INDEX IF NOT EXISTS idx_prescriptions_customer_id ON prescriptions(customer_id);
            "#;

/// Seeds the GST slabs, a default administrator and the settings record.
pub const SEED_SQL: &'static str = r#"
                INSERT OR IGNORE INTO gst_slabs (rate, description) VALUES (0, 'GST Exempt (0%)');
                INSERT OR IGNORE INTO gst_slabs (rate, description) VALUES (5, 'GST 5% (Most medicines post Sep 2025)');
                INSERT OR IGNORE INTO gst_slabs (rate, description) VALUES (12, 'GST 12%');
                INSERT OR IGNORE INTO gst_slabs (rate, description) VALUES (18, 'GST 18%');

                INSERT OR IGNORE INTO users (username, password_hash, full_name, role, is_active)
                VALUES ('admin', '$2a$10$N9qo8uLOickgx2ZMRZoMyeIjZAgcfl7p92ldGxad68LJZdL17lhWy', 'Administrator', 'admin', 1);

                INSERT OR IGNORE INTO pharmacy_settings (id, name, address, phone, gstin, drug_license_no, state_code)
                VALUES (1, 'My Pharmacy', '123 Main Street', '0000000000', '', '', '');
            "#;

/// The direction of a migration.
#[derive(Clone, Copy, Debug, PartialEq, Eq, Structural)]
pub enum MigrationKind {
    Up,
    Down,
}

/// One migration: a version number, a description and the statements that
/// it runs.
#[derive(Clone, Copy, Debug)]
pub struct Migration {
    pub version: u32,
    pub description: &'static str,
    pub sql: &'static str,
    pub kind: MigrationKind,
}

/// Versions strictly increase along the list.
pub open spec fn versions_increasing(ms: Seq<Migration>) -> bool {
    forall|i: int, j: int| 0 <= i < j < ms.len() ==> ms[i].version < ms[j].version
}

/// A migration runs when its version is above the applied one.
pub open spec fn is_pending(applied: int, m: Migration) -> bool {
    m.version > applied
}

/// The version recorded once every pending migration of `ms` has run.
pub open spec fn version_after(applied: int, ms: Seq<Migration>) -> int
    decreases ms.len(),
{
    if ms.len() == 0 {
        applied
    } else {
        let v = version_after(applied, ms.drop_last());
        if ms.last().version > v {
            ms.last().version as int
        } else {
            v
        }
    }
}

/// The store's migrations, in the order in which they run.
pub fn migrations() -> (r: Vec<Migration>)
    ensures
        r@.len() == 2,
        r@[0].version == 1 && r@[0].sql == SCHEMA_SQL && r@[0].kind == MigrationKind::Up,
        r@[1].version == 2 && r@[1].sql == SEED_SQL && r@[1].kind == MigrationKind::Up,
        versions_increasing(r@),
{
    let mut r: Vec<Migration> = Vec::new();
    r.push(
        Migration {
            version: 1,
            description: "create initial schema",
            sql: SCHEMA_SQL,
            kind: MigrationKind::Up,
        },
    );
    r.push(
        Migration {
            version: 2,
            description: "seed default data",
            sql: SEED_SQL,
            kind: MigrationKind::Up,
        },
    );
    r
}

/// The positions in `ms` of the migrations still to run after version
/// `applied`, in order.
pub fn pending(applied: u32, ms: &Vec<Migration>) -> (r: Vec<u64>)
    ensures
        lists_exactly(r@, ms@.len() as int, |i: int| is_pending(applied as int, ms@[i])),
{
    let mut r: Vec<u64> = Vec::new();
    let mut i: usize = 0;
    while i < ms.len()
        invariant
            i <= ms@.len(),
            lists_exactly(r@, i as int, |j: int| is_pending(applied as int, ms@[j])),
        decreases ms.len() - i,
    {
        proof {
            lemma_lists_step(r@, i as int, |j: int| is_pending(applied as int, ms@[j]));
        }
        if ms[i].version > applied {
            r.push(i as u64);
        }
        i += 1;
    }
    r
}

/// The version to record once the pending migrations of `ms` have run
/// after version `applied`.
pub fn applied_version(applied: u32, ms: &Vec<Migration>) -> (r: u32)
    ensures
        r == version_after(applied as int, ms@),
{
    let mut v: u32 = applied;
    let mut i: usize = 0;
    while i < ms.len()
        invariant
            i <= ms@.len(),
            v == version_after(applied as int, ms@.take(i as int)),
        decreases ms.len() - i,
    {
        proof {
            assert(ms@.take(i + 1).drop_last() =~= ms@.take(i as int));
        }
        if ms[i].version > v {
            v = ms[i].version;
        }
        i += 1;
    }
    proof {
        assert(ms@.take(ms@.len() as int) =~= ms@);
    }
    v
}

/// Once the pending migrations have run, none is pending: running the
/// list again does nothing.
pub proof fn lemma_rerun_is_noop(applied: int, ms: Seq<Migration>)
    ensures
        forall|i: int| 0 <= i < ms.len() ==> !is_pending(version_after(applied, ms), #[trigger] ms[i]),
        version_after(applied, ms) >= applied,
    decreases ms.len(),
{
    if ms.len() > 0 {
        lemma_rerun_is_noop(applied, ms.drop_last());
        assert forall|i: int| 0 <= i < ms.len() implies !is_pending(version_after(applied, ms), #[trigger] ms[i]) by {
            if i < ms.len() - 1 {
                assert(ms[i] == ms.drop_last()[i]);
            }
        }
    }
}

} // verus!
