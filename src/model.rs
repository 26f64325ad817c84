//! The entities of the pharmacy data store and the errors of its writes.
//!
//! Identifiers are generated by the store: an entity's id is its position in
//! its table. Dates are day numbers and instants are seconds, both counted
//! from an epoch that the caller chooses. Money is in integer paise.
use vstd::prelude::*;

verus! {

/// Why a write was rejected. A rejected write changes nothing.
#[derive(Clone, Copy, Debug, PartialEq, Eq, Structural)]
pub enum StoreError {
    /// A numeric or invariant violation: a price or quantity out of range.
    Validation,
    /// A reference to a row that does not exist.
    Referential,
    /// A duplicate username or GST rate, or a second settings row.
    Uniqueness,
    /// A sale asks more of a batch than it holds.
    InsufficientStock,
}

#[derive(Clone, Copy, Debug, PartialEq, Eq, Structural)]
pub enum Role {
    Admin,
    Pharmacist,
    Cashier,
}

#[derive(Clone, Copy, Debug, PartialEq, Eq, Structural)]
pub enum PaymentMode {
    Cash,
    Card,
    Upi,
    Credit,
}

#[derive(Clone, Debug)]
pub struct User {
    pub id: u64,
    pub username: String,
    pub password_hash: String,
    pub full_name: String,
    pub role: Role,
    pub is_active: bool,
    pub created_at: u64,
    pub updated_at: u64,
}

/// A GST slab; its rate is in basis points.
#[derive(Clone, Debug)]
pub struct GstSlab {
    pub id: u64,
    pub rate_bp: u32,
    pub description: String,
}

/// What the caller gives for a new medicine.
#[derive(Clone, Debug)]
pub struct MedicineDetails {
    pub name: String,
    pub generic_name: Option<String>,
    pub brand_name: Option<String>,
    pub manufacturer: Option<String>,
    pub dosage_form: String,
    pub strength: Option<String>,
    pub category: Option<String>,
    pub hsn_code: String,
    pub gst_slab_id: u64,
    pub reorder_level: u64,
}

#[derive(Clone, Debug)]
pub struct Medicine {
    pub id: u64,
    pub details: MedicineDetails,
    pub is_active: bool,
    pub created_at: u64,
    pub updated_at: u64,
}

/// What the caller gives for a received batch.
#[derive(Clone, Debug)]
pub struct BatchDetails {
    pub batch_number: String,
    pub expiry_day: u32,
    pub manufacturing_day: Option<u32>,
    pub cost_price: i64,
    pub mrp: i64,
    pub selling_price: i64,
    pub quantity: i64,
}

#[derive(Clone, Debug)]
pub struct Batch {
    pub id: u64,
    pub medicine_id: u64,
    pub details: BatchDetails,
    pub created_at: u64,
}

/// Contact details of a customer.
#[derive(Clone, Debug)]
pub struct CustomerDetails {
    pub name: String,
    pub phone: Option<String>,
    pub email: Option<String>,
    pub address: Option<String>,
}

#[derive(Clone, Debug)]
pub struct Customer {
    pub id: u64,
    pub details: CustomerDetails,
    pub created_at: u64,
    pub updated_at: u64,
}

/// Contact and regulatory details of a supplier.
#[derive(Clone, Debug)]
pub struct SupplierDetails {
    pub name: String,
    pub phone: Option<String>,
    pub email: Option<String>,
    pub address: Option<String>,
    pub gst_in: Option<String>,
    pub drug_license_no: Option<String>,
}

#[derive(Clone, Debug)]
pub struct Supplier {
    pub id: u64,
    pub details: SupplierDetails,
    pub created_at: u64,
    pub updated_at: u64,
}

/// What the caller gives for a payment to a supplier.
#[derive(Clone, Debug)]
pub struct PaymentDetails {
    pub supplier_id: u64,
    pub amount: i64,
    pub payment_day: u32,
    pub mode: PaymentMode,
    pub reference: Option<String>,
    pub notes: Option<String>,
}

#[derive(Clone, Debug)]
pub struct SupplierPayment {
    pub id: u64,
    pub details: PaymentDetails,
    pub created_at: u64,
}

/// What the caller gives for a sale, besides its lines.
#[derive(Clone, Debug)]
pub struct SaleRequest {
    pub customer_id: Option<u64>,
    pub user_id: u64,
    pub payment_mode: PaymentMode,
    pub notes: Option<String>,
}

/// One line of a sale request: `quantity` units from a batch, with a
/// discount in paise. The unit price is the batch's selling price.
#[derive(Clone, Copy, Debug, PartialEq, Eq)]
pub struct SaleLine {
    pub batch_id: u64,
    pub quantity: i64,
    pub discount: i64,
}

/// One invoice. Its invoice reads as `invoice_prefix` followed by
/// `invoice_number`.
#[derive(Clone, Debug)]
pub struct Sale {
    pub id: u64,
    pub invoice_prefix: String,
    pub invoice_number: u64,
    pub customer_id: Option<u64>,
    pub user_id: u64,
    pub sale_time: u64,
    pub subtotal: i64,
    pub discount: i64,
    pub total_cgst: i64,
    pub total_sgst: i64,
    pub total_gst: i64,
    pub grand_total: i64,
    pub payment_mode: PaymentMode,
    pub notes: Option<String>,
}

/// One line of a recorded sale.
#[derive(Clone, Copy, Debug)]
pub struct SaleItem {
    pub id: u64,
    pub sale_id: u64,
    pub batch_id: u64,
    pub medicine_id: u64,
    pub quantity: i64,
    pub unit_price: i64,
    pub discount: i64,
    pub taxable: i64,
    pub cgst_rate_bp: u32,
    pub cgst: i64,
    pub sgst_rate_bp: u32,
    pub sgst: i64,
    pub total: i64,
}

/// What the caller gives for a prescription.
#[derive(Clone, Debug)]
pub struct PrescriptionDetails {
    pub customer_id: u64,
    pub sale_id: Option<u64>,
    pub doctor_name: String,
    pub rx_number: Option<String>,
    pub prescription_day: u32,
    pub notes: Option<String>,
}

#[derive(Clone, Debug)]
pub struct Prescription {
    pub id: u64,
    pub details: PrescriptionDetails,
    pub created_at: u64,
}

/// The store's identity, tax registration, invoice numbering and alert
/// thresholds.
#[derive(Clone, Debug)]
pub struct SettingsDetails {
    pub name: String,
    pub address: String,
    pub phone: String,
    pub email: Option<String>,
    pub gstin: String,
    pub drug_license_no: String,
    pub state_code: String,
    pub invoice_prefix: String,
    pub next_invoice_number: u64,
    pub low_stock_threshold: u64,
    pub near_expiry_days: u32,
}

/// The single settings record.
#[derive(Clone, Debug)]
pub struct PharmacySettings {
    pub details: SettingsDetails,
    pub created_at: u64,
    pub updated_at: u64,
}

/// A change to the settings: each field that is `Some` replaces the current
/// value.
#[derive(Clone, Debug)]
pub struct SettingsPatch {
    pub name: Option<String>,
    pub address: Option<String>,
    pub phone: Option<String>,
    pub email: Option<Option<String>>,
    pub gstin: Option<String>,
    pub drug_license_no: Option<String>,
    pub state_code: Option<String>,
    pub invoice_prefix: Option<String>,
    pub next_invoice_number: Option<u64>,
    pub low_stock_threshold: Option<u64>,
    pub near_expiry_days: Option<u32>,
}

} // verus!
