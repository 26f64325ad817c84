use pharmacare::model::{
    BatchDetails, CustomerDetails, MedicineDetails, PaymentDetails, PaymentMode,
    PrescriptionDetails, Role, SaleLine, SaleRequest, SettingsPatch, StoreError,
    SupplierDetails,
};
use pharmacare::store::Store;

const NOW: u64 = 1_700_000_000;

fn medicine(name: &str, slab: u64) -> MedicineDetails {
    MedicineDetails {
        name: name.to_string(),
        generic_name: None,
        brand_name: None,
        manufacturer: None,
        dosage_form: "tablet".to_string(),
        strength: None,
        category: None,
        hsn_code: "3004".to_string(),
        gst_slab_id: slab,
        reorder_level: 20,
    }
}

fn batch(mrp: i64, selling: i64, cost: i64, quantity: i64, expiry_day: u32) -> BatchDetails {
    BatchDetails {
        batch_number: "B1".to_string(),
        expiry_day,
        manufacturing_day: None,
        cost_price: cost,
        mrp,
        selling_price: selling,
        quantity,
    }
}

fn request(user_id: u64) -> SaleRequest {
    SaleRequest { customer_id: None, user_id, payment_mode: PaymentMode::Cash, notes: None }
}

fn line(batch_id: u64, quantity: i64, discount: i64) -> SaleLine {
    SaleLine { batch_id, quantity, discount }
}

fn empty_patch() -> SettingsPatch {
    SettingsPatch {
        name: None,
        address: None,
        phone: None,
        email: None,
        gstin: None,
        drug_license_no: None,
        state_code: None,
        invoice_prefix: None,
        next_invoice_number: None,
        low_stock_threshold: None,
        near_expiry_days: None,
    }
}

/// A store with the default data, Paracetamol at 5% and one batch of 50.
fn paracetamol_store() -> (Store, u64) {
    let mut s = Store::with_defaults(NOW);
    let m = s.create_medicine(medicine("Paracetamol 500mg", 1), NOW).unwrap();
    let b = s.receive_batch(m, batch(1000, 900, 600, 50, 20000), NOW).unwrap();
    (s, b)
}

#[test]
fn defaults_are_seeded() {
    let s = Store::with_defaults(NOW);
    let rates: Vec<u32> = (0..4).map(|i| s.gst_slab(i).unwrap().rate_bp).collect();
    assert_eq!(rates, vec![0, 500, 1200, 1800]);
    let admin = s.user(0).unwrap();
    assert_eq!(admin.username, "admin");
    assert_eq!(admin.role, Role::Admin);
    assert!(admin.is_active);
    let st = s.settings().unwrap();
    assert_eq!(st.details.invoice_prefix, "INV");
    assert_eq!(st.details.next_invoice_number, 1);
    assert_eq!(st.details.low_stock_threshold, 20);
    assert_eq!(st.details.near_expiry_days, 90);
}

#[test]
fn paracetamol_sale_scenario() {
    let (mut s, b) = paracetamol_store();
    let id = s.record_sale(request(0), vec![line(b, 10, 0)], NOW + 60).unwrap();
    let item = s.sale_item(0).unwrap();
    assert_eq!(item.sale_id, id);
    assert_eq!(item.unit_price, 900);
    assert_eq!(item.taxable, 9000);
    assert_eq!(item.cgst_rate_bp, 250);
    assert_eq!(item.cgst, 225);
    assert_eq!(item.sgst_rate_bp, 250);
    assert_eq!(item.sgst, 225);
    assert_eq!(item.total, 9450);
    let sale = s.sale(id).unwrap();
    assert_eq!(sale.subtotal, 9000);
    assert_eq!(sale.discount, 0);
    assert_eq!(sale.total_cgst, 225);
    assert_eq!(sale.total_sgst, 225);
    assert_eq!(sale.total_gst, 450);
    assert_eq!(sale.grand_total, 9450);
    assert_eq!(sale.invoice_prefix, "INV");
    assert_eq!(sale.invoice_number, 1);
    assert_eq!(s.batch(b).unwrap().details.quantity, 40);
    assert_eq!(s.settings().unwrap().details.next_invoice_number, 2);
}

#[test]
fn medicine_with_missing_slab_is_refused() {
    let mut s = Store::with_defaults(NOW);
    assert_eq!(s.create_medicine(medicine("Paracetamol 500mg", 99), NOW), Err(StoreError::Referential));
    assert_eq!(s.medicine_count(), 0);
}

#[test]
fn two_sales_of_thirty_from_fifty() {
    let (mut s, b) = paracetamol_store();
    let first = s.record_sale(request(0), vec![line(b, 30, 0)], NOW);
    let second = s.record_sale(request(0), vec![line(b, 30, 0)], NOW);
    assert!(first.is_ok());
    assert_eq!(second, Err(StoreError::InsufficientStock));
    assert_eq!(s.batch(b).unwrap().details.quantity, 20);
    assert_eq!(s.sale_count(), 1);
}

#[test]
fn short_stock_changes_nothing() {
    let (mut s, b) = paracetamol_store();
    let r = s.record_sale(request(0), vec![line(b, 5, 0), line(b, 51, 0)], NOW);
    assert_eq!(r, Err(StoreError::InsufficientStock));
    assert_eq!(s.sale_count(), 0);
    assert_eq!(s.sale_item_count(), 0);
    assert_eq!(s.batch(b).unwrap().details.quantity, 50);
    assert_eq!(s.settings().unwrap().details.next_invoice_number, 1);
}

#[test]
fn lines_on_one_batch_are_counted_together() {
    let (mut s, b) = paracetamol_store();
    let r = s.record_sale(request(0), vec![line(b, 30, 0), line(b, 30, 0)], NOW);
    assert_eq!(r, Err(StoreError::InsufficientStock));
    assert_eq!(s.batch(b).unwrap().details.quantity, 50);
    assert!(s.record_sale(request(0), vec![line(b, 30, 0), line(b, 20, 0)], NOW).is_ok());
    assert_eq!(s.batch(b).unwrap().details.quantity, 0);
}

#[test]
fn sale_totals_agree() {
    let (mut s, b) = paracetamol_store();
    let m2 = s.create_medicine(medicine("Cough syrup", 3), NOW).unwrap();
    let b2 = s.receive_batch(m2, batch(15000, 12000, 9000, 10, 20100), NOW).unwrap();
    let id = s.record_sale(request(0), vec![line(b, 3, 100), line(b2, 2, 1000)], NOW).unwrap();
    let sale = s.sale(id).unwrap();
    // 2700 - 100 = 2600 at 5%: 65 + 65; 24000 - 1000 = 23000 at 18%: 2070 + 2070.
    assert_eq!(sale.subtotal, 26700);
    assert_eq!(sale.discount, 1100);
    assert_eq!(sale.total_cgst, 2135);
    assert_eq!(sale.total_sgst, 2135);
    assert_eq!(sale.total_gst, 4270);
    assert_eq!(sale.grand_total, 29870);
    assert_eq!(sale.grand_total, sale.subtotal - sale.discount + sale.total_gst);
    assert_eq!(sale.total_gst, sale.total_cgst + sale.total_sgst);
    assert_eq!(s.sale_item(1).unwrap().total, 23000 + 2070 + 2070);
}

#[test]
fn invoice_numbers_increase() {
    let (mut s, b) = paracetamol_store();
    for _ in 0..3 {
        s.record_sale(request(0), vec![line(b, 1, 0)], NOW).unwrap();
    }
    let numbers: Vec<u64> = (0..3).map(|i| s.sale(i).unwrap().invoice_number).collect();
    assert_eq!(numbers, vec![1, 2, 3]);
    assert_eq!(s.settings().unwrap().details.next_invoice_number, 4);
}

#[test]
fn invoice_counter_cannot_move_back() {
    let (mut s, b) = paracetamol_store();
    s.record_sale(request(0), vec![line(b, 1, 0)], NOW).unwrap();
    let mut p = empty_patch();
    p.next_invoice_number = Some(1);
    assert_eq!(s.update_settings(p, NOW), Err(StoreError::Validation));
    let mut p = empty_patch();
    p.next_invoice_number = Some(100);
    p.invoice_prefix = Some("PH".to_string());
    assert_eq!(s.update_settings(p, NOW + 5), Ok(()));
    let id = s.record_sale(request(0), vec![line(b, 1, 0)], NOW).unwrap();
    assert_eq!(s.sale(id).unwrap().invoice_number, 100);
    assert_eq!(s.sale(id).unwrap().invoice_prefix, "PH");
    assert_eq!(s.settings().unwrap().updated_at, NOW);
}

#[test]
fn settings_patch_replaces_given_fields() {
    let mut s = Store::with_defaults(NOW);
    let mut p = empty_patch();
    p.name = Some("City Pharmacy".to_string());
    p.low_stock_threshold = Some(5);
    assert_eq!(s.update_settings(p, NOW + 1), Ok(()));
    let st = s.settings().unwrap();
    assert_eq!(st.details.name, "City Pharmacy");
    assert_eq!(st.details.low_stock_threshold, 5);
    assert_eq!(st.details.address, "123 Main Street");
    assert_eq!(st.updated_at, NOW + 1);
    assert_eq!(st.created_at, NOW);
}

#[test]
fn settings_exist_only_once() {
    let mut s = Store::with_defaults(NOW);
    let details = s.settings().unwrap().details.clone();
    assert_eq!(s.create_settings(details, NOW), Err(StoreError::Uniqueness));
    let mut empty = Store::new();
    assert_eq!(empty.update_settings(empty_patch(), NOW), Err(StoreError::Referential));
}

#[test]
fn sale_without_settings_is_refused() {
    let mut s = Store::new();
    s.create_gst_slab(500, "GST 5%".to_string()).unwrap();
    s.create_user("ana".to_string(), "h".to_string(), "Ana".to_string(), Role::Cashier, NOW).unwrap();
    let m = s.create_medicine(medicine("Paracetamol 500mg", 0), NOW).unwrap();
    let b = s.receive_batch(m, batch(1000, 900, 600, 50, 20000), NOW).unwrap();
    assert_eq!(s.record_sale(request(0), vec![line(b, 1, 0)], NOW), Err(StoreError::Referential));
}

#[test]
fn deactivated_user_keeps_sales() {
    let (mut s, b) = paracetamol_store();
    let cashier =
        s.create_user("ravi".to_string(), "h".to_string(), "Ravi".to_string(), Role::Cashier, NOW).unwrap();
    let id = s.record_sale(request(cashier), vec![line(b, 2, 0)], NOW).unwrap();
    assert_eq!(s.deactivate_user(cashier, NOW + 10), Ok(()));
    assert!(!s.user(cashier).unwrap().is_active);
    assert_eq!(s.user(cashier).unwrap().updated_at, NOW + 10);
    assert_eq!(s.sale_count(), 1);
    assert_eq!(s.sale(id).unwrap().user_id, cashier);
    assert_eq!(s.sale(id).unwrap().grand_total, 1890);
    assert_eq!(s.deactivate_user(42, NOW), Err(StoreError::Referential));
}

#[test]
fn duplicate_username_is_refused() {
    let mut s = Store::with_defaults(NOW);
    let r = s.create_user("admin".to_string(), "x".to_string(), "Other".to_string(), Role::Pharmacist, NOW);
    assert_eq!(r, Err(StoreError::Uniqueness));
    assert_eq!(s.user_count(), 1);
}

#[test]
fn gst_slab_rules() {
    let mut s = Store::with_defaults(NOW);
    assert_eq!(s.create_gst_slab(500, "again".to_string()), Err(StoreError::Uniqueness));
    assert_eq!(s.create_gst_slab(10002, "too high".to_string()), Err(StoreError::Validation));
    assert_eq!(s.create_gst_slab(501, "odd".to_string()), Err(StoreError::Validation));
    assert_eq!(s.create_gst_slab(2800, "GST 28%".to_string()), Ok(4));
    assert_eq!(s.gst_slab_count(), 5);
}

#[test]
fn batch_validation() {
    let mut s = Store::with_defaults(NOW);
    let m = s.create_medicine(medicine("Amoxicillin 250mg", 2), NOW).unwrap();
    assert_eq!(s.receive_batch(m, batch(900, 1000, 500, 10, 1), NOW), Err(StoreError::Validation));
    assert_eq!(s.receive_batch(m, batch(0, 0, 500, 10, 1), NOW), Err(StoreError::Validation));
    assert_eq!(s.receive_batch(m, batch(1000, 0, 500, 10, 1), NOW), Err(StoreError::Validation));
    assert_eq!(s.receive_batch(m, batch(1000, 900, -1, 10, 1), NOW), Err(StoreError::Validation));
    assert_eq!(s.receive_batch(m, batch(1000, 900, 500, -1, 1), NOW), Err(StoreError::Validation));
    assert_eq!(s.receive_batch(m + 1, batch(1000, 900, 500, 10, 1), NOW), Err(StoreError::Referential));
    assert_eq!(s.batch_count(), 0);
    assert_eq!(s.receive_batch(m, batch(1000, 1000, 0, 0, 1), NOW), Ok(0));
    assert_eq!(s.deactivate_medicine(m, NOW), Ok(()));
    assert_eq!(s.receive_batch(m, batch(1000, 900, 500, 10, 1), NOW), Err(StoreError::Validation));
    assert_eq!(s.batch_count(), 1);
}

#[test]
fn sale_request_errors() {
    let (mut s, b) = paracetamol_store();
    assert_eq!(s.record_sale(request(9), vec![line(b, 1, 0)], NOW), Err(StoreError::Referential));
    assert_eq!(s.record_sale(request(0), vec![line(b + 1, 1, 0)], NOW), Err(StoreError::Referential));
    let mut with_customer = request(0);
    with_customer.customer_id = Some(3);
    assert_eq!(s.record_sale(with_customer, vec![line(b, 1, 0)], NOW), Err(StoreError::Referential));
    assert_eq!(s.record_sale(request(0), vec![], NOW), Err(StoreError::Validation));
    assert_eq!(s.record_sale(request(0), vec![line(b, 0, 0)], NOW), Err(StoreError::Validation));
    assert_eq!(s.record_sale(request(0), vec![line(b, 1, -1)], NOW), Err(StoreError::Validation));
    assert_eq!(s.record_sale(request(0), vec![line(b, 1, 901)], NOW), Err(StoreError::Validation));
    assert_eq!(s.sale_count(), 0);
    assert_eq!(s.batch(b).unwrap().details.quantity, 50);
}

#[test]
fn contacts_and_references() {
    let (mut s, b) = paracetamol_store();
    let c = s.create_customer(
        CustomerDetails { name: "Meera".to_string(), phone: Some("98".to_string()), email: None, address: None },
        NOW,
    );
    let sup = s.create_supplier(
        SupplierDetails {
            name: "Wholesale Co".to_string(),
            phone: None,
            email: None,
            address: None,
            gst_in: Some("27AAAAA0000A1Z5".to_string()),
            drug_license_no: Some("DL-1".to_string()),
        },
        NOW,
    );
    let pay = |supplier_id| PaymentDetails {
        supplier_id,
        amount: 50000,
        payment_day: 19000,
        mode: PaymentMode::Upi,
        reference: None,
        notes: None,
    };
    assert_eq!(s.record_supplier_payment(pay(sup), NOW), Ok(0));
    assert_eq!(s.record_supplier_payment(pay(sup + 1), NOW), Err(StoreError::Referential));
    let mut req = request(0);
    req.customer_id = Some(c);
    let sale = s.record_sale(req, vec![line(b, 1, 0)], NOW).unwrap();
    let rx = |customer_id, sale_id| PrescriptionDetails {
        customer_id,
        sale_id,
        doctor_name: "Dr. Rao".to_string(),
        rx_number: None,
        prescription_day: 19000,
        notes: None,
    };
    assert_eq!(s.create_prescription(rx(c, Some(sale)), NOW), Ok(0));
    assert_eq!(s.create_prescription(rx(c, None), NOW), Ok(1));
    assert_eq!(s.create_prescription(rx(c + 1, None), NOW), Err(StoreError::Referential));
    assert_eq!(s.create_prescription(rx(c, Some(sale + 1)), NOW), Err(StoreError::Referential));
    assert_eq!(s.prescription_count(), 2);
    assert_eq!(s.supplier_payment_count(), 1);
    assert_eq!(s.customer(c).unwrap().details.name, "Meera");
    assert_eq!(s.supplier(sup).unwrap().details.name, "Wholesale Co");
}

#[test]
fn lookups() {
    let mut s = Store::with_defaults(NOW);
    let m0 = s.create_medicine(medicine("Paracetamol 500mg", 1), NOW).unwrap();
    let m1 = s.create_medicine(medicine("Cetirizine", 2), NOW).unwrap();
    let m2 = s.create_medicine(medicine("Paracetamol 500mg", 1), NOW).unwrap();
    assert_eq!(s.medicines_named(&"Paracetamol 500mg".to_string()), vec![m0, m2]);
    assert_eq!(s.medicines_named(&"Aspirin".to_string()), Vec::<u64>::new());
    s.receive_batch(m0, batch(100, 90, 50, 5, 100), NOW).unwrap();
    s.receive_batch(m1, batch(100, 90, 50, 500, 200), NOW).unwrap();
    s.receive_batch(m2, batch(100, 90, 50, 20, 300), NOW).unwrap();
    assert_eq!(s.batches_expiring_between(100, 200), vec![0, 1]);
    assert_eq!(s.batches_expiring_between(201, 299), Vec::<u64>::new());
    assert_eq!(s.low_stock_batches(20), vec![0, 2]);
}
