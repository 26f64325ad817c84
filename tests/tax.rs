use pharmacare::tax::compute_line;

#[test]
fn line_at_five_percent() {
    let a = compute_line(900, 10, 0, 500);
    assert_eq!(a.gross, 9000);
    assert_eq!(a.taxable, 9000);
    assert_eq!(a.cgst_rate_bp, 250);
    assert_eq!(a.sgst_rate_bp, 250);
    assert_eq!(a.cgst, 225);
    assert_eq!(a.sgst, 225);
    assert_eq!(a.total, 9450);
}

#[test]
fn line_with_discount_at_eighteen_percent() {
    let a = compute_line(1000, 3, 500, 1800);
    assert_eq!(a.gross, 3000);
    assert_eq!(a.discount, 500);
    assert_eq!(a.taxable, 2500);
    assert_eq!(a.cgst, 225);
    assert_eq!(a.sgst, 225);
    assert_eq!(a.total, 2950);
}

#[test]
fn half_paisa_rounds_up() {
    // 20 paise at 2.5% is half a paisa.
    let a = compute_line(20, 1, 0, 500);
    assert_eq!(a.cgst, 1);
    assert_eq!(a.total, 22);
}

#[test]
fn below_half_paisa_rounds_down() {
    // 19 paise at 2.5% is 0.475 paise.
    let a = compute_line(19, 1, 0, 500);
    assert_eq!(a.cgst, 0);
    assert_eq!(a.total, 19);
}

#[test]
fn exempt_slab_has_no_tax() {
    let a = compute_line(12345, 7, 45, 0);
    assert_eq!(a.taxable, 86370);
    assert_eq!(a.cgst, 0);
    assert_eq!(a.sgst, 0);
    assert_eq!(a.total, 86370);
}

#[test]
fn fully_discounted_line() {
    let a = compute_line(500, 2, 1000, 1200);
    assert_eq!(a.taxable, 0);
    assert_eq!(a.cgst, 0);
    assert_eq!(a.total, 0);
}
