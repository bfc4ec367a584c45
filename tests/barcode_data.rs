use ql_printer::barcode::{ean13_modules, ean13_price_data, ean13_price_modules, qr_side, BarcodeError};

fn field(e: BarcodeError) -> String {
    match e {
        BarcodeError::Overflow(f) => f,
    }
}

#[test]
fn price_code_digits() {
    assert_eq!(ean13_price_data(123, 4567).unwrap(), "200012304567");
    assert_eq!(ean13_price_data(99999, 0).unwrap(), "209999900000");
    assert_eq!(field(ean13_price_data(100000, 1).unwrap_err()), "sku");
    assert_eq!(field(ean13_price_data(1, 100000).unwrap_err()), "price");
}

#[test]
fn price_code_modules() {
    let modules = ean13_price_modules(123, 4567).unwrap();
    assert_eq!(modules.len(), 95);
    assert_eq!(&modules[..3], &[1, 0, 1]);
    assert_eq!(&modules[92..], &[1, 0, 1]);
    assert_eq!(Some(modules), ean13_modules("200012304567"));
    assert_eq!(field(ean13_price_modules(123456, 1).unwrap_err()), "sku");
}

#[test]
fn ean13_data_is_validated() {
    assert!(ean13_modules("12345").is_none());
    assert!(ean13_modules("12345678901a").is_none());
    assert!(ean13_modules("123456789012").is_some());
    assert!(ean13_modules("1234567890123").is_some());
    assert!(ean13_modules("12345678901234").is_none());
    assert!(ean13_modules(&"1".repeat(1000)).is_none());
}

#[test]
fn qr_sizes() {
    assert_eq!(qr_side(21).unwrap(), 21);
    assert_eq!(qr_side(177).unwrap(), 177);
    assert_eq!(qr_side(-25).unwrap(), 25);
    assert_eq!(field(qr_side(20).unwrap_err()), "qr");
    assert_eq!(field(qr_side(178).unwrap_err()), "qr");
}
