//! Barcode data for product labels: EAN-13 price codes and QR code sizes.

use vstd::prelude::*;
use vstd::string::{StrSliceExecFns, StringExecFns};

verus! {

/// Errors of barcode composition.
#[derive(Debug)]
pub enum BarcodeError {
    /// A value does not fit its barcode field; the field is named.
    Overflow(String),
}

/// Largest value of a five-digit field.
pub const FIELD_MAX: usize = 99999;

/// The decimal digits.
pub open spec fn digits() -> Seq<char> {
    seq!['0', '1', '2', '3', '4', '5', '6', '7', '8', '9']
}

/// `n` as five decimal digits, zero-padded.
pub open spec fn padded5(n: nat) -> Seq<char> {
    seq![
        digits()[(n / 10000 % 10) as int],
        digits()[(n / 1000 % 10) as int],
        digits()[(n / 100 % 10) as int],
        digits()[(n / 10 % 10) as int],
        digits()[(n % 10) as int],
    ]
}

/// The 12 digits of an in-store price code: "20", the SKU, the price in cents.
pub open spec fn price_code(sku: nat, cents: nat) -> Seq<char> {
    seq!['2', '0'] + padded5(sku) + padded5(cents)
}

/// Whether barcoders takes `data` as EAN-13 data: 12 or 13 decimal digits.
pub open spec fn ean13_accepts(data: Seq<char>) -> bool {
    (data.len() == 12 || data.len() == 13) && forall|i: int|
        0 <= i < data.len() ==> digits().contains(#[trigger] data[i])
}

/// The bar modules (1 dark, 0 light) barcoders encodes EAN-13 data as.
pub uninterp spec fn ean13_modules_of(data: Seq<char>) -> Seq<u8>;

/// Relies on `barcoders::sym::ean13::EAN13::new`, which accepts 12 or 13
/// decimal digits and refuses anything else, and on `EAN13::encode`, which
/// gives the bar modules of accepted data. Longer data is kept away: the
/// length check casts the byte length to `u32`.
#[verifier::external_body]
fn ean13_encode(data: &str) -> (r: Option<Vec<u8>>)
    requires
        data@.len() <= 13,
    ensures
        r is Some <==> ean13_accepts(data@),
        r is Some ==> r->0@ == ean13_modules_of(data@),
{
    barcoders::sym::ean13::EAN13::new(data).ok().map(|code| code.encode())
}

fn digit_text(d: usize) -> (r: &'static str)
    requires
        d < 10,
    ensures
        r@ == seq![digits()[d as int]],
{
    proof {
        reveal_strlit("0");
        reveal_strlit("1");
        reveal_strlit("2");
        reveal_strlit("3");
        reveal_strlit("4");
        reveal_strlit("5");
        reveal_strlit("6");
        reveal_strlit("7");
        reveal_strlit("8");
        reveal_strlit("9");
    }
    match d {
        0 => "0",
        1 => "1",
        2 => "2",
        3 => "3",
        4 => "4",
        5 => "5",
        6 => "6",
        7 => "7",
        8 => "8",
        _ => "9",
    }
}

fn push_padded5(s: &mut String, n: usize)
    ensures
        final(s)@ == old(s)@ + padded5(n as nat),
{
    s.append(digit_text(n / 10000 % 10));
    s.append(digit_text(n / 1000 % 10));
    s.append(digit_text(n / 100 % 10));
    s.append(digit_text(n / 10 % 10));
    s.append(digit_text(n % 10));
    proof {
        assert(s@ =~= old(s)@ + padded5(n as nat));
    }
}

/// The EAN-13 data of an in-store price code for `sku` at `cents`; each must
/// fit five digits.
pub fn ean13_price_data(sku: usize, cents: usize) -> (r: Result<String, BarcodeError>)
    ensures
        sku > FIELD_MAX ==> (r matches Err(BarcodeError::Overflow(f)) && f@ == "sku"@),
        sku <= FIELD_MAX && cents > FIELD_MAX ==> (r matches Err(BarcodeError::Overflow(f)) && f@
            == "price"@),
        sku <= FIELD_MAX && cents <= FIELD_MAX ==> (r matches Ok(s) && s@ == price_code(
            sku as nat,
            cents as nat,
        )),
{
    if sku > FIELD_MAX {
        return Err(BarcodeError::Overflow("sku".to_owned()));
    }
    if cents > FIELD_MAX {
        return Err(BarcodeError::Overflow("price".to_owned()));
    }
    let mut s = "20".to_owned();
    proof {
        reveal_strlit("20");
    }
    push_padded5(&mut s, sku);
    push_padded5(&mut s, cents);
    proof {
        assert(s@ =~= price_code(sku as nat, cents as nat));
    }
    Ok(s)
}

/// The bar modules of EAN-13 `data`, if it is 12 or 13 decimal digits.
pub fn ean13_modules(data: &str) -> (r: Option<Vec<u8>>)
    ensures
        r is Some <==> ean13_accepts(data@),
        r is Some ==> r->0@ == ean13_modules_of(data@),
{
    if data.unicode_len() > 13 {
        return None;
    }
    ean13_encode(data)
}

/// The bar modules of the price code for `sku` at `cents`.
pub fn ean13_price_modules(sku: usize, cents: usize) -> (r: Result<Vec<u8>, BarcodeError>)
    ensures
        sku > FIELD_MAX ==> (r matches Err(BarcodeError::Overflow(f)) && f@ == "sku"@),
        sku <= FIELD_MAX && cents > FIELD_MAX ==> (r matches Err(BarcodeError::Overflow(f)) && f@
            == "price"@),
        sku <= FIELD_MAX && cents <= FIELD_MAX ==> (r matches Ok(m) && m@ == ean13_modules_of(
            price_code(sku as nat, cents as nat),
        )),
{
    let data = ean13_price_data(sku, cents)?;
    proof {
        let d = price_code(sku as nat, cents as nat);
        assert forall|i: int| 0 <= i < d.len() implies digits().contains(#[trigger] d[i]) by {
            if i == 0 {
                assert(d[i] == digits()[2]);
            } else if i == 1 {
                assert(d[i] == digits()[0]);
            } else if i < 7 {
                assert(d[i] == padded5(sku as nat)[i - 2]);
            } else {
                assert(d[i] == padded5(cents as nat)[i - 7]);
            }
        }
    }
    match ean13_encode(data.as_str()) {
        Some(m) => Ok(m),
        None => Err(BarcodeError::Overflow("price".to_owned())),
    }
}

/// Smallest side, in modules, of a QR code.
pub const QR_MIN_SIZE: i32 = 21;
/// Largest side, in modules, of a QR code.
pub const QR_MAX_SIZE: i32 = 177;

/// The side of a QR code of `size` modules, if it is a valid QR size.
pub fn qr_side(size: i32) -> (r: Result<u32, BarcodeError>)
    ensures
        QR_MIN_SIZE <= size <= QR_MAX_SIZE || -QR_MAX_SIZE <= size <= -QR_MIN_SIZE ==> r
            == Ok::<u32, BarcodeError>((if size < 0 { -size } else { size as int }) as u32),
        !(QR_MIN_SIZE <= size <= QR_MAX_SIZE || -QR_MAX_SIZE <= size <= -QR_MIN_SIZE) ==> (r matches Err(
            BarcodeError::Overflow(f),
        ) && f@ == "qr"@),
{
    let side: i64 = if size < 0 {
        -(size as i64)
    } else {
        size as i64
    };
    if side < QR_MIN_SIZE as i64 || side > QR_MAX_SIZE as i64 {
        return Err(BarcodeError::Overflow("qr".to_owned()));
    }
    Ok(side as u32)
}

} // verus!
