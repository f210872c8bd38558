use vstd::prelude::*;

verus! {

/// The nominal byte count named in both request lines (15 GiB): it asks the
/// server for an open-ended stream and does not bound the transfer.
pub const REQUEST_SIZE: u64 = 16106127360;

/// Length of the filler block that an upload connection writes repeatedly.
pub const FILLER_LEN: usize = 65536;

/// The ASCII decimal digits of `n`, most significant first, without padding.
pub open spec fn decimal(n: nat) -> Seq<u8>
    decreases n,
{
    if n < 10 {
        seq![(48 + n) as u8]
    } else {
        decimal(n / 10).push((48 + n % 10) as u8)
    }
}

/// `DOWNLOAD <REQUEST_SIZE>\n` as bytes.
pub open spec fn download_line() -> Seq<u8> {
    seq![68u8, 79, 87, 78, 76, 79, 65, 68, 32] + decimal(REQUEST_SIZE as nat) + seq![10u8]
}

/// `UPLOAD <REQUEST_SIZE> 0\n` as bytes.
pub open spec fn upload_line() -> Seq<u8> {
    seq![85u8, 80, 76, 79, 65, 68, 32] + decimal(REQUEST_SIZE as nat) + seq![32u8, 48, 10]
}

/// The 64-character alphabet that the filler block cycles through:
/// `0123456789AaBbCc...Zz-=`.
pub open spec fn filler_alphabet() -> Seq<u8> {
    seq![48u8, 49, 50, 51, 52, 53, 54, 55, 56, 57]
        + Seq::new(52, |i: int| if i % 2 == 0 { (65 + i / 2) as u8 } else { (97 + i / 2) as u8 })
        + seq![45u8, 61]
}

/// Appends the decimal digits of `n` to `out`.
pub fn push_decimal(out: &mut Vec<u8>, n: u64)
    ensures
        final(out)@ == old(out)@ + decimal(n as nat),
    decreases n,
{
    if n >= 10 {
        push_decimal(out, n / 10);
    }
    let d: u8 = (n % 10) as u8;
    out.push(48 + d);
    assert(old(out)@ + decimal(n as nat) =~= final(out)@);
}

/// The request line that opens a download connection.
pub fn download_request() -> (r: Vec<u8>)
    ensures
        r@ == download_line(),
{
    let mut out: Vec<u8> = vec![68, 79, 87, 78, 76, 79, 65, 68, 32];
    push_decimal(&mut out, REQUEST_SIZE);
    out.push(10);
    assert(out@ =~= download_line());
    out
}

/// The request line that opens an upload connection.
pub fn upload_request() -> (r: Vec<u8>)
    ensures
        r@ == upload_line(),
{
    let mut out: Vec<u8> = vec![85, 80, 76, 79, 65, 68, 32];
    push_decimal(&mut out, REQUEST_SIZE);
    out.push(32);
    out.push(48);
    out.push(10);
    assert(out@ =~= upload_line());
    out
}

/// The block that an upload connection writes over and over: the alphabet
/// repeated to `FILLER_LEN` bytes.
pub fn filler_chunk() -> (r: Vec<u8>)
    ensures
        r@.len() == FILLER_LEN,
        forall|i: int| 0 <= i < FILLER_LEN ==> #[trigger] r@[i] == filler_alphabet()[i % 64],
{
    let alphabet: Vec<u8> = vec![
        48, 49, 50, 51, 52, 53, 54, 55, 56, 57,
        65, 97, 66, 98, 67, 99, 68, 100, 69, 101, 70, 102, 71, 103, 72, 104,
        73, 105, 74, 106, 75, 107, 76, 108, 77, 109, 78, 110, 79, 111, 80, 112,
        81, 113, 82, 114, 83, 115, 84, 116, 85, 117, 86, 118, 87, 119, 88, 120,
        89, 121, 90, 122,
        45, 61,
    ];
    assert(alphabet@ =~= filler_alphabet());
    let mut out: Vec<u8> = Vec::new();
    let mut i: usize = 0;
    while i < FILLER_LEN
        invariant
            i <= FILLER_LEN,
            alphabet@ == filler_alphabet(),
            out@.len() == i,
            forall|j: int| 0 <= j < i ==> #[trigger] out@[j] == filler_alphabet()[j % 64],
        decreases FILLER_LEN - i,
    {
        out.push(alphabet[i % 64]);
        i = i + 1;
    }
    out
}

} // verus!
