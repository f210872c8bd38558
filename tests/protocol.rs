use bim_tcp::protocol::{download_request, filler_chunk, upload_request, FILLER_LEN};

#[test]
fn download_request_line() {
    assert_eq!(download_request(), b"DOWNLOAD 16106127360\n".to_vec());
}

#[test]
fn upload_request_line() {
    assert_eq!(upload_request(), b"UPLOAD 16106127360 0\n".to_vec());
}

#[test]
fn filler_cycles_alphabet() {
    let alphabet = "0123456789AaBbCcDdEeFfGgHhIiJjKkLlMmNnOoPpQqRrSsTtUuVvWwXxYyZz-=";
    let expected = alphabet.repeat(1024).into_bytes();
    let chunk = filler_chunk();
    assert_eq!(chunk.len(), FILLER_LEN);
    assert_eq!(chunk, expected);
}
