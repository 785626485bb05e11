use wasi_http_guest::host::Host;
use wasi_http_guest::wasi::FieldEntries;
use wasi_http_guest::Error;

fn entries(list: &[(&str, &[u8])]) -> Vec<(String, Vec<u8>)> {
    list.iter().map(|(n, v)| (n.to_string(), v.to_vec())).collect()
}

#[test]
fn header_round_trip_preserves_order_and_bytes() {
    let mut host = Host::new();
    let list = entries(&[
        ("Content-Type", b"text/plain"),
        ("X-Binary", &[0xff, 0xfe, 0x00, 0x80]),
        ("x-binary", &[1, 2, 3]),
        ("MiXeD-CaSe", b"value"),
    ]);
    let fe = FieldEntries::from_entries(list.clone());
    let handle = fe.try_into_fields(&mut host).expect("valid names");
    let back = FieldEntries::from_fields(&host, handle);
    assert_eq!(back.into_entries(), list);
}

#[test]
fn empty_header_list_round_trips() {
    let mut host = Host::new();
    let fe = FieldEntries::from_entries(Vec::new());
    let handle = fe.try_into_fields(&mut host).expect("valid");
    let back = FieldEntries::from_fields(&host, handle);
    assert_eq!(back.into_entries().len(), 0);
}

#[test]
fn invalid_field_name_is_rejected() {
    let mut host = Host::new();
    let fe = FieldEntries::from_entries(entries(&[("bad name", b"v")]));
    match fe.try_into_fields(&mut host) {
        Err(Error::WasiFieldsError(_)) => (),
        other => panic!("expected a fields error, got {:?}", other),
    }
}

#[test]
fn empty_field_name_is_rejected() {
    let mut host = Host::new();
    let fe = FieldEntries::from_entries(entries(&[("", b"v")]));
    assert!(matches!(
        fe.try_into_fields(&mut host),
        Err(Error::WasiFieldsError(_))
    ));
}
