use supuraisu::asar::{asar_wasm_candidates, asar_header_bytes, asar_layout, collect_asar_wasm_entries, require_candidates, wasm_candidates, WasmCandidate};
use supuraisu::json::{JsonNumber, JsonValue};

fn s(text: &str) -> JsonValue {
    JsonValue::Str(text.to_string())
}

fn obj(members: Vec<(&str, JsonValue)>) -> JsonValue {
    JsonValue::Object(members.into_iter().map(|(k, v)| (k.to_string(), v)).collect())
}

fn file(offset: &str, size: u64) -> JsonValue {
    obj(vec![("offset", s(offset)), ("size", JsonValue::Number(JsonNumber::PosInt(size)))])
}

fn dir(members: Vec<(&str, JsonValue)>) -> JsonValue {
    obj(vec![("files", obj(members))])
}

/// An archive whose JSON header is `json` bytes long, followed by `data`.
fn archive(json_len: u32, data: &[u8]) -> Vec<u8> {
    let header_size = json_len + 8;
    let mut bytes = Vec::new();
    bytes.extend_from_slice(&4u32.to_le_bytes());
    bytes.extend_from_slice(&header_size.to_le_bytes());
    bytes.extend_from_slice(&(json_len + 4).to_le_bytes());
    bytes.extend_from_slice(&json_len.to_le_bytes());
    bytes.extend(std::iter::repeat(b' ').take(json_len as usize));
    bytes.extend_from_slice(data);
    bytes
}

#[test]
fn layout_reads_the_prefix() {
    let bytes = archive(10, b"DATA");
    let layout = asar_layout("/app.asar", &bytes).unwrap();
    assert_eq!(layout.json_end, 26);
    assert_eq!(layout.header_size, 18);
    assert_eq!(asar_header_bytes(&bytes, layout), vec![b' '; 10]);
}

#[test]
fn layout_errors() {
    assert_eq!(asar_layout("/a.asar", &[0u8; 15]).err(), Some("/a.asar is too small to be an ASAR archive".to_string()));
    let mut bytes = archive(10, b"");
    bytes[12] = 200;
    assert_eq!(asar_layout("/a.asar", &bytes).err(), Some("/a.asar has an invalid ASAR header".to_string()));
}

#[test]
fn entries_walk_the_tree_in_member_order() {
    let header = dir(vec![
        ("a.wasm", file("0", 2)),
        ("lib", dir(vec![("b.wasm", file("2", 3)), ("c.txt", file("5", 1)), ("d.wasm", obj(vec![("size", JsonValue::Number(JsonNumber::PosInt(1)))]))])),
        ("e.wasm", file("x", 1)),
    ]);
    let mut out = Vec::new();
    collect_asar_wasm_entries("", &header, &mut out);
    assert_eq!(out, vec![("/a.wasm".to_string(), 0, 2), ("/lib/b.wasm".to_string(), 2, 3)]);
}

#[test]
fn candidates_prefer_desktop_files_and_skip_out_of_range() {
    let data = b"AABBBCCDDD";
    let header = dir(vec![
        ("other", dir(vec![("x.wasm", file("0", 2))])),
        ("desktop-main", dir(vec![("m.wasm", file("2", 3))])),
        ("desktop-companion", dir(vec![("c.wasm", file("5", 2))])),
        ("far.wasm", file("8", 100)),
    ]);
    let bytes = archive(6, data);
    let layout = asar_layout("/app.asar", &bytes).unwrap();
    let found = wasm_candidates(&bytes, layout, &header).unwrap();
    let got: Vec<(String, Vec<u8>)> = found.into_iter().map(|c| (c.path, c.bytes)).collect();
    assert_eq!(
        got,
        vec![
            ("/desktop-main/m.wasm".to_string(), b"BBB".to_vec()),
            ("/desktop-companion/c.wasm".to_string(), b"CC".to_vec()),
            ("/other/x.wasm".to_string(), b"AA".to_vec()),
        ]
    );
}

#[test]
fn candidates_read_at_most_twelve() {
    let members: Vec<(String, JsonValue)> =
        (0..15).map(|i| (format!("f{i:02}.wasm"), file(&i.to_string(), 1))).collect();
    let header = obj(vec![("files", JsonValue::Object(members))]);
    let bytes = archive(4, &[7u8; 20]);
    let layout = asar_layout("/app.asar", &bytes).unwrap();
    assert_eq!(wasm_candidates(&bytes, layout, &header).unwrap().len(), 12);
}

#[test]
fn candidate_range_overflow_is_an_error() {
    let header = dir(vec![("big.wasm", file(&u64::MAX.to_string(), 1))]);
    let bytes = archive(4, &[0u8; 4]);
    let layout = asar_layout("/app.asar", &bytes).unwrap();
    assert_eq!(wasm_candidates(&bytes, layout, &header).err(), Some("Invalid ASAR file range".to_string()));
}

#[test]
fn no_candidates_is_an_error() {
    assert_eq!(
        require_candidates(Vec::new()).err(),
        Some("No WASM files found in the installed Splice app".to_string())
    );
    let one = vec![WasmCandidate { path: "/a.wasm".to_string(), bytes: vec![1] }];
    assert_eq!(require_candidates(one).unwrap().len(), 1);
}

/// An archive whose header is the JSON text `json`, followed by `data`.
fn archive_with_header(json: &str, data: &[u8]) -> Vec<u8> {
    let mut bytes = archive(json.len() as u32, data);
    bytes[16..16 + json.len()].copy_from_slice(json.as_bytes());
    bytes
}

#[test]
fn whole_archive_is_read() {
    let json = r#"{"files":{"desktop-main":{"files":{"m.wasm":{"offset":"1","size":2}}},"a.wasm":{"offset":"0","size":1}}}"#;
    let found = asar_wasm_candidates("/app.asar", &archive_with_header(json, b"XYZ")).unwrap();
    let got: Vec<(String, Vec<u8>)> = found.into_iter().map(|c| (c.path, c.bytes)).collect();
    assert_eq!(got, vec![("/desktop-main/m.wasm".to_string(), b"YZ".to_vec()), ("/a.wasm".to_string(), b"X".to_vec())]);
}

#[test]
fn whole_archive_errors() {
    let err = asar_wasm_candidates("/app.asar", &archive_with_header("{oops", b"")).err().unwrap();
    assert!(err.starts_with("Could not parse ASAR header: "), "{err}");
    assert_eq!(
        asar_wasm_candidates("/app.asar", &[0u8; 3]).err(),
        Some("/app.asar is too small to be an ASAR archive".to_string())
    );
}
