use openstar::thesaurus::{encoding_of_extension, Thesaurus, DBZ_MAGIC, DUZ_MAGIC};

fn image(magic: u32, records: &[Vec<u8>]) -> Vec<u8> {
    let table = 16usize;
    let mut out = Vec::new();
    out.extend_from_slice(&magic.to_le_bytes());
    out.extend_from_slice(&(table as u32).to_le_bytes());
    out.extend_from_slice(&0u32.to_le_bytes());
    out.extend_from_slice(&(records.len() as u32).to_le_bytes());
    let mut pos = table + 4 * records.len();
    for r in records {
        out.extend_from_slice(&(pos as u32).to_le_bytes());
        pos += r.len();
    }
    for r in records {
        out.extend_from_slice(r);
    }
    out
}

#[test]
fn extensions_select_width() {
    assert_eq!(encoding_of_extension("DBZ"), Some(false));
    assert_eq!(encoding_of_extension("dbz"), Some(false));
    assert_eq!(encoding_of_extension("Duz"), Some(true));
    assert_eq!(encoding_of_extension("txt"), None);
}

#[test]
fn eight_bit_strings() {
    let data = image(DBZ_MAGIC, &[b"Hello\0".to_vec(), b"World\0".to_vec()]);
    let t = Thesaurus::from_bytes(data, false, "en".to_string()).unwrap();
    assert_eq!(t.string_count(), 2);
    assert_eq!(t.get_string(1, None).unwrap(), "Hello");
    assert_eq!(t.get_string(2, Some(3)).unwrap(), "Wor");
    assert!(t.get_string(0, None).is_none());
    assert!(t.get_string(3, None).is_none());
    assert_eq!(t.lang(), "en");
}

#[test]
fn sixteen_bit_strings() {
    let rec: Vec<u8> = "Grüß".encode_utf16().flat_map(|u| u.to_le_bytes()).chain([0, 0]).collect();
    let data = image(DUZ_MAGIC, &[rec]);
    let t = Thesaurus::from_bytes(data, true, "de".to_string()).unwrap();
    assert!(t.is_utf16());
    assert_eq!(t.get_string(1, None).unwrap(), "Grüß");
    assert_eq!(t.get_string(1, Some(2)).unwrap(), "Gr");
}

#[test]
fn bad_images_are_refused() {
    assert!(Thesaurus::from_bytes(Vec::new(), false, "en".into()).is_none());
    assert!(Thesaurus::from_bytes(vec![0x42, 0x13, 0x42, 0x13], false, "en".into()).is_none());
    let data = image(DBZ_MAGIC, &[b"x\0".to_vec()]);
    assert!(Thesaurus::from_bytes(data.clone(), true, "en".into()).is_none());
    assert!(Thesaurus::from_bytes(data, false, "en".into()).is_some());
}
