use rusqlite_async::connection::{generate_uuid, identity_text};
use rusqlite_async::naming::{
    bucket_names, bucket_target_path, file_names, file_target_path, get_filename, list_names,
    mangle_bucket, mangle_filename, EntryKind, ListedEntry,
};

fn entry(kind: EntryKind, stem: &str) -> ListedEntry {
    ListedEntry { kind, stem: Some(stem.to_string()) }
}

#[test]
fn a_bucket_name_is_encoded_url_safe_without_padding() {
    assert_eq!(mangle_bucket("b1"), "YjE");
    assert_eq!(mangle_bucket("b2"), "YjI");
    assert_eq!(mangle_bucket("b"), "Yg");
    assert_eq!(mangle_bucket(""), "");
    assert_eq!(mangle_bucket("???>>>"), "Pz8_Pj4-");
}

#[test]
fn a_file_name_is_encoded_and_suffixed() {
    assert_eq!(mangle_filename("f"), "Zg.db");
    assert_eq!(mangle_filename("thread"), "dGhyZWFk.db");
    assert_eq!(mangle_filename(""), ".db");
}

#[test]
fn get_filename_decodes_a_name_on_disk() {
    assert_eq!(get_filename("YjE"), Some("b1".to_string()));
    assert_eq!(get_filename("dGhyZWFk"), Some("thread".to_string()));
    assert_eq!(get_filename(""), Some(String::new()));
}

#[test]
fn get_filename_passes_over_what_is_no_encoding() {
    assert_eq!(get_filename("not base64!"), None);
    assert_eq!(get_filename("YjE="), None);
    assert_eq!(get_filename("Y"), None);
}

#[test]
fn get_filename_replaces_bytes_that_are_no_text() {
    assert_eq!(get_filename("_w"), Some("\u{fffd}".to_string()));
}

#[test]
fn decoding_an_encoded_name_gives_the_name_back() {
    let names = ["b", "bucket one", "a/b\\c", "ünïcødé ☃", "", "..", "with.dots.db", "\u{0}\u{1}"];
    for name in names {
        assert_eq!(get_filename(&mangle_bucket(name)), Some(name.to_string()));
        let file = mangle_filename(name);
        assert!(file.ends_with(".db"));
        assert_eq!(get_filename(&file[..file.len() - 3]), Some(name.to_string()));
    }
}

#[test]
fn distinct_names_have_distinct_encodings() {
    assert_ne!(mangle_bucket("a"), mangle_bucket("A"));
    assert_ne!(mangle_bucket("a"), mangle_bucket("a "));
    assert_ne!(mangle_filename("x"), mangle_filename("y"));
}

#[test]
fn a_bucket_is_a_directory_under_home() {
    assert_eq!(bucket_target_path("/var/data", "b1").expect("a path"), "/var/data/YjE");
    assert_eq!(bucket_target_path("folder", "amico").expect("a path"), "folder/YW1pY28");
    assert_eq!(bucket_target_path("/var/data/", "b1").expect("a path"), "/var/data/YjE");
}

#[test]
fn a_file_is_a_database_file_in_its_bucket() {
    assert_eq!(file_target_path("/var/data", "b", "f").expect("a path"), "/var/data/Yg/Zg.db");
    assert_eq!(
        file_target_path("folder", "amico", "thread").expect("a path"),
        "folder/YW1pY28/dGhyZWFk.db"
    );
}

#[test]
fn the_paths_of_distinct_names_differ() {
    let one = file_target_path("home", "b", "f").expect("a path");
    assert_ne!(file_target_path("home", "b", "g").expect("a path"), one);
    assert_ne!(file_target_path("home", "c", "f").expect("a path"), one);
    assert_ne!(bucket_target_path("home", "b").expect("a path"), one);
}

#[test]
fn list_buckets_is_the_set_of_buckets_whatever_their_order() {
    let one_way = vec![entry(EntryKind::Directory, "YjE"), entry(EntryKind::Directory, "YjI")];
    let other_way = vec![entry(EntryKind::Directory, "YjI"), entry(EntryKind::Directory, "YjE")];
    let mut first = bucket_names(&one_way);
    let mut second = bucket_names(&other_way);
    first.sort();
    second.sort();
    assert_eq!(first, vec!["b1".to_string(), "b2".to_string()]);
    assert_eq!(second, first);
    let after_delete = vec![entry(EntryKind::Directory, "YjI")];
    assert_eq!(bucket_names(&after_delete), vec!["b2".to_string()]);
}

#[test]
fn listing_keeps_the_order_of_the_entries() {
    let entries = vec![
        entry(EntryKind::File, "Yw"),
        entry(EntryKind::File, "YQ"),
        entry(EntryKind::File, "Yg"),
    ];
    assert_eq!(file_names(&entries), vec!["c".to_string(), "a".to_string(), "b".to_string()]);
}

#[test]
fn listing_passes_over_entries_of_another_kind() {
    let entries = vec![
        entry(EntryKind::File, "YjE"),
        entry(EntryKind::Directory, "YjI"),
        entry(EntryKind::Other, "Yg"),
    ];
    assert_eq!(bucket_names(&entries), vec!["b2".to_string()]);
    assert_eq!(file_names(&entries), vec!["b1".to_string()]);
    assert_eq!(list_names(&entries, EntryKind::Other), vec!["b".to_string()]);
}

#[test]
fn listing_passes_over_names_that_do_not_decode() {
    let entries = vec![
        entry(EntryKind::Directory, "lost+found!"),
        ListedEntry { kind: EntryKind::Directory, stem: None },
        entry(EntryKind::Directory, "YjE"),
    ];
    assert_eq!(bucket_names(&entries), vec!["b1".to_string()]);
    assert_eq!(bucket_names(&Vec::new()), Vec::<String>::new());
}

#[test]
fn the_text_of_an_identity_encodes_its_bytes_lowest_first() {
    assert_eq!(identity_text(0), "AAAAAAAAAAAAAAAAAAAAAA");
    assert_eq!(identity_text(1), "AQAAAAAAAAAAAAAAAAAAAA");
    assert_eq!(identity_text(u128::MAX), "_____________________w");
    assert_eq!(identity_text(0x0102), "AgEAAAAAAAAAAAAAAAAAAA");
}

#[test]
fn a_generated_uuid_is_sixteen_encoded_bytes() {
    let text = generate_uuid();
    assert_eq!(text.len(), 22);
    assert!(text.chars().all(|c| c.is_ascii_alphanumeric() || c == '-' || c == '_'));
    assert_ne!(generate_uuid(), text);
}
