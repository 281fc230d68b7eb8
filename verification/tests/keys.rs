use bindizr::keys::{key_file_base_name, print_bind_key, print_key_material, ExportedKey};

fn key(role: &str, algorithm: u32, key_tag: u32, private: &str) -> ExportedKey {
    ExportedKey {
        role: role.to_string(),
        algorithm,
        key_tag,
        dnskey_record: format!("example.com. IN DNSKEY 257 3 {} AAAA", algorithm),
        private_key: private.to_string(),
    }
}

#[test]
fn key_files_are_named_as_dnssec_keygen_names_them() {
    let keys = vec![key("ksk", 13, 4711, "x"), key("zsk", 8, 65535, "y")];
    assert_eq!(key_file_base_name("example.com", &keys, 0), "Kexample.com.+013+04711");
    assert_eq!(key_file_base_name("example.com", &keys, 1), "Kexample.com.+008+65535");
}

#[test]
fn keys_sharing_algorithm_and_tag_get_distinct_names() {
    let keys = vec![key("ksk", 13, 1, "a"), key("zsk", 13, 1, "b"), key("csk", 13, 2, "c"), key("zsk", 13, 1, "d")];
    let names: Vec<String> = (0..keys.len()).map(|i| key_file_base_name("z", &keys, i)).collect();
    assert_eq!(names, vec!["Kz.+013+00001", "Kz.+013+00001.2", "Kz.+013+00002", "Kz.+013+00001.3"]);
    for i in 0..names.len() {
        for j in 0..i {
            assert_ne!(names[i], names[j]);
        }
    }
}

#[test]
fn key_material_prints_each_file_pair() {
    let keys = vec![key("ksk", 13, 4711, "Private-key-format: v1.3\nAlgorithm: 13\n\n")];
    let lines = print_key_material("example.com", &keys);
    assert_eq!(
        lines,
        vec![
            "; Kexample.com.+013+04711.key (ksk, tag 4711)".to_string(),
            "example.com. IN DNSKEY 257 3 13 AAAA".to_string(),
            "; Kexample.com.+013+04711.private".to_string(),
            "Private-key-format: v1.3\nAlgorithm: 13".to_string(),
        ]
    );
    assert!(print_key_material("example.com", &vec![]).is_empty());
}

#[test]
fn a_tsig_key_prints_as_a_bind_key_statement() {
    assert_eq!(
        print_bind_key("xfr", "hmac-sha256", "c2VjcmV0"),
        vec![
            "key \"xfr\" {".to_string(),
            "    algorithm hmac-sha256;".to_string(),
            "    secret \"c2VjcmV0\";".to_string(),
            "};".to_string(),
        ]
    );
}
