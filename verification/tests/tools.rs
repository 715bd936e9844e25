use myme::dates::Moment;
use myme::models::encoding::EncodingModel;
use myme::models::hash::{remove_spaces, HashModel};
use myme::models::jwt::JwtModel;
use myme::models::time::{format_relative_time, TimeModel};
use myme::models::uuid::{format_uuid, UuidModel};

fn encoder(kind: &str, input: &str) -> EncodingModel {
    let mut m = EncodingModel::new();
    m.encoding_type = kind.to_string();
    m.input = input.to_string();
    m
}

fn encoded(kind: &str, input: &str) -> String {
    let mut m = encoder(kind, input);
    m.encode();
    assert_eq!(m.error_message, "");
    m.output
}

fn decoded(kind: &str, input: &str) -> (String, String) {
    let mut m = encoder(kind, input);
    m.decode();
    (m.output, m.error_message)
}

#[test]
fn encodes_in_each_encoding() {
    assert_eq!(encoded("base64", "hello"), "aGVsbG8=");
    assert_eq!(encoded("base64url", "\u{fb}\u{ff}"), "w7vDvw==");
    assert_eq!(encoded("base64url", "??>"), "Pz8-");
    assert_eq!(encoded("base64", "??>"), "Pz8+");
    assert_eq!(encoded("hex", "Hi!"), "486921");
    assert_eq!(encoded("url", "a b&c/d"), "a%20b%26c%2Fd");
    // An unknown encoding name means Base64.
    assert_eq!(encoded("rot13", "hello"), "aGVsbG8=");
    assert_eq!(encoded("hex", ""), "");
}

#[test]
fn decodes_in_each_encoding() {
    assert_eq!(decoded("base64", " aGVsbG8= \n"), ("hello".to_string(), String::new()));
    assert_eq!(decoded("base64url", "Pz8-"), ("??>".to_string(), String::new()));
    assert_eq!(decoded("hex", "486921"), ("Hi!".to_string(), String::new()));
    assert_eq!(decoded("url", "a%20b%26c%2Fd"), ("a b&c/d".to_string(), String::new()));
    assert_eq!(decoded("hex", ""), (String::new(), String::new()));
}

#[test]
fn decoding_errors() {
    assert_eq!(decoded("hex", "abc"), (String::new(), "Invalid Hex: Odd number of digits".to_string()));
    let (out, err) = decoded("hex", "zz");
    assert_eq!(out, "");
    assert!(err.starts_with("Invalid Hex: "), "{err}");
    let (out, err) = decoded("base64", "@@@");
    assert_eq!(out, "");
    assert!(err.starts_with("Invalid Base64: "), "{err}");
    let (out, err) = decoded("base64url", "a+b/");
    assert_eq!(out, "");
    assert!(err.starts_with("Invalid Base64 URL: "), "{err}");
    let (out, err) = decoded("hex", "ff");
    assert_eq!(out, "");
    assert!(err.starts_with("Invalid UTF-8: "), "{err}");
    let (out, err) = decoded("url", "%ff");
    assert_eq!(out, "");
    assert!(err.starts_with("Invalid URL encoding: "), "{err}");
    assert_eq!(decoded("rot13", "x"), (String::new(), "Unknown encoding type".to_string()));
}

#[test]
fn base64_accepts_only_what_it_writes() {
    // Missing padding, set trailing bits and misplaced padding are refused.
    for text in ["aGVsbG8", "aGVsbG9=", "aG=sbG8=", "a", "===="] {
        let (out, err) = decoded("base64", text);
        assert_eq!(out, "", "{text}");
        assert!(err.starts_with("Invalid Base64: "), "{text}: {err}");
    }
    assert_eq!(decoded("base64", ""), (String::new(), String::new()));
    assert_eq!(decoded("base64", "YWI="), ("ab".to_string(), String::new()));
    assert_eq!(decoded("base64", "YQ=="), ("a".to_string(), String::new()));
}

#[test]
fn decode_undoes_encode() {
    for kind in ["base64", "base64url", "hex", "url"] {
        for text in ["hello world", "ünïcödé ✓", "a+b/c=d&e?f"] {
            let mut m = encoder(kind, text);
            m.encode();
            m.swap();
            assert_eq!(m.output, "");
            m.decode();
            assert_eq!(m.output, text, "{kind}");
            assert_eq!(m.error_message, "");
        }
    }
}

#[test]
fn clear_keeps_the_encoding() {
    let mut m = encoder("hex", "abc");
    m.encode();
    m.clear();
    assert_eq!(m.input, "");
    assert_eq!(m.output, "");
    assert_eq!(m.encoding_type, "hex");
}

const ABC_MD5: &str = "900150983cd24fb0d6963f7d28e17f72";
const ABC_SHA1: &str = "a9993e364706816aba3e25717850c26c9cd0d89d";
const ABC_SHA256: &str = "ba7816bf8f01cfea414140de5dae2223b00361a396177a9cb410ff61f20015ad";
const ABC_SHA512: &str = "ddaf35a193617abacc417349ae20413112e6fa4e89a97ea20a9eeee64b55d39a2192992a274fc1a836ba3c23a3feebbd454d4423643ce80e2a9ac94fa54ca49f";

#[test]
fn hashes_text() {
    let mut m = HashModel::new();
    m.input = "abc".to_string();
    m.hash_text();
    assert_eq!(m.hash_md5, ABC_MD5);
    assert_eq!(m.hash_sha1, ABC_SHA1);
    assert_eq!(m.hash_sha256, ABC_SHA256);
    assert_eq!(m.hash_sha512, ABC_SHA512);
    m.input = String::new();
    m.hash_text();
    assert_eq!(m.hash_md5, "");
    assert_eq!(m.hash_sha512, "");
}

#[test]
fn hashes_file_contents() {
    let mut m = HashModel::new();
    m.hash_file("/tmp/data/abc.txt", Ok(b"abc".to_vec()));
    assert_eq!(m.file_name, "abc.txt");
    assert_eq!(m.file_path, "/tmp/data/abc.txt");
    assert_eq!(m.file_size, 3);
    assert_eq!(m.hash_sha256, ABC_SHA256);
    assert_eq!(m.export_checksums(), format!("{}  abc.txt\n", ABC_SHA256));

    m.hash_file("/missing", Err("No such file or directory".to_string()));
    assert_eq!(m.error_message, "Failed to read file: No such file or directory");
    assert_eq!(m.file_name, "abc.txt");
}

#[test]
fn export_names_text_input() {
    let mut m = HashModel::new();
    assert_eq!(m.export_checksums(), "");
    m.input = "abc".to_string();
    m.hash_text();
    assert_eq!(m.export_checksums(), format!("{}  input.txt\n", ABC_SHA256));
}

#[test]
fn computes_hmac() {
    let mut m = HashModel::new();
    m.input = "The quick brown fox jumps over the lazy dog".to_string();
    m.hmac_key = "key".to_string();
    m.compute_hmac();
    assert_eq!(m.hmac_result, "f7bc83f430538424b13298e6aa6fb143ef4d59a14946175997479dbc2d1a3cd8");
    m.hmac_algorithm = "sha512".to_string();
    m.compute_hmac();
    assert_eq!(
        m.hmac_result,
        "b42af09057bac1e2d41708e48a902e09b5ff7f12ab428a4fe86653c73dd248fb82f948a549f7b791a5b41915ee4d1ec3935357e4e2317250d0372afa2ebeeb3a"
    );
    m.hmac_key = String::new();
    m.compute_hmac();
    assert_eq!(m.hmac_result, "");
}

#[test]
fn compares_against_each_hash() {
    let mut m = HashModel::new();
    m.input = "abc".to_string();
    m.hash_text();
    m.compare_hash = ABC_SHA1.to_uppercase();
    m.compare();
    assert_eq!(m.compare_result, "match:SHA-1");
    m.compare_hash = "9001 5098 3cd2 4fb0 d696 3f7d 28e1 7f72".to_string();
    m.compare();
    assert_eq!(m.compare_result, "match:MD5");
    m.compare_hash = ABC_SHA512.to_string();
    m.compare();
    assert_eq!(m.compare_result, "match:SHA-512");
    m.compare_hash = "deadbeef".to_string();
    m.compare();
    assert_eq!(m.compare_result, "no-match");
    m.compare_hash = "   ".to_string();
    m.compare();
    assert_eq!(m.compare_result, "");
    assert_eq!(remove_spaces(" a b  c "), "abc");
}

#[test]
fn clear_empties_hash_model() {
    let mut m = HashModel::new();
    m.input = "abc".to_string();
    m.hash_text();
    m.clear();
    assert_eq!(m.input, "");
    assert_eq!(m.hash_sha256, "");
    assert_eq!(m.file_size, 0);
}

fn jwt(payload: &str, secret: &str, algorithm: &str) -> JwtModel {
    let mut m = JwtModel::new();
    m.payload = payload.to_string();
    m.secret = secret.to_string();
    m.algorithm = algorithm.to_string();
    m.generate_token();
    m
}

#[test]
fn generates_signed_tokens() {
    let m = jwt(r#"{"sub":"1234567890"}"#, "secret", "HS256");
    assert_eq!(m.error_message, "");
    let parts: Vec<&str> = m.generated_token.split('.').collect();
    assert_eq!(parts.len(), 3);
    let mut header = EncodingModel::new();
    header.encoding_type = "base64url".to_string();
    let pad = (4 - parts[0].len() % 4) % 4;
    header.input = format!("{}{}", parts[0], "=".repeat(pad));
    header.decode();
    assert_eq!(header.error_message, "");
    assert!(header.output.contains("\"alg\":\"HS256\""), "{}", header.output);
    assert_eq!(m.copy_to_clipboard(), Some(m.generated_token.len()));

    let m512 = jwt(r#"{"sub":"1234567890"}"#, "secret", "HS512");
    assert_ne!(m512.generated_token, m.generated_token);
    // An unknown algorithm name means HS256.
    let other = jwt(r#"{"sub":"1234567890"}"#, "secret", "RS256");
    assert_eq!(other.generated_token, m.generated_token);
}

#[test]
fn token_errors() {
    let m = jwt("   ", "secret", "HS256");
    assert_eq!(m.error_message, "Payload is required");
    assert_eq!(m.generated_token, "");
    assert_eq!(m.copy_to_clipboard(), None);
    assert_eq!(jwt("{}", "", "HS256").error_message, "Secret key is required");
    assert_eq!(jwt("[1, 2]", "s", "HS256").error_message, "Payload must be a JSON object");
    let bad = jwt("{not json", "s", "HS256");
    assert!(bad.error_message.starts_with("Invalid JSON: "), "{}", bad.error_message);
}

#[test]
fn formats_uuids() {
    let b: [u8; 16] = [
        0x88, 0x63, 0x13, 0xe1, 0x3b, 0x8a, 0x53, 0x72, 0x9b, 0x90, 0x0c, 0x9a, 0xee, 0x19, 0x9e, 0x5d,
    ];
    assert_eq!(format_uuid(b, "standard"), "886313e1-3b8a-5372-9b90-0c9aee199e5d");
    assert_eq!(format_uuid(b, "no-dashes"), "886313e13b8a53729b900c9aee199e5d");
    assert_eq!(format_uuid(b, "uppercase"), "886313E1-3B8A-5372-9B90-0C9AEE199E5D");
    assert_eq!(format_uuid(b, "braces"), "{886313e1-3b8a-5372-9b90-0c9aee199e5d}");
}

#[test]
fn generates_name_based_uuids() {
    let mut m = UuidModel::new();
    m.version = "v5".to_string();
    m.name = "python.org".to_string();
    m.count = 3;
    m.generate();
    assert_eq!(m.error_message, "");
    assert_eq!(m.generated_uuids.len(), 3);
    for u in &m.generated_uuids {
        assert_eq!(u, "886313e1-3b8a-5372-9b90-0c9aee199e5d");
    }

    m.namespace_type = "custom".to_string();
    m.custom_namespace = "6ba7b810-9dad-11d1-80b4-00c04fd430c8".to_string();
    m.count = 1;
    m.generate();
    assert_eq!(m.generated_uuids, vec!["886313e1-3b8a-5372-9b90-0c9aee199e5d".to_string()]);
}

#[test]
fn custom_namespaces_in_every_form() {
    let forms = [
        "6ba7b810-9dad-11d1-80b4-00c04fd430c8",
        "6BA7B8109DAD11D180B400C04FD430C8",
        "{6ba7b810-9dad-11d1-80b4-00c04fd430c8}",
        "URN:uuid:6ba7b810-9DAD-11d1-80b4-00c04fd430c8",
    ];
    for ns in forms {
        let mut m = UuidModel::new();
        m.version = "v5".to_string();
        m.name = "python.org".to_string();
        m.namespace_type = "custom".to_string();
        m.custom_namespace = ns.to_string();
        m.count = 1;
        m.generate();
        assert_eq!(m.error_message, "", "{ns}");
        assert_eq!(m.generated_uuids, vec!["886313e1-3b8a-5372-9b90-0c9aee199e5d".to_string()], "{ns}");
    }
    for bad in ["6ba7b810-9dad-11d1-80b4-00c04fd430c", "6ba7b8109dad-11d1-80b4-00c04fd430c8", "(6ba7b810-9dad-11d1-80b4-00c04fd430c8)", "6ba7b810-9dad-11d1-80b4-00c04fd430cg"] {
        let mut m = UuidModel::new();
        m.version = "v5".to_string();
        m.name = "python.org".to_string();
        m.namespace_type = "custom".to_string();
        m.custom_namespace = bad.to_string();
        m.generate();
        assert!(m.error_message.starts_with("Invalid custom namespace UUID: "), "{bad}");
        assert!(m.generated_uuids.is_empty());
    }
}

#[test]
fn uuid_generation_errors() {
    let mut m = UuidModel::new();
    m.version = "v5".to_string();
    m.count = 2;
    m.generate();
    assert_eq!(m.error_message, "Name is required for UUID v5");
    assert!(m.generated_uuids.is_empty());

    m.name = "x".to_string();
    m.namespace_type = "custom".to_string();
    m.custom_namespace = "not-a-uuid".to_string();
    m.generate();
    assert!(m.error_message.starts_with("Invalid custom namespace UUID: "), "{}", m.error_message);
    assert!(m.generated_uuids.is_empty());
}

#[test]
fn generates_random_uuids_within_count_limits() {
    let mut m = UuidModel::new();
    m.count = 0;
    m.generate();
    assert_eq!(m.generated_uuids.len(), 1);
    let u = &m.generated_uuids[0];
    assert_eq!(u.len(), 36);
    assert_eq!(&u[14..15], "4");

    m.count = 500;
    m.format = "no-dashes".to_string();
    m.generate();
    assert_eq!(m.generated_uuids.len(), 100);
    assert!(m.generated_uuids.iter().all(|u| u.len() == 32));

    for v in ["v1", "v7"] {
        m.version = v.to_string();
        m.count = 2;
        m.format = "standard".to_string();
        m.generate();
        assert_eq!(m.generated_uuids.len(), 2);
        assert_eq!(&m.generated_uuids[0][14..15], &v[1..2]);
    }
    m.clear();
    assert!(m.generated_uuids.is_empty());
}

#[test]
fn relative_times() {
    assert_eq!(format_relative_time(0), "0 seconds from now");
    assert_eq!(format_relative_time(45), "45 seconds ago");
    assert_eq!(format_relative_time(-45), "45 seconds from now");
    assert_eq!(format_relative_time(60), "1 minute ago");
    assert_eq!(format_relative_time(-7200), "2 hours from now");
    assert_eq!(format_relative_time(86400 * 3 + 5), "3 days ago");
    assert_eq!(format_relative_time(2592000), "1 month ago");
    assert_eq!(format_relative_time(31536000 * 2), "2 years ago");
}

fn at(secs: i64) -> Moment {
    Moment { secs, nanos: 0 }
}

#[test]
fn reads_timestamps() {
    let mut m = TimeModel::new();
    m.input_timestamp = " 1700000000 ".to_string();
    m.parse_timestamp_at(at(1700000060));
    assert_eq!(m.error_message, "");
    assert_eq!(m.output_timestamp, "1700000000");
    assert_eq!(m.output_iso8601, "2023-11-14T22:13:20+00:00");
    assert_eq!(m.output_rfc2822, "Tue, 14 Nov 2023 22:13:20 +0000");
    assert_eq!(m.output_relative, "1 minute ago");

    // Milliseconds above ten digits.
    m.input_timestamp = "1700000000123".to_string();
    m.parse_timestamp_at(at(1700000000));
    assert_eq!(m.output_timestamp, "1700000000");
    assert_eq!(m.output_iso8601, "2023-11-14T22:13:20.123+00:00");

    m.input_timestamp = "12ab".to_string();
    m.parse_timestamp_at(at(0));
    assert_eq!(m.error_message, "Invalid timestamp format");

    m.input_timestamp = String::new();
    m.parse_timestamp_at(at(0));
    assert_eq!(m.error_message, "");
    assert_eq!(m.output_timestamp, "");
}

#[test]
fn far_instants_have_no_rfc2822_text() {
    let mut m = TimeModel::new();
    // Milliseconds in the year 11476.
    m.input_timestamp = "300000000000000".to_string();
    m.parse_timestamp_at(at(0));
    assert_eq!(m.error_message, "");
    assert_eq!(m.output_timestamp, "300000000000");
    assert_eq!(m.output_rfc2822, "");
    assert!(m.output_iso8601.starts_with("+11476-"), "{}", m.output_iso8601);

    // The last second RFC 2822 can write, and the first it cannot.
    m.input_timestamp = "253402300799000".to_string();
    m.parse_timestamp_at(at(0));
    assert_eq!(m.output_rfc2822, "Fri, 31 Dec 9999 23:59:59 +0000");
    m.input_timestamp = "253402300800000".to_string();
    m.parse_timestamp_at(at(0));
    assert_eq!(m.output_rfc2822, "");

    m.input_datetime = "9999-12-31 23:00:00".to_string();
    m.input_timezone = "America/New_York".to_string();
    m.parse_datetime_at(at(0));
    assert_eq!(m.error_message, "");
    assert_eq!(m.output_rfc2822, "");
}

#[test]
fn converts_between_zones() {
    let mut m = TimeModel::new();
    m.input_timestamp = "1700000000".to_string();
    m.parse_timestamp_at(at(1700000000));
    m.target_timezone = "Asia/Tokyo".to_string();
    m.convert_timezone();
    assert_eq!(m.error_message, "");
    assert_eq!(m.converted_time, "2023-11-15 07:13:20 JST");

    m.target_timezone = "Not/AZone".to_string();
    m.convert_timezone();
    assert!(!m.error_message.is_empty());
}

#[test]
fn time_arithmetic() {
    let mut m = TimeModel::new();
    m.input_timestamp = "1700000000".to_string();
    m.parse_timestamp_at(at(1700000000));
    m.add_days = 1;
    m.add_hours = 2;
    assert_eq!(m.arithmetic_offset(), Some(86400 + 7200));
    assert!(m.try_apply_arithmetic());
    assert!(m.arithmetic_result.starts_with("New timestamp: 1700093600\nISO 8601: 2023-11-16T00:13:20+00:00\nLocal: "), "{}", m.arithmetic_result);

    m.add_days = i64::MAX;
    assert_eq!(m.arithmetic_offset(), None);
    assert!(!m.try_apply_arithmetic());
}

#[test]
fn clear_resets_time_model() {
    let mut m = TimeModel::new();
    m.input_timestamp = "1700000000".to_string();
    m.parse_timestamp_at(at(1700000000));
    m.clear();
    assert_eq!(m.input_timestamp, "");
    assert_eq!(m.output_iso8601, "");
}

#[test]
fn generated_uuids_carry_the_selected_version() {
    for (version, nibble) in [("v4", "4"), ("v1", "1"), ("v7", "7"), ("anything", "4")] {
        let mut m = UuidModel::new();
        m.version = version.to_string();
        m.count = 3;
        m.generate();
        assert_eq!(m.error_message, "");
        assert_eq!(m.generated_uuids.len(), 3);
        for u in &m.generated_uuids {
            assert_eq!(u.len(), 36);
            assert_eq!(&u[14..15], nibble, "{version}: {u}");
            assert!(matches!(&u[19..20], "8" | "9" | "a" | "b"), "{version}: {u}");
        }
        if version == "v1" {
            assert!(m.generated_uuids[0].ends_with("-001122334455"));
        }
    }
}
