use avif_converter::cli::{bit_values, ThreadNice};
use avif_converter::naming::Name;
use avif_converter::utils::{calculate_tread_count, is_truncatable, sys_threads, truncate_str};

#[test]
fn thread_counts() {
    let t = calculate_tread_count(8, 2);
    assert_eq!(t.spawn_threads, 8);
    assert_eq!(t.task_threads, 4);
    let t = calculate_tread_count(8, 20);
    assert_eq!(t.task_threads, 1);
    let t = calculate_tread_count(3, 2);
    assert_eq!(t.task_threads, 1);
    assert_eq!(sys_threads(5), 5);
    assert!(sys_threads(0) >= 1);
}

#[test]
fn truncate_keeps_short_names() {
    assert_eq!(truncate_str("photo.png", 32), "photo.png");
    assert_eq!(truncate_str("abcd", 4), "abcd");
}

#[test]
fn truncate_long_names() {
    assert_eq!(truncate_str("verylongfilename.png", 10), "verylon3...");
    assert_eq!(truncate_str("abcdefghij", 5), "fgh5...");
    assert_eq!(truncate_str("a-very-long-name-with-dashes", 12), "a-very6...");
}

#[test]
fn bit_depth_option() {
    assert_eq!(bit_values("10"), Ok(10));
    assert_eq!(bit_values("8"), Ok(8));
    assert_eq!(bit_values("12"), Ok(12));
    assert_eq!(bit_values("9"), Err("bit depth must be either 8, 10 or 12".to_string()));
    assert_eq!(bit_values("ten"), Err("`ten` isn't a valid number".to_string()));
    assert_eq!(bit_values("300"), Err("`300` isn't a valid number".to_string()));
}

#[test]
fn names_from_digests() {
    let empty: Vec<u8> = Vec::new();
    let stem = "photo".to_string();
    assert_eq!(Name::MD5.generate_name(&empty, &stem), "d41d8cd98f00b204e9800998ecf8427e");
    assert_eq!(
        Name::SHA256.generate_name(&empty, &stem),
        "e3b0c44298fc1c149afbf4c8996fb92427ae41e4649b934ca495991b7852b855"
    );
    let abc = b"abc".to_vec();
    assert_eq!(Name::MD5.generate_name(&abc, &stem), "900150983cd24fb0d6963f7d28e17f72");
    assert_eq!(Name::Blake2.generate_name(&abc, &stem).len(), 32);
    assert_ne!(Name::Blake2.generate_name(&abc, &stem), Name::Blake2.generate_name(&empty, &stem));
    assert_eq!(Name::Same.generate_name(&abc, &stem), "photo");
    assert_eq!(Name::default(), Name::MD5);
}

#[test]
fn random_names() {
    let empty: Vec<u8> = Vec::new();
    let stem = "photo".to_string();
    let a = Name::Random.generate_name(&empty, &stem);
    assert_eq!(a.len(), 32);
    assert!(a.chars().all(|c| c.is_ascii_lowercase() || c.is_ascii_digit()));
}

#[test]
fn thread_priority_values() {
    assert_eq!(ThreadNice::Max.value(), 0);
    assert_eq!(ThreadNice::Min.value(), 99);
    assert_eq!(ThreadNice::Default.value(), 55);
}

#[test]
fn truncation_domain() {
    assert!(is_truncatable("photo.png", 32));
    assert!(is_truncatable("verylongfilename.png", 10));
    assert!(!is_truncatable("abc", 10));
    assert!(!is_truncatable("abcdef-ghijklmnopqrstuvwxyz", 5));
    assert!(!is_truncatable("abcdefghij", 50) == false);
    assert!(!is_truncatable("abcdefghijkl", 5) == false);
}

#[test]
fn bit_depth_option_with_sign_and_empty() {
    assert_eq!(bit_values("+8"), Ok(8));
    assert_eq!(bit_values("010"), Ok(10));
    assert_eq!(bit_values(""), Err("`` isn't a valid number".to_string()));
    assert_eq!(bit_values("+"), Err("`+` isn't a valid number".to_string()));
}
