use rustume::schema::Decimal;
use rustume::utils::layout::{
    find_item_in_layout, move_item_in_layout, remove_item_in_layout, LayoutLocator,
};
use rustume::utils::{
    create_id, extract_url, format_date_range, get_initials, hex_to_rgb, hex_to_rgb_string,
    is_empty_string, is_url, is_valid_email, is_valid_id, process_username,
};

#[test]
fn test_hex_to_rgb() {
    assert_eq!(hex_to_rgb("#ffffff"), Some((255, 255, 255)));
    assert_eq!(hex_to_rgb("#000000"), Some((0, 0, 0)));
    assert_eq!(hex_to_rgb("#dc2626"), Some((220, 38, 38)));
    assert_eq!(hex_to_rgb("invalid"), None);
}

#[test]
fn test_hex_to_rgb_without_hash() {
    assert_eq!(hex_to_rgb("ffffff"), Some((255, 255, 255)));
    assert_eq!(hex_to_rgb("dc2626"), Some((220, 38, 38)));
}

#[test]
fn test_hex_to_rgb_with_whitespace() {
    assert_eq!(hex_to_rgb("  #ffffff  "), Some((255, 255, 255)));
    assert_eq!(hex_to_rgb("\t#000000\n"), Some((0, 0, 0)));
}

#[test]
fn test_hex_to_rgb_rejects_multiple_hashes() {
    assert_eq!(hex_to_rgb("##ffffff"), None);
    assert_eq!(hex_to_rgb("###ffffff"), None);
}

#[test]
fn test_hex_to_rgb_string() {
    assert_eq!(hex_to_rgb_string("#ffffff", None), "rgb(255, 255, 255)");
    let half = Decimal::parse("0.5").unwrap();
    assert_eq!(hex_to_rgb_string("#000000", Some(&half)), "rgba(0, 0, 0, 0.5)");
}

#[test]
fn test_hex_to_rgb_string_passthrough() {
    assert_eq!(hex_to_rgb_string("red", None), "red");
    assert_eq!(hex_to_rgb_string("blue", None), "blue");
    assert_eq!(hex_to_rgb_string("transparent", None), "transparent");

    assert_eq!(hex_to_rgb_string("invalid", None), "invalid");
    assert_eq!(hex_to_rgb_string("", None), "");
    assert_eq!(hex_to_rgb_string("#fff", None), "#fff");

    let half = Decimal::parse("0.5").unwrap();
    assert_eq!(hex_to_rgb_string("red", Some(&half)), "red");
}

#[test]
fn test_hex_to_rgb_non_ascii() {
    assert_eq!(hex_to_rgb("🔴abcde"), None);
    assert_eq!(hex_to_rgb("café12"), None);
}

#[test]
fn hex_to_rgb_takes_a_plus_sign_for_a_digit() {
    assert_eq!(hex_to_rgb("+f+f+f"), Some((15, 15, 15)));
    assert_eq!(hex_to_rgb("-f0000"), None);
    assert_eq!(u8::from_str_radix("+f", 16).ok(), Some(15));
}

#[test]
fn test_format_date_range() {
    assert_eq!(format_date_range(Some("2020"), Some("2023")), "2020 - 2023");
    assert_eq!(format_date_range(Some("2020"), None), "2020 - Present");
    assert_eq!(format_date_range(Some("2020"), Some("")), "2020 - Present");
    assert_eq!(format_date_range(None, None), "");
    assert_eq!(format_date_range(None, Some("2021")), "2021");
    assert_eq!(format_date_range(Some("  "), Some("2023")), "2023");
    assert_eq!(format_date_range(Some("2020"), Some("   ")), "2020 - Present");
}

#[test]
fn test_create_id() {
    let id = create_id();
    assert!(!id.is_empty());
    assert!(is_valid_id(&id));
}

#[test]
fn ids_have_the_shape_that_is_claimed() {
    for _ in 0..200 {
        let id = create_id();
        assert!(id.len() >= 2 && id.len() <= 24);
        assert!(id.chars().next().unwrap().is_ascii_lowercase());
        assert!(id.chars().all(|c| c.is_ascii_lowercase() || c.is_ascii_digit()));
    }
    assert!(!is_valid_id("a"));
    assert!(!is_valid_id("1abc"));
    assert!(!is_valid_id("abC"));
    assert!(is_valid_id("ab"));
    assert!(!is_valid_id("a12345678901234567890123456789012"));
}

#[test]
fn test_find_item_in_layout() {
    let layout = vec![vec![
        vec!["summary".to_string(), "experience".to_string()],
        vec!["skills".to_string()],
    ]];

    let loc = find_item_in_layout("experience", &layout);
    assert_eq!(loc, Some(LayoutLocator { page: 0, column: 0, section: 1 }));

    assert_eq!(find_item_in_layout("nonexistent", &layout), None);
}

#[test]
fn test_remove_item_in_layout() {
    let mut layout = vec![vec![
        vec!["summary".to_string(), "experience".to_string()],
        vec!["skills".to_string()],
    ]];

    let loc = remove_item_in_layout("experience", &mut layout);
    assert_eq!(loc, Some(LayoutLocator { page: 0, column: 0, section: 1 }));
    assert_eq!(layout[0][0], vec!["summary".to_string()]);

    assert_eq!(remove_item_in_layout("nonexistent", &mut layout), None);
}

#[test]
fn test_move_item_in_layout() {
    let layout = vec![vec![
        vec!["summary".to_string(), "experience".to_string(), "education".to_string()],
        vec!["skills".to_string()],
    ]];

    let current = LayoutLocator { page: 0, column: 0, section: 1 };
    let target = LayoutLocator { page: 0, column: 1, section: 0 };
    let new_layout = move_item_in_layout(current, target, &layout);

    assert_eq!(new_layout[0][0], vec!["summary".to_string(), "education".to_string()]);
    assert_eq!(new_layout[0][1], vec!["experience".to_string(), "skills".to_string()]);
}

#[test]
fn test_move_item_within_same_column() {
    let layout = vec![vec![vec!["a".to_string(), "b".to_string(), "c".to_string()]]];

    let current = LayoutLocator { page: 0, column: 0, section: 0 };
    let target = LayoutLocator { page: 0, column: 0, section: 2 };
    let new_layout = move_item_in_layout(current, target, &layout);

    assert_eq!(new_layout[0][0], vec!["b".to_string(), "a".to_string(), "c".to_string()]);
}

#[test]
fn test_move_item_to_new_page() {
    let layout = vec![vec![vec!["summary".to_string()]]];

    let current = LayoutLocator { page: 0, column: 0, section: 0 };
    let target = LayoutLocator { page: 1, column: 0, section: 0 };
    let new_layout = move_item_in_layout(current, target, &layout);

    assert_eq!(new_layout.len(), 2);
    assert!(new_layout[0][0].is_empty());
    assert_eq!(new_layout[1][0], vec!["summary".to_string()]);
}

#[test]
fn moving_from_a_place_that_is_not_there_changes_nothing() {
    let layout = vec![vec![vec!["a".to_string()]]];
    let current = LayoutLocator { page: 3, column: 0, section: 0 };
    let target = LayoutLocator { page: 0, column: 0, section: 0 };
    assert_eq!(move_item_in_layout(current, target, &layout), layout);
}

#[test]
fn test_get_initials() {
    assert_eq!(get_initials("John Doe"), "JD");
    assert_eq!(get_initials("Alice Bob Charlie"), "ABC");
    assert_eq!(get_initials(""), "");
}

#[test]
fn test_is_url() {
    assert!(is_url("https://example.com"));
    assert!(is_url("http://example.com/path"));
    assert!(!is_url("not-a-url"));
    assert!(!is_url(""));
    assert!(!is_url("check out https://example.com for more"));
    assert!(!is_url("prefix https://example.com"));
}

#[test]
fn test_extract_url() {
    assert_eq!(
        extract_url("check out https://example.com for more").as_deref(),
        Some("https://example.com")
    );
    assert_eq!(extract_url("no url here"), None);
}

#[test]
fn test_is_empty_string() {
    assert!(is_empty_string(""));
    assert!(is_empty_string("   "));
    assert!(is_empty_string("<p></p>"));
    assert!(!is_empty_string("hello"));
}

#[test]
fn editor_residue_counts_as_empty() {
    assert!(is_empty_string(" <p><br></p> "));
    assert!(is_empty_string("<p>&nbsp;</p>"));
    assert!(!is_empty_string("<p>x</p>"));
}

#[test]
fn test_is_valid_email_valid() {
    assert!(is_valid_email("test@example.com"));
    assert!(is_valid_email("user.name+tag@domain.co.uk"));
    assert!(is_valid_email("user_name@example.org"));
    assert!(is_valid_email("name123@company.io"));
}

#[test]
fn test_is_valid_email_invalid() {
    assert!(!is_valid_email(""));
    assert!(!is_valid_email("not-an-email"));
    assert!(!is_valid_email("@example.com"));
    assert!(!is_valid_email("test@"));
    assert!(!is_valid_email("test@.com"));
    assert!(!is_valid_email("test @example.com"));
}

#[test]
fn test_process_username() {
    assert_eq!(process_username("John Doe"), "johndoe");
    assert_eq!(process_username("user.name"), "user.name");
    assert_eq!(process_username("User-Name"), "user-name");
    assert_eq!(process_username("Über"), "über");
    assert_eq!(process_username("test_user"), "testuser");
    assert_eq!(process_username("  spaces  "), "spaces");
}
