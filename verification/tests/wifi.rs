use esp32_lighting::wifi::{str_to_string32, str_to_string64};

#[test]
fn ssid_copied_into_bounded_string() {
    assert_eq!(str_to_string32("home").as_str(), "home");
    assert_eq!(str_to_string32("").as_str(), "");
    let full = "0123456789abcdef0123456789abcdef";
    assert_eq!(str_to_string32(full).as_str(), full);
}

#[test]
fn password_copied_into_bounded_string() {
    assert_eq!(str_to_string64("secret").as_str(), "secret");
    let full = "0123456789abcdef0123456789abcdef0123456789abcdef0123456789abcdef";
    assert_eq!(str_to_string64(full).as_str(), full);
}
