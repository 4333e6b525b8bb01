use esp32_lighting::html::{conditional_class, index_view, IndexProps};

#[test]
fn conditional_class_adds_when_true() {
    assert_eq!(conditional_class("nav-link", "active", true), "nav-link active");
    assert_eq!(conditional_class("nav-link", "active", false), "nav-link");
}

#[test]
fn index_view_marks_one_link() {
    let on = index_view(&IndexProps { light: true });
    assert_eq!(on.status, "ON");
    assert_eq!(on.on_class, "nav-link active");
    assert_eq!(on.off_class, "nav-link");
    let off = index_view(&IndexProps { light: false });
    assert_eq!(off.status, "OFF");
    assert_eq!(off.on_class, "nav-link");
    assert_eq!(off.off_class, "nav-link active");
}
