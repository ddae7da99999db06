use aa_headunit_diagnostics::browser::{browser_listing, browser_row_label, BrowserEntry};

fn entry(is_dir: bool, name: &str) -> BrowserEntry {
    BrowserEntry { is_dir, name: name.to_string() }
}

#[test]
fn directories_first_then_by_name_hidden_left_out() {
    let listing = browser_listing(vec![
        entry(false, "b.key"),
        entry(true, "zeta"),
        entry(false, ".hidden"),
        entry(false, "a.crt"),
        entry(true, "Alpha"),
        entry(true, ".config"),
    ]);
    assert_eq!(
        listing,
        vec![entry(true, "Alpha"), entry(true, "zeta"), entry(false, "a.crt"), entry(false, "b.key")]
    );
}

#[test]
fn row_labels_carry_an_icon() {
    assert_eq!(browser_row_label(&entry(true, "docs")), "📁 docs");
    assert_eq!(browser_row_label(&entry(false, "key.pem")), "📄 key.pem");
}
