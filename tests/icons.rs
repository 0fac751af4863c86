use archstore::icons::{icon_name_variations, replace_all};

#[test]
fn icon_names_for_suffixed_package() {
    assert_eq!(
        icon_name_variations("brave-bin"),
        vec!["brave-bin", "brave", "brave_bin", "brave", "brave-browser"]
    );
}

#[test]
fn icon_names_swap_separators() {
    assert_eq!(icon_name_variations("a_b-c"), vec!["a_b-c", "a-b-c", "a_b_c"]);
    assert_eq!(icon_name_variations("vim"), vec!["vim"]);
    assert_eq!(
        icon_name_variations("code"),
        vec!["code", "vscode", "visual-studio-code", "com.visualstudio.code"]
    );
}

#[test]
fn replace_takes_matches_left_to_right() {
    assert_eq!(replace_all("x-bin-bin", "-bin", ""), "x");
    assert_eq!(replace_all("aaa", "aa", "b"), "ba");
    assert_eq!(replace_all("", "a", "b"), "");
}
