use pager::page::select_page;

fn strings(v: &[&str]) -> Vec<String> {
    v.iter().map(|s| s.to_string()).collect()
}

#[test]
fn missing_page_gives_a_notice() {
    assert_eq!(select_page("tar", &Vec::new(), false), "No result found for: tar");
    assert_eq!(select_page("tar", &Vec::new(), true), "No result found for: tar");
}

#[test]
fn first_page_wins_unless_combining() {
    let pages = strings(&["# tar\none", "# tar\ntwo", "three"]);
    assert_eq!(select_page("tar", &pages, false), "# tar\none");
    assert_eq!(select_page("tar", &pages, true), "# tar\none\n# tar\ntwo\nthree");
    assert_eq!(select_page("tar", &strings(&["only"]), true), "only");
}
