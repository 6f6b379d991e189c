use flexplore::naming::{file_url, snake_to_camel};

#[test]
fn camel_names_of_cases() {
    assert_eq!(snake_to_camel("holy_grail"), "HolyGrail");
    assert_eq!(snake_to_camel("tpl_nav_bar"), "TplNavBar");
    assert_eq!(snake_to_camel("deep_chain_3"), "DeepChain3");
    assert_eq!(snake_to_camel("row"), "Row");
}

#[test]
fn camel_names_edge_cases() {
    assert_eq!(snake_to_camel(""), "");
    assert_eq!(snake_to_camel("_"), "");
    assert_eq!(snake_to_camel("a__b"), "AB");
    assert_eq!(snake_to_camel("_lead"), "Lead");
    assert_eq!(snake_to_camel("trail_"), "Trail");
    assert_eq!(snake_to_camel("already_Camel"), "AlreadyCamel");
}

#[test]
fn camel_names_use_full_uppercase_mapping() {
    assert_eq!(snake_to_camel("straße_ß"), "StraßeSS");
    assert_eq!(snake_to_camel("émile_ölig"), "ÉmileÖlig");
}

#[test]
fn file_urls_of_unix_paths() {
    assert_eq!(file_url("/home/u/testdata/row/page.html"), "file:////home/u/testdata/row/page.html");
}

#[test]
fn file_urls_of_windows_paths() {
    assert_eq!(file_url("\\\\?\\C:\\work\\testdata\\row.html"), "file:///C:/work/testdata/row.html");
    assert_eq!(file_url("C:\\work\\row.html"), "file:///C:/work/row.html");
    assert_eq!(file_url(""), "file:///");
    assert_eq!(file_url("//?"), "file://///?");
}
