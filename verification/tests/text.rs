use opto_sync_mcp_server::text::str_equal;

#[test]
fn string_slices_compare_by_their_characters() {
    assert!(str_equal("", ""));
    assert!(str_equal("opto-sync", "opto-sync"));
    assert!(!str_equal("opto-sync", "opto-sync "));
    assert!(!str_equal("opto-sync", "opto-synd"));
    assert!(!str_equal("a", ""));
    assert!(str_equal("r\u{e9}plica", "r\u{e9}plica"));
    assert!(!str_equal("r\u{e9}plica", "replica"));
}
