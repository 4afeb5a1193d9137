use usedns::messages::{
    display_message, friendly_error_message, latency_label, notice_text, reachable_notice,
    settings_error, Notice, MAX_MESSAGE_CHARS,
};

#[test]
fn cancelled_elevation_is_explained() {
    assert_eq!(
        friendly_error_message("en", "The operation was CANCELLED by the user."),
        "Administrator permission was cancelled. DNS was not changed."
    );
    assert_eq!(
        friendly_error_message("en", "Request canceled"),
        "Administrator permission was cancelled. DNS was not changed."
    );
    assert_eq!(
        friendly_error_message("id", "Permintaan dibatalkan"),
        "Izin Administrator dibatalkan. DNS tidak diubah."
    );
}

#[test]
fn missing_rights_are_explained() {
    let en = "UseDNS needs Administrator permission to change DNS. Approve the UAC prompt and try again.";
    let id = "UseDNS memerlukan izin Administrator untuk mengubah DNS. Setujui dialog UAC lalu coba lagi.";
    assert_eq!(friendly_error_message("en", "Access is denied."), en);
    assert_eq!(friendly_error_message("en", "Run as ADMINISTRATOR"), en);
    assert_eq!(
        friendly_error_message("en", "Set-DnsClientServerAddress : Access to a CIM resource was not available"),
        en
    );
    assert_eq!(friendly_error_message("id", "Permission denied"), id);
}

#[test]
fn other_errors_show_their_first_line() {
    assert_eq!(
        friendly_error_message("en", "\n   \n  Invalid IP address: x  \r\nsecond line"),
        "Invalid IP address: x"
    );
    assert_eq!(
        friendly_error_message("en", "  \n \t "),
        "The operation could not be completed."
    );
    assert_eq!(friendly_error_message("id", ""), "Operasi tidak dapat diselesaikan.");
}

#[test]
fn long_errors_are_cut_short() {
    let long = "x".repeat(200);
    let shown = friendly_error_message("en", &long);
    assert_eq!(shown.chars().count(), MAX_MESSAGE_CHARS + 1);
    assert!(shown.ends_with('\u{2026}'));
    assert_eq!(&shown[..MAX_MESSAGE_CHARS], &long[..MAX_MESSAGE_CHARS]);

    let exact = "y".repeat(180);
    assert_eq!(friendly_error_message("en", &exact), exact);
}

#[test]
fn notifications_explain_only_errors() {
    assert_eq!(display_message("en", "DNS changed to Quad9", false), "DNS changed to Quad9");
    assert_eq!(
        display_message("en", "access is denied", false),
        "access is denied"
    );
    assert_eq!(
        display_message("en", "access is denied", true),
        "UseDNS needs Administrator permission to change DNS. Approve the UAC prompt and try again."
    );
}

#[test]
fn completed_operations_are_announced() {
    assert_eq!(notice_text(Notice::Applied, "en"), "DNS applied successfully.");
    assert_eq!(notice_text(Notice::Applied, "id"), "DNS berhasil diterapkan.");
    assert_eq!(notice_text(Notice::AppliedFromTray, "en"), "DNS applied from the tray.");
    assert_eq!(notice_text(Notice::AppliedFromTray, "id"), "DNS berhasil diterapkan dari tray.");
    assert_eq!(notice_text(Notice::Restored, "en"), "Automatic DNS restored.");
    assert_eq!(notice_text(Notice::Restored, "id"), "DNS otomatis berhasil dipulihkan.");
    assert_eq!(notice_text(Notice::CustomSaved, "fr"), "Custom DNS saved.");
    assert_eq!(notice_text(Notice::CustomSaved, "id"), "DNS kustom berhasil disimpan.");
    assert_eq!(notice_text(Notice::CustomDeleted, "en"), "Custom DNS deleted.");
    assert_eq!(notice_text(Notice::CustomDeleted, "id"), "DNS kustom dihapus.");
}

#[test]
fn reachability_and_latency_texts() {
    assert_eq!(reachable_notice("en", 42), "Resolver is reachable in approximately 42 ms.");
    assert_eq!(reachable_notice("id", 7), "Resolver dapat dijangkau dalam sekitar 7 ms.");
    assert_eq!(reachable_notice("en", 1000), "Resolver is reachable in approximately 1000 ms.");
    assert_eq!(latency_label(Some(0)), "0 ms");
    assert_eq!(latency_label(Some(120)), "120 ms");
    assert_eq!(latency_label(None), "\u{2014}");
    assert_eq!(settings_error("disk full"), "Could not save settings: disk full");
}
