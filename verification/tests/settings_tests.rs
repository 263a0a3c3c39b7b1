use sword_arena::color::ColorId;
use sword_arena::ledger::CollectionLedger;
use sword_arena::settings::{judge, RemoteSettings, SettingsVerdict};
use sword_arena::sync::{LedgerSync, SyncAction, SyncEvent, SyncPhase};

const GOOD_ADDRESS: &str = "0x00000000000000000000000000000000000000aB";
const GOOD_KEY: &str = "0000000000000000000000000000000000000000000000000000000000000001";

fn settings(address: &str, key: &str) -> RemoteSettings {
    RemoteSettings {
        endpoint: Some(String::from("http://localhost:8547")),
        contract_address: Some(String::from(address)),
        signing_key: Some(String::from(key)),
    }
}

#[test]
fn well_formed_settings_are_usable() {
    let s = settings(GOOD_ADDRESS, GOOD_KEY);
    assert!(s.is_complete());
    assert_eq!(s.verdict(), SettingsVerdict::Usable);
}

#[test]
fn any_missing_setting_means_missing() {
    let mut a = settings(GOOD_ADDRESS, GOOD_KEY);
    a.endpoint = None;
    assert!(!a.is_complete());
    assert_eq!(a.verdict(), SettingsVerdict::Missing);
    let mut b = settings(GOOD_ADDRESS, GOOD_KEY);
    b.contract_address = None;
    assert_eq!(b.verdict(), SettingsVerdict::Missing);
    let mut c = settings("not an address", "not a key");
    c.signing_key = None;
    assert_eq!(c.verdict(), SettingsVerdict::Missing);
    let none = RemoteSettings { endpoint: None, contract_address: None, signing_key: None };
    assert_eq!(none.verdict(), SettingsVerdict::Missing);
}

#[test]
fn address_without_prefix_is_accepted() {
    let s = settings("00000000000000000000000000000000000000ab", GOOD_KEY);
    assert_eq!(s.verdict(), SettingsVerdict::Usable);
}

#[test]
fn address_with_blanks_among_the_digits_is_accepted() {
    let s = settings("0x0000000000 0000000000\t0000000000\r0000000000\n", GOOD_KEY);
    assert_eq!(s.verdict(), SettingsVerdict::Usable);
}

#[test]
fn address_of_wrong_length_is_malformed() {
    for bad in [
        "",
        "0x",
        "0x00000000000000000000000000000000000000a",
        "0x00000000000000000000000000000000000000ab0",
        "0x00000000000000000000000000000000000000ab00",
    ] {
        assert_eq!(settings(bad, GOOD_KEY).verdict(), SettingsVerdict::Malformed);
    }
}

#[test]
fn address_with_foreign_characters_is_malformed() {
    for bad in [
        "0X00000000000000000000000000000000000000ab",
        "0x0x000000000000000000000000000000000000ab",
        "0x00000000000000000000000000000000000000ag",
        "0x00000000000000000000000000000000000000ab!",
        "0x00000000000000000000000000000000000000a\u{e9}",
        "x00000000000000000000000000000000000000ab",
    ] {
        assert_eq!(settings(bad, GOOD_KEY).verdict(), SettingsVerdict::Malformed);
    }
}

#[test]
fn unreadable_key_is_malformed() {
    for bad in [
        "",
        "zz",
        "0000000000000000000000000000000000000000000000000000000000000000",
        "00000000000000000000000000000000000000000000000000000000000001",
    ] {
        assert_eq!(settings(GOOD_ADDRESS, bad).verdict(), SettingsVerdict::Malformed);
    }
}

#[test]
fn judge_covers_every_case() {
    assert_eq!(judge(false, true, true), SettingsVerdict::Missing);
    assert_eq!(judge(false, false, false), SettingsVerdict::Missing);
    assert_eq!(judge(true, true, true), SettingsVerdict::Usable);
    assert_eq!(judge(true, false, true), SettingsVerdict::Malformed);
    assert_eq!(judge(true, true, false), SettingsVerdict::Malformed);
    assert_eq!(judge(true, false, false), SettingsVerdict::Malformed);
}

#[test]
fn missing_settings_mean_local_only() {
    let mut found = settings(GOOD_ADDRESS, GOOD_KEY);
    found.contract_address = None;
    let mut ledger = CollectionLedger::new();
    let mut s = LedgerSync::new();
    assert_eq!(s.configure(&mut ledger, &found), SyncAction::Nothing);
    assert_eq!(s.phase, SyncPhase::LocalOnly);
    assert!(!s.is_remote());
    assert_eq!(s.step(&mut ledger, SyncEvent::Collected { color: ColorId::Red }), SyncAction::Nothing);
    assert_eq!(ledger.len(), 0);
}

#[test]
fn malformed_settings_mean_local_only_with_a_warning() {
    let mut ledger = CollectionLedger::new();
    let mut s = LedgerSync::new();
    assert_eq!(s.configure(&mut ledger, &settings("0xnope", GOOD_KEY)), SyncAction::WarnMalformed);
    assert_eq!(s.phase, SyncPhase::LocalOnly);
    assert_eq!(s.configure(&mut ledger, &settings(GOOD_ADDRESS, GOOD_KEY)), SyncAction::Nothing);
    assert_eq!(s.phase, SyncPhase::LocalOnly);
}

#[test]
fn usable_settings_ask_for_a_connection() {
    let mut ledger = CollectionLedger::new();
    let mut s = LedgerSync::new();
    assert_eq!(s.configure(&mut ledger, &settings(GOOD_ADDRESS, GOOD_KEY)), SyncAction::Connect);
    assert_eq!(s.phase, SyncPhase::Connecting);
    assert_eq!(ledger.len(), 0);
}
