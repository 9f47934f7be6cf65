use aci::cli::lists::{Sync, SyncScope};
use aci::cli::settings::{MailSetting, SettingsError};
use aci::cli::Format;
use aci::cli::lookup::{date_filter, lookup, Lookup};
use aci::date::Date;
use aci::db::leadership::DateFilter;

fn mail(list: Option<&str>, club: Option<u64>, region: Option<u64>) -> MailSetting {
    MailSetting {
        api_key: "abc123-us6".to_string(),
        fields: "fields.toml".to_string(),
        club,
        region,
        list: list.map(str::to_string),
    }
}

fn sync(member: Option<&str>, club: Option<u64>, region: Option<u64>) -> Sync {
    Sync { list: None, merge_fields: None, member: member.map(str::to_string), club, region }
}

#[test]
fn formats_parse_ignoring_case() {
    assert!(Format::from_str("CSV").ok().unwrap() == Format::Csv);
    assert!(Format::from_str("json").ok().unwrap() == Format::Json);
    match Format::from_str("xml") {
        Err(e) => assert_eq!(e.name, "xml"),
        Ok(_) => panic!("xml is no format"),
    }
    assert_eq!(Format::Csv.as_str(), "csv");
    assert!(Format::default() == Format::Json);
}

#[test]
fn list_and_fields_fall_back_on_settings() {
    let m = mail(Some("L0"), None, None);
    assert_eq!(m.list_override(&Some("L1".to_string())).ok().unwrap(), "L1");
    assert_eq!(m.list_override(&None).ok().unwrap(), "L0");
    let none = mail(None, None, None);
    assert!(matches!(none.list_override(&None), Err(SettingsError::NoListId)));
    assert_eq!(m.fields_override(&None).ok().unwrap(), "fields.toml");
    assert_eq!(m.fields_override(&Some("other.toml".to_string())).ok().unwrap(), "other.toml");
    assert_eq!(m.club_override(None), None);
    assert_eq!(mail(None, Some(4), None).club_override(None), Some(4));
    assert_eq!(mail(None, Some(4), None).club_override(Some(5)), Some(5));
    assert_eq!(mail(None, None, Some(2)).region_override(None), Some(2));
    assert!(m.client().is_ok());
}

#[test]
fn sync_scope_prefers_member_then_club_then_region() {
    let settings = mail(None, Some(4), Some(2));
    assert!(matches!(sync(Some("a@example.org"), Some(1), None).scope(&settings), SyncScope::Member(ref e) if e == "a@example.org"));
    assert!(matches!(sync(None, Some(1), None).scope(&settings), SyncScope::Club(1)));
    assert!(matches!(sync(None, None, None).scope(&settings), SyncScope::Club(4)));
    assert!(matches!(sync(None, None, Some(9)).scope(&mail(None, None, Some(2))), SyncScope::Region(9)));
    assert!(matches!(sync(None, None, None).scope(&mail(None, None, None)), SyncScope::All));
    assert!(!sync(Some("a@example.org"), None, None).retains());
    assert!(sync(None, None, None).retains());
}

#[test]
fn lookups_by_number_uid_or_all() {
    assert!(lookup(Some(12), true) == Lookup::Number(12));
    assert!(lookup(Some(12), false) == Lookup::Uid(12));
    assert!(lookup(None, true) == Lookup::All);
    assert!(lookup(Some(1 << 32 | 5), true) == Lookup::Number(5));
    let d = Date { year: 2024, month: 6, day: 1 };
    assert!(date_filter(Some(d)) == DateFilter::AsOf(d));
    assert!(date_filter(None) == DateFilter::Current);
}

#[test]
fn displayed_names_read_back() {
    for f in [Format::Json, Format::Csv] {
        assert!(Format::from_str(f.as_str()).ok().unwrap() == f);
    }
}
