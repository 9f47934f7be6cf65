use aci::date::Date;
use aci::db::brn::{self, Brn};
use aci::db::club::{self, Club};
use aci::db::leadership::{self, apply_date_filter, unique_by_key, DateFilter, Role};
use aci::db::query::{decimal_text, SqlPiece, SqlValue};
use aci::db::region::{self, Region};
use aci::db::user::{id_for_email, User};
use aci::db::{total_affected, DB_INSERT_CHUNK_SIZE};

fn value_text(v: &SqlValue) -> String {
    match v {
        SqlValue::Text(s) => format!("'{s}'"),
        SqlValue::OptText(Some(s)) => format!("'{s}'"),
        SqlValue::OptText(None) => "NULL".to_string(),
        SqlValue::I64(v) => v.to_string(),
        SqlValue::OptI64(Some(v)) => v.to_string(),
        SqlValue::OptI64(None) => "NULL".to_string(),
        SqlValue::I32(v) => v.to_string(),
        SqlValue::OptI32(Some(v)) => v.to_string(),
        SqlValue::OptI32(None) => "NULL".to_string(),
        SqlValue::U64(v) => v.to_string(),
        SqlValue::Bool(b) => b.to_string(),
        SqlValue::Date(d) => format!("{}-{:02}-{:02}", d.year, d.month, d.day),
        SqlValue::OptDate(Some(d)) => format!("{}-{:02}-{:02}", d.year, d.month, d.day),
        SqlValue::OptDate(None) => "NULL".to_string(),
    }
}

/// The statement with bound values written in place, in brackets.
fn render(pieces: &[SqlPiece]) -> String {
    pieces
        .iter()
        .map(|p| match p {
            SqlPiece::Sql(s) => s.clone(),
            SqlPiece::Bind(v) => format!("[{}]", value_text(v)),
        })
        .collect()
}

fn user(email: &str) -> User {
    User {
        id: id_for_email(email),
        uid: 7,
        email: email.to_string(),
        first_name: Some("Jane".to_string()),
        last_name: None,
        birthday: None,
        phone_mobile: None,
        phone_home: None,
        last_login: None,
    }
}

fn day(d: u32) -> Date {
    Date { year: 2024, month: 1, day: d }
}

fn intl(email: &str, role: i64, start: u32) -> leadership::Leadership {
    leadership::Leadership {
        id: None,
        user: user(email),
        role: Role { uid: role, title: "President".to_string() },
        start_date: day(start),
        end_date: None,
    }
}

#[test]
fn user_ids_come_from_trimmed_lowercased_emails() {
    assert_eq!(id_for_email(" Jane@Example.org "), "E9hVzpMQc9SSSsN3zaDppUOQi51mB3J8gDPXKcZeztY");
    assert_eq!(id_for_email("jane@example.org"), "E9hVzpMQc9SSSsN3zaDppUOQi51mB3J8gDPXKcZeztY");
}

#[test]
fn date_filters() {
    let mut q = vec![SqlPiece::Sql("SELECT".to_string())];
    apply_date_filter(&mut q, &DateFilter::Current, false);
    assert_eq!(
        render(&q),
        "SELECT WHERE start_date <= CURRENT_DATE AND (end_date IS NULL OR end_date >= CURRENT_DATE)"
    );
    let mut q = vec![];
    apply_date_filter(&mut q, &DateFilter::All, true);
    assert!(q.is_empty());
    let mut q = vec![];
    apply_date_filter(&mut q, &DateFilter::AsOf(day(5)), true);
    assert_eq!(
        render(&q),
        " AND start_date <= [2024-01-05] AND (end_date IS NULL OR end_date >= [2024-01-05])"
    );
    assert!(DateFilter::default() == DateFilter::Current);
}

#[test]
fn unique_terms_keep_the_first_of_each_key() {
    let terms = vec![intl("a@x.org", 1, 1), intl("b@x.org", 1, 1), intl("a@x.org", 1, 1), intl("a@x.org", 2, 1)];
    assert_eq!(unique_by_key(&terms), vec![0, 1, 3]);
    let statements = leadership::upsert_leadership(&terms);
    assert_eq!(statements.len(), 1);
    let text = render(&statements[0]);
    assert_eq!(text.matches('(').count(), 1 + 3 + 1);
    assert!(text.starts_with("INSERT INTO leadership_international("));
    assert!(text.ends_with("ON CONFLICT(user_id, role, start_date) DO UPDATE SET\n                    end_date = excluded.end_date\n                "));
}

#[test]
fn club_upsert_statement() {
    assert!(club::upsert_many(&[]).is_none());
    let clubs = vec![
        Club { uid: 1, number: Some(12), name: "Alpha".to_string(), region: None },
        Club { uid: 2, number: None, name: "Beta".to_string(), region: Some(9) },
    ];
    let statement = club::upsert_many(&clubs).unwrap();
    let text = render(&statement);
    assert!(text.starts_with(
        "INSERT INTO clubs(uid, number, name, region) VALUES ([1], [12], ['Alpha'], [NULL]), ([2], [NULL], ['Beta'], [9])ON CONFLICT(uid)"
    ));
}

#[test]
fn club_leadership_retain_deletes_all_but_the_kept_terms() {
    let lead = club::Leadership {
        id: None,
        club: Club { uid: 5, number: None, name: String::new(), region: None },
        user: user("jane@example.org"),
        role: Role { uid: 3, title: "President".to_string() },
        start_date: day(2),
        end_date: Some(day(9)),
    };
    assert!(club::retain_leadership(&[]).is_none());
    let statement = club::retain_leadership(&[lead]).unwrap();
    assert_eq!(
        render(&statement),
        "DELETE FROM leadership_club WHERE (club, user_id, role, start_date) NOT IN (([5], ['E9hVzpMQc9SSSsN3zaDppUOQi51mB3J8gDPXKcZeztY'], [3], [2024-01-02]))"
    );
}

#[test]
fn retaining_by_key_uses_a_temporary_table() {
    assert_eq!(decimal_text(0), "0");
    assert_eq!(decimal_text(1234567890123), "1234567890123");
    let regions = vec![Region { uid: 4, number: Some(2), name: None }];
    assert!(region::retain(&[], 1).is_none());
    let s = region::retain(&regions, 42).unwrap();
    assert_eq!(
        render(&s.create),
        "CREATE TEMPORARY TABLE temp_retain_regions_42 (retain_key TEXT NOT NULL) ON COMMIT DROP"
    );
    assert_eq!(s.inserts.len(), 1);
    assert_eq!(render(&s.inserts[0]), "INSERT INTO temp_retain_regions_42 (retain_key) VALUES ([4])");
    assert_eq!(
        render(&s.delete),
        "DELETE FROM regions WHERE uid::TEXT NOT IN (SELECT retain_key FROM temp_retain_regions_42)"
    );
}

#[test]
fn leadership_queries_filter_by_date() {
    let q = region::leadership_by_number_query(3, DateFilter::All);
    assert!(render(&q).ends_with("WHERE lr.region = [3]"));
    let q = region::leadership_by_uid_query(10, DateFilter::Current);
    assert!(render(&q).ends_with(
        "WHERE reg.uid = [10] AND start_date <= CURRENT_DATE AND (end_date IS NULL OR end_date >= CURRENT_DATE)"
    ));
}

#[test]
fn large_upserts_are_chunked() {
    let users: Vec<User> = (0..2001).map(|i| user(&format!("u{i}@example.org"))).collect();
    let statements = aci::db::user::upsert_many(&users);
    assert_eq!(DB_INSERT_CHUNK_SIZE, 1000);
    assert_eq!(statements.len(), 3);
    let last = render(&statements[2]);
    assert_eq!(last.matches("['Jane']").count(), 1);
}

#[test]
fn brn_deletes_are_per_chunk() {
    let brns: Vec<Brn> = ["A1", "B2", "C3"]
        .iter()
        .map(|n| Brn { user_id: "u".to_string(), number: n.to_string() })
        .collect();
    let statements = brn::retain(&brns, 2);
    assert_eq!(statements.len(), 2);
    assert_eq!(render(&statements[0]), " DELETE FROM brns WHERE number NOT IN (['A1'], ['B2']) ");
    assert_eq!(render(&statements[1]), " DELETE FROM brns WHERE number NOT IN (['C3']) ");
}

#[test]
fn affected_rows_add_up() {
    assert_eq!(total_affected(&[3, 4, 5]), 12);
    assert_eq!(total_affected(&[]), 0);
}

#[test]
fn every_row_is_in_exactly_one_chunk() {
    let bounds = aci::chunks::chunk_bounds(2345, 1000);
    for i in 0..2345usize {
        let holding: Vec<usize> = (0..bounds.len()).filter(|&k| bounds[k].0 <= i && i < bounds[k].1).collect();
        assert_eq!(holding, vec![i / 1000]);
    }
    assert!(bounds.iter().all(|(lo, hi)| hi > lo && hi - lo <= 1000));
}

#[test]
fn kept_terms_have_distinct_keys_and_cover_all_keys() {
    let terms = vec![intl("a@x.org", 1, 1), intl("a@x.org", 1, 2), intl("a@x.org", 1, 1), intl("b@x.org", 2, 1), intl("b@x.org", 2, 1)];
    let kept = unique_by_key(&terms);
    assert_eq!(kept, vec![0, 1, 3]);
    let key = |t: &leadership::Leadership| (t.user.id.clone(), t.role.uid, t.start_date.day);
    let kept_keys: Vec<_> = kept.iter().map(|&i| key(&terms[i])).collect();
    for t in &terms {
        assert!(kept_keys.contains(&key(t)));
    }
}

#[test]
fn user_ids_are_43_url_safe_characters() {
    for email in ["jane@example.org", "", "  MiXeD@Case.ORG\t"] {
        let id = id_for_email(email);
        assert_eq!(id.len(), 43);
        assert!(id.chars().all(|c| c.is_ascii_alphanumeric() || c == '-' || c == '_'));
        assert_eq!(id, id_for_email(&email.trim().to_lowercase()));
    }
    assert_eq!(id_for_email("\u{a0}Jane@Example.org\u{3000}"), id_for_email("jane@example.org"));
}
