//! Users of the Drupal site.
use vstd::prelude::*;
use crate::db::query::{SqlPiece, SqlPieceView, SqlValue, SqlValueView, pieces_view, push_sql, where_query};
use crate::date::Date;
use crate::db::user::{User as DbUser, id_for_email, spec_id_for_email};

verus! {

/// A user of the Drupal site.
pub struct User {
    pub uid: u64,
    pub email: String,
    pub first_name: Option<String>,
    pub last_name: Option<String>,
    pub birthday: Option<Date>,
    pub last_login: Option<Date>,
}

/// The query of users with an email, to which a condition is added.
pub const USER_QUERY: &'static str = r#"
            SELECT DISTINCT
                users_field_data.uid AS uid,
                users_field_data.mail as email,
                user__field_first_name.field_first_name_value AS first_name,
                user__field_last_name.field_last_name_value AS last_name,
                CAST(user__field_birth_date.field_birth_date_value AS DATE) AS birthday,
                DATE(FROM_UNIXTIME(users_field_data.login)) AS last_login
            FROM
                users_field_data
                LEFT JOIN user__field_first_name ON users_field_data.uid = user__field_first_name.entity_id
                LEFT JOIN user__field_last_name ON users_field_data.uid = user__field_last_name.entity_id
                LEFT JOIN user__field_birth_date ON users_field_data.uid = user__field_birth_date.entity_id
            WHERE
                users_field_data.mail IS NOT NULL
                AND
            "#;

/// The query of the user with a Drupal id.
pub fn by_uid_query(uid: u64) -> (r: Vec<SqlPiece>)
    ensures
        pieces_view(r@) == seq![
            SqlPieceView::Sql(USER_QUERY@),
            SqlPieceView::Sql("users_field_data.uid = "@),
            SqlPieceView::Bind(SqlValueView::U64(uid)),
        ],
{
    where_query(USER_QUERY, "users_field_data.uid = ", SqlValue::U64(uid))
}

/// The query of the user with an email address.
pub fn by_email_query(email: &str) -> (r: Vec<SqlPiece>)
    ensures
        pieces_view(r@) == seq![
            SqlPieceView::Sql(USER_QUERY@),
            SqlPieceView::Sql("users_field_data.mail = "@),
            SqlPieceView::Bind(SqlValueView::Text(email@)),
        ],
{
    where_query(USER_QUERY, "users_field_data.mail = ", SqlValue::Text(email.to_owned()))
}

/// `r` is the user `u` of the application database: its id is the one
/// its email gives, no phone numbers are known.
pub open spec fn is_db_user(r: DbUser, u: User) -> bool {
    &&& r.id@ == spec_id_for_email(u.email@)
    &&& r.uid == u.uid as i64
    &&& r.email == u.email
    &&& r.first_name == u.first_name
    &&& r.last_name == u.last_name
    &&& r.birthday == u.birthday
    &&& r.phone_mobile is None
    &&& r.phone_home is None
    &&& r.last_login == u.last_login
}

impl DbUser {
    /// A user as a user of the application database.
    pub fn from(value: User) -> (r: DbUser)
        ensures
            is_db_user(r, value),
    {
        let id = id_for_email(value.email.as_str());
        DbUser {
            id,
            uid: value.uid as i64,
            email: value.email,
            first_name: value.first_name,
            last_name: value.last_name,
            birthday: value.birthday,
            phone_mobile: None,
            phone_home: None,
            last_login: value.last_login,
        }
    }
}

} // verus!
