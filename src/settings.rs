//! The settings of the bot: a single row, created on first read.

use vstd::prelude::*;
use vstd::string::*;
use crate::store::{execute, execute_batch, query_rows, store_error, DbConnection, SqlParam, SqlValue, StoreError};

verus! {

/// The sounds played when the bot joins or leaves a voice channel.
#[derive(Debug, Clone, PartialEq, Eq)]
pub struct SettingsTableRow {
    pub id: i64,
    pub join_audio: Option<String>,
    pub leave_audio: Option<String>,
}

pub open spec fn opt_text_matches(c: SqlValue, v: Option<String>) -> bool {
    match c {
        SqlValue::Null => v is None,
        SqlValue::Text(s) => v matches Some(t) && t@ == s@,
        _ => false,
    }
}

/// Reads a settings row from its three cells; `None` where a cell has the
/// wrong kind.
pub fn decode_settings_row(cells: &Vec<SqlValue>) -> (r: Option<SettingsTableRow>)
    ensures
        r is Some <==> (cells@.len() == 3 && cells@[0] is Integer && (cells@[1] is Null
            || cells@[1] is Text) && (cells@[2] is Null || cells@[2] is Text)),
        r matches Some(row) ==> cells@[0] == SqlValue::Integer(row.id) && opt_text_matches(
            cells@[1],
            row.join_audio,
        ) && opt_text_matches(cells@[2], row.leave_audio),
{
    if cells.len() != 3 {
        return None;
    }
    let id = match &cells[0] {
        SqlValue::Integer(i) => *i,
        _ => return None,
    };
    let join_audio = match &cells[1] {
        SqlValue::Null => None,
        SqlValue::Text(s) => Some(s.clone()),
        _ => return None,
    };
    let leave_audio = match &cells[2] {
        SqlValue::Null => None,
        SqlValue::Text(s) => Some(s.clone()),
        _ => return None,
    };
    Some(SettingsTableRow { id, join_audio, leave_audio })
}

fn opt_param(v: &Option<String>) -> (r: SqlParam)
    ensures
        match *v {
            Some(t) => r matches SqlParam::Text(s) && s@ == t@,
            None => r == SqlParam::Null,
        },
{
    match v {
        Some(t) => SqlParam::Text(t.clone()),
        None => SqlParam::Null,
    }
}

/// Whether the cells are those of a settings row.
pub open spec fn settings_cells_ok(c: Seq<SqlValue>, row: SettingsTableRow) -> bool {
    &&& c.len() == 3
    &&& c[0] == SqlValue::Integer(row.id)
    &&& opt_text_matches(c[1], row.join_audio)
    &&& opt_text_matches(c[2], row.leave_audio)
}

pub open spec fn opt_param_ok(p: SqlParam, v: Option<String>) -> bool {
    match v {
        Some(t) => p matches SqlParam::Text(s) && s@ == t@,
        None => p == SqlParam::Null,
    }
}

impl SettingsTableRow {
    /// The parameters of the update statement: join sound, leave sound, id.
    pub fn update_params(&self) -> (r: Vec<SqlParam>)
        ensures
            r@.len() == 3,
            opt_param_ok(r@[0], self.join_audio),
            opt_param_ok(r@[1], self.leave_audio),
            r@[2] == SqlParam::Integer(self.id),
    {
        let mut params: Vec<SqlParam> = Vec::new();
        params.push(opt_param(&self.join_audio));
        params.push(opt_param(&self.leave_audio));
        params.push(SqlParam::Integer(self.id));
        params
    }
}

/// What a sound picker chose: the entry `NONE` turns the sound off.
pub fn audio_choice(value: &str) -> (r: Option<String>)
    ensures
        value@ == "NONE"@ ==> r is None,
        value@ != "NONE"@ ==> (r matches Some(t) && t@ == value@),
{
    if crate::text::str_eq(value, "NONE") {
        None
    } else {
        Some(String::from_str(value))
    }
}

/// The settings table, over a borrowed connection.
pub struct SettingsTable<'a> {
    pub conn: &'a DbConnection,
}

impl<'a> SettingsTable<'a> {
    pub const TABLE_NAME: &'static str = "settings";

    pub fn new(conn: &'a DbConnection) -> (r: SettingsTable<'a>)
        ensures
            r.conn == conn,
    {
        SettingsTable { conn }
    }

    pub fn create_table(&self) -> Result<(), StoreError> {
        match execute_batch(
            self.conn,
            "CREATE TABLE IF NOT EXISTS settings (id INTEGER PRIMARY KEY, join_audio VARCHAR(80), leave_audio VARCHAR(80));",
        ) {
            Ok(()) => Ok(()),
            Err(e) => Err(store_error(e)),
        }
    }

    pub fn drop_table(&self) -> Result<(), StoreError> {
        match execute_batch(self.conn, "DROP TABLE IF EXISTS settings;") {
            Ok(()) => Ok(()),
            Err(e) => Err(store_error(e)),
        }
    }

    fn first_row(&self) -> (r: Result<Option<SettingsTableRow>, StoreError>)
        ensures
            r matches Ok(Some(row)) ==> exists|c: Seq<SqlValue>| settings_cells_ok(c, row),
    {
        let params: Vec<SqlParam> = Vec::new();
        match query_rows(
            self.conn,
            "SELECT id, join_audio, leave_audio FROM settings ORDER BY id LIMIT 1",
            &params,
            3,
        ) {
            Ok(rows) => {
                if rows.len() == 0 {
                    Ok(None)
                } else {
                    match decode_settings_row(&rows[0]) {
                        Some(row) => {
                            assert(settings_cells_ok(rows[0]@, row));
                            Ok(Some(row))
                        },
                        None => Err(StoreError::Failed(String::from_str("malformed settings row"))),
                    }
                }
            },
            Err(e) => Err(store_error(e)),
        }
    }

    fn init_settings(&self) -> (r: Result<SettingsTableRow, StoreError>)
        ensures
            r matches Ok(row) ==> exists|c: Seq<SqlValue>| settings_cells_ok(c, row),
    {
        let mut params: Vec<SqlParam> = Vec::new();
        params.push(SqlParam::Null);
        params.push(SqlParam::Null);
        match execute(
            self.conn,
            "INSERT INTO settings (join_audio, leave_audio) VALUES (?1, ?2)",
            &params,
        ) {
            Ok(_) => {},
            Err(e) => return Err(store_error(e)),
        }
        match self.first_row() {
            Ok(Some(row)) => Ok(row),
            Ok(None) => Err(StoreError::Failed(String::from_str("failed to insert initial settings row"))),
            Err(e) => Err(e),
        }
    }

    /// The settings row, created empty where there is none yet.
    pub fn get_settings(&self) -> (r: Result<SettingsTableRow, StoreError>)
        ensures
            r matches Ok(row) ==> exists|c: Seq<SqlValue>| settings_cells_ok(c, row),
    {
        match self.first_row() {
            Ok(Some(row)) => Ok(row),
            Ok(None) => self.init_settings(),
            Err(e) => Err(e),
        }
    }

    /// Writes both sounds of the row with `settings.id`.
    pub fn update_settings(&self, settings: &SettingsTableRow) -> Result<(), StoreError> {
        let params = settings.update_params();
        match execute(
            self.conn,
            "UPDATE settings SET join_audio = ?1, leave_audio = ?2 WHERE id = ?3",
            &params,
        ) {
            Ok(_) => Ok(()),
            Err(e) => Err(store_error(e)),
        }
    }
}

} // verus!
