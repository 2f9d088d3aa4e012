use vstd::prelude::*;

verus! {

/// The settings of a run. Empty credentials mean that they come from the
/// environment.
#[derive(Debug)]
pub struct AppConfig {
    pub odbc_dsn: String,
    pub db_username: String,
    pub db_password: String,
    /// The statement that selects the rows to repair.
    pub selection_query: String,
    /// The statement template of the template strategy.
    pub update_query_template: String,
    /// Rows fetched per batch.
    pub batch_size: usize,
    pub timeout_seconds: u64,
    pub data_path: String,
    /// Seconds that continuous mode waits between cycles.
    pub check_again_after: u64,
    pub key_field_name: String,
    pub zip_field_name: String,
    pub county_field_name: String,
}

pub fn default_empty_string() -> (r: String)
    ensures
        r@ == ""@,
{
    "".to_string()
}

pub fn default_selection_query() -> (r: String)
    ensures
        r@ == "SELECT key_field, field1, field2 FROM table_name WHERE condition = 't'"@,
{
    "SELECT key_field, field1, field2 FROM table_name WHERE condition = 't'".to_string()
}

pub fn default_update_query_template() -> (r: String)
    ensures
        r@ == "UPDATE table_name SET field1 = 'new_value' WHERE key_field = '{{key}}'"@,
{
    "UPDATE table_name SET field1 = 'new_value' WHERE key_field = '{{key}}'".to_string()
}

pub fn default_batch_size() -> (r: usize)
    ensures
        r == 100,
{
    100
}

pub fn default_timeout_seconds() -> (r: u64)
    ensures
        r == 30,
{
    30
}

pub fn default_data_path() -> (r: String)
    ensures
        r@ == "processed_records.json"@,
{
    "processed_records.json".to_string()
}

/// Thirty minutes.
pub fn default_check_again_after() -> (r: u64)
    ensures
        r == 1800,
{
    1800
}

pub fn default_key_field_name() -> (r: String)
    ensures
        r@ == "key_field"@,
{
    "key_field".to_string()
}

pub fn default_zip_field_name() -> (r: String)
    ensures
        r@ == "zip_code"@,
{
    "zip_code".to_string()
}

pub fn default_county_field_name() -> (r: String)
    ensures
        r@ == "county"@,
{
    "county".to_string()
}

impl Default for AppConfig {
    fn default() -> (r: AppConfig)
        ensures
            r.odbc_dsn@ == ""@ && r.db_username@ == ""@ && r.db_password@ == ""@,
            r.selection_query@ == "SELECT key_field, field1, field2 FROM table_name WHERE condition = 't'"@,
            r.update_query_template@ == "UPDATE table_name SET field1 = 'new_value' WHERE key_field = '{{key}}'"@,
            r.batch_size == 100,
            r.timeout_seconds == 30,
            r.data_path@ == "processed_records.json"@,
            r.check_again_after == 1800,
            r.key_field_name@ == "key_field"@,
            r.zip_field_name@ == "zip_code"@,
            r.county_field_name@ == "county"@,
    {
        AppConfig {
            odbc_dsn: default_empty_string(),
            db_username: default_empty_string(),
            db_password: default_empty_string(),
            selection_query: default_selection_query(),
            update_query_template: default_update_query_template(),
            batch_size: default_batch_size(),
            timeout_seconds: default_timeout_seconds(),
            data_path: default_data_path(),
            check_again_after: default_check_again_after(),
            key_field_name: default_key_field_name(),
            zip_field_name: default_zip_field_name(),
            county_field_name: default_county_field_name(),
        }
    }
}

/// A connection setting: the configured value when it is not empty, else
/// the value the environment gives, if any.
pub fn resolve_setting(configured: &str, from_env: Option<String>) -> (r: Option<String>)
    ensures
        configured@.len() > 0 ==> (r matches Some(s) && s@ == configured@),
        configured@.len() == 0 ==> r == from_env,
{
    if !configured.is_empty() {
        Some(configured.to_string())
    } else {
        from_env
    }
}

} // verus!
