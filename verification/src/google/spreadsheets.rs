//! Reading and writing ranges of a spreadsheet: the notation of a range,
//! the options of the calls, and the address of each call.

use crate::rest::{
    locate, located, pairs_view, parse_url, parsed_url, Method, QueryPair, RestCall,
};
use crate::text::{bool_to_string, to_ascii_uppercase, truth, uppercase};
use vstd::prelude::*;

verus! {

/// A range of cells on one sheet.
#[derive(Clone, Debug, PartialEq, Eq)]
pub struct Range {
    pub sheet: String,
    pub start: String,
    pub end: Option<String>,
}

impl Range {
    /// The range in A1 notation: the sheet's name in single quotes, an
    /// exclamation mark, the first cell in capitals and, where the range has
    /// an end, a colon and the last cell in capitals.
    pub open spec fn a1(self) -> Seq<char> {
        let start = "'"@ + self.sheet@ + "'!"@ + uppercase(self.start@);
        match self.end {
            Some(end) => start + ":"@ + uppercase(end@),
            None => start,
        }
    }

    /// Writes the range in A1 notation.
    pub fn to_string(&self) -> (s: String)
        ensures
            s@ == self.a1(),
    {
        let mut s = "'".to_owned();
        s.append(self.sheet.as_str());
        s.append("'!");
        s.append(to_ascii_uppercase(self.start.as_str()).as_str());
        match &self.end {
            Some(end) => {
                s.append(":");
                s.append(to_ascii_uppercase(end.as_str()).as_str());
            },
            None => {},
        }
        s
    }
}

/// Indicates which dimension an operation should apply to.
#[derive(Clone, Copy, Debug, PartialEq, Eq)]
pub enum Dimension {
    /// Operates on the rows of a sheet.
    Rows,
    /// Operates on the columns of a sheet.
    Columns,
}

impl Dimension {
    /// The name of the dimension in a request.
    pub open spec fn name(self) -> Seq<char> {
        match self {
            Dimension::Rows => "ROWS"@,
            Dimension::Columns => "COLUMNS"@,
        }
    }

    pub fn to_string(&self) -> (s: String)
        ensures
            s@ == self.name(),
    {
        match self {
            Dimension::Rows => "ROWS".to_owned(),
            Dimension::Columns => "COLUMNS".to_owned(),
        }
    }

    /// The dimension to use where the caller names none.
    pub open spec fn or_default(chosen: Option<Dimension>) -> Dimension {
        match chosen {
            Some(dimension) => dimension,
            None => Dimension::Rows,
        }
    }
}

impl Default for Dimension {
    fn default() -> (dimension: Self)
        ensures
            dimension == Dimension::Rows,
    {
        Dimension::Rows
    }
}

/// Determines how values should be rendered in the output.
#[derive(Clone, Copy, Debug, PartialEq, Eq)]
pub enum ValueRenderOption {
    /// Values will be calculated and formatted according to the cell's
    /// formatting.
    FormattedValue,
    /// Values will be calculated, but not formatted.
    UnformattedValue,
    /// Values will not be calculated. The reply will include the formulas.
    Formula,
}

impl ValueRenderOption {
    /// The name of the option in a request.
    pub open spec fn name(self) -> Seq<char> {
        match self {
            ValueRenderOption::FormattedValue => "FORMATTED_VALUE"@,
            ValueRenderOption::UnformattedValue => "UNFORMATTED_VALUE"@,
            ValueRenderOption::Formula => "FORMULA"@,
        }
    }

    pub fn to_string(&self) -> (s: String)
        ensures
            s@ == self.name(),
    {
        match self {
            ValueRenderOption::FormattedValue => "FORMATTED_VALUE".to_owned(),
            ValueRenderOption::UnformattedValue => "UNFORMATTED_VALUE".to_owned(),
            ValueRenderOption::Formula => "FORMULA".to_owned(),
        }
    }

    /// The option to use where the caller names none.
    pub open spec fn or_default(chosen: Option<ValueRenderOption>) -> ValueRenderOption {
        match chosen {
            Some(option) => option,
            None => ValueRenderOption::FormattedValue,
        }
    }
}

impl Default for ValueRenderOption {
    fn default() -> (option: Self)
        ensures
            option == ValueRenderOption::FormattedValue,
    {
        ValueRenderOption::FormattedValue
    }
}

/// Determines how dates should be rendered in the output.
#[derive(Clone, Copy, Debug, PartialEq, Eq)]
pub enum DateTimeRenderOption {
    /// Date, time and duration fields are output as numbers in "serial
    /// number" format.
    SerialNumber,
    /// Date, time and duration fields are output as strings in their given
    /// number format.
    FormattedString,
}

impl DateTimeRenderOption {
    /// The name of the option in a request.
    pub open spec fn name(self) -> Seq<char> {
        match self {
            DateTimeRenderOption::SerialNumber => "SERIAL_NUMBER"@,
            DateTimeRenderOption::FormattedString => "FORMATTED_STRING"@,
        }
    }

    pub fn to_string(&self) -> (s: String)
        ensures
            s@ == self.name(),
    {
        match self {
            DateTimeRenderOption::SerialNumber => "SERIAL_NUMBER".to_owned(),
            DateTimeRenderOption::FormattedString => "FORMATTED_STRING".to_owned(),
        }
    }

    /// The option to use where the caller names none.
    pub open spec fn or_default(chosen: Option<DateTimeRenderOption>) -> DateTimeRenderOption {
        match chosen {
            Some(option) => option,
            None => DateTimeRenderOption::FormattedString,
        }
    }
}

impl Default for DateTimeRenderOption {
    fn default() -> (option: Self)
        ensures
            option == DateTimeRenderOption::FormattedString,
    {
        DateTimeRenderOption::FormattedString
    }
}

/// Determines how input data should be interpreted.
#[derive(Clone, Copy, Debug, PartialEq, Eq)]
pub enum ValueInputOption {
    /// The values will not be parsed and will be stored as they are.
    Raw,
    /// The values will be parsed as if the user typed them into the UI.
    UserEntered,
}

impl ValueInputOption {
    /// The name of the option in a request.
    pub open spec fn name(self) -> Seq<char> {
        match self {
            ValueInputOption::Raw => "RAW"@,
            ValueInputOption::UserEntered => "USER_ENTERED"@,
        }
    }

    pub fn to_string(&self) -> (s: String)
        ensures
            s@ == self.name(),
    {
        match self {
            ValueInputOption::Raw => "RAW".to_owned(),
            ValueInputOption::UserEntered => "USER_ENTERED".to_owned(),
        }
    }

    /// The option to use where the caller names none.
    pub open spec fn or_default(chosen: Option<ValueInputOption>) -> ValueInputOption {
        match chosen {
            Some(option) => option,
            None => ValueInputOption::UserEntered,
        }
    }
}

impl Default for ValueInputOption {
    fn default() -> (option: Self)
        ensures
            option == ValueInputOption::UserEntered,
    {
        ValueInputOption::UserEntered
    }
}

/// Determines how existing data is changed when new data is input.
#[derive(Clone, Copy, Debug, PartialEq, Eq)]
pub enum InsertDataOption {
    /// The new data overwrites existing data in the areas it is written.
    Overwrite,
    /// Rows are inserted for the new data.
    InsertRows,
}

impl InsertDataOption {
    /// The name of the option in a request.
    pub open spec fn name(self) -> Seq<char> {
        match self {
            InsertDataOption::Overwrite => "OVERWRITE"@,
            InsertDataOption::InsertRows => "INSERT_ROWS"@,
        }
    }

    pub fn to_string(&self) -> (s: String)
        ensures
            s@ == self.name(),
    {
        match self {
            InsertDataOption::Overwrite => "OVERWRITE".to_owned(),
            InsertDataOption::InsertRows => "INSERT_ROWS".to_owned(),
        }
    }

    /// The option to use where the caller names none.
    pub open spec fn or_default(chosen: Option<InsertDataOption>) -> InsertDataOption {
        match chosen {
            Some(option) => option,
            None => InsertDataOption::Overwrite,
        }
    }
}

impl Default for InsertDataOption {
    fn default() -> (option: Self)
        ensures
            option == InsertDataOption::Overwrite,
    {
        InsertDataOption::Overwrite
    }
}

/// Data within a range of the spreadsheet.
#[derive(Clone, Debug, Default, PartialEq, Eq)]
pub struct ValueRange {
    /// The range the values cover, in A1 notation.
    pub range: Option<String>,
    /// The data that was read or is to be written: an array of arrays, the
    /// outer one for all the data, each inner one for a major dimension.
    pub values: Option<Vec<Vec<Option<String>>>>,
    /// The major dimension of the values.
    pub major_dimension: Option<String>,
}

/// The address under which the values of spreadsheets are kept.
pub open spec fn sheets_root() -> Seq<char> {
    "https://sheets.googleapis.com/v4/spreadsheets/"@
}

/// The address of the values of `range` in the spreadsheet `spreadsheet_id`.
pub open spec fn values_address(spreadsheet_id: Seq<char>, range: Range) -> Seq<char> {
    sheets_root() + spreadsheet_id + "/values/"@ + range.a1()
}

/// Writes the address of [`values_address`].
pub fn values_endpoint(spreadsheet_id: &str, range: &Range) -> (address: String)
    ensures
        address@ == values_address(spreadsheet_id@, *range),
{
    let mut address = "https://sheets.googleapis.com/v4/spreadsheets/".to_owned();
    address.append(spreadsheet_id);
    address.append("/values/");
    address.append(range.to_string().as_str());
    address
}

/// The parameter that asks for the answer as JSON.
pub open spec fn alt_json() -> (Seq<char>, Seq<char>) {
    ("alt"@, "json"@)
}

/// What to read from a spreadsheet.
#[derive(Debug)]
pub struct GetParams<'a> {
    /// The ID of the spreadsheet to retrieve data from.
    pub spreadsheet_id: &'a str,
    /// The A1 notation of the values to retrieve.
    pub range: Range,
    /// The major dimension that results should use; rows by default.
    pub major_dimension: Option<Dimension>,
    /// How values should be represented in the output; formatted by
    /// default.
    pub value_render_option: Option<ValueRenderOption>,
    /// How dates, times, and durations should be represented in the output;
    /// as formatted strings by default.
    pub date_time_render_option: Option<DateTimeRenderOption>,
}

impl<'a> GetParams<'a> {
    /// The query parameters of the call, in the order they are sent.
    pub open spec fn query(self) -> Seq<(Seq<char>, Seq<char>)> {
        seq![
            ("majorDimension"@, Dimension::or_default(self.major_dimension).name()),
            ("valueRenderOption"@, ValueRenderOption::or_default(self.value_render_option).name()),
            (
                "dateTimeRenderOption"@,
                DateTimeRenderOption::or_default(self.date_time_render_option).name(),
            ),
            alt_json(),
        ]
    }

    /// The address of the call, before the query is added.
    pub open spec fn address(self) -> Seq<char> {
        values_address(self.spreadsheet_id@, self.range)
    }

    /// Builds the query parameters.
    pub fn query_params(&self) -> (query: Vec<QueryPair>)
        ensures
            pairs_view(query@) == self.query(),
    {
        let mut query: Vec<QueryPair> = Vec::with_capacity(6);
        query.push(("majorDimension", unwrap_dimension(self.major_dimension).to_string()));
        query.push(("valueRenderOption", unwrap_value_render(self.value_render_option).to_string()));
        query.push(
            (
                "dateTimeRenderOption",
                unwrap_date_time_render(self.date_time_render_option).to_string(),
            ),
        );
        query.push(("alt", "json".to_owned()));
        assert(pairs_view(query@) =~= self.query());
        query
    }
}

/// The call that returns a range of values from a spreadsheet: a `GET` on
/// the address of the range, with the options as its query. There is none
/// where that address is too long or does not parse.
pub fn get_request(params: &GetParams<'_>) -> (call: Option<RestCall>)
    ensures
        match call {
            Some(call) => call.method == Method::Get && located(params.address(), params.query()) == Some(call.url@),
            None => located(params.address(), params.query()) is None,
        },
{
    let query = params.query_params();
    let address = values_endpoint(params.spreadsheet_id, &params.range);
    RestCall::new(Method::Get, locate(address.as_str(), &query))
}

/// What to write into a range of a spreadsheet.
#[derive(Debug)]
pub struct UpdateParams<'a> {
    /// The ID of the spreadsheet to update.
    pub spreadsheet_id: &'a str,
    /// The A1 notation of the values to update.
    pub range: Range,
    /// Data to upload.
    pub values: ValueRange,
    /// How the input data should be interpreted; as the user would have
    /// entered it by default.
    pub value_input_option: Option<ValueInputOption>,
    /// Whether the response should include the values of the cells that
    /// were updated; by default it does not.
    pub include_values_in_response: Option<bool>,
    /// How values in the response should be rendered; formatted by default.
    pub response_value_render_option: Option<ValueRenderOption>,
    /// How dates, times, and durations in the response should be rendered;
    /// as formatted strings by default.
    pub response_date_time_render_option: Option<DateTimeRenderOption>,
}

impl<'a> UpdateParams<'a> {
    /// The query parameters of the call, in the order they are sent.
    pub open spec fn query(self) -> Seq<(Seq<char>, Seq<char>)> {
        seq![
            ("valueInputOption"@, ValueInputOption::or_default(self.value_input_option).name()),
            ("includeValuesInResponse"@, truth(flag_or_default(self.include_values_in_response))),
            (
                "responseDateTimeRenderOption"@,
                DateTimeRenderOption::or_default(self.response_date_time_render_option).name(),
            ),
            (
                "responseValueRenderOption"@,
                ValueRenderOption::or_default(self.response_value_render_option).name(),
            ),
            alt_json(),
        ]
    }

    /// The address of the call, before the query is added.
    pub open spec fn address(self) -> Seq<char> {
        values_address(self.spreadsheet_id@, self.range)
    }

    /// Builds the query parameters.
    pub fn query_params(&self) -> (query: Vec<QueryPair>)
        ensures
            pairs_view(query@) == self.query(),
    {
        let mut query: Vec<QueryPair> = Vec::with_capacity(6);
        query.push(("valueInputOption", unwrap_value_input(self.value_input_option).to_string()));
        query.push(
            ("includeValuesInResponse", bool_to_string(unwrap_flag(self.include_values_in_response))),
        );
        query.push(
            (
                "responseDateTimeRenderOption",
                unwrap_date_time_render(self.response_date_time_render_option).to_string(),
            ),
        );
        query.push(
            (
                "responseValueRenderOption",
                unwrap_value_render(self.response_value_render_option).to_string(),
            ),
        );
        query.push(("alt", "json".to_owned()));
        assert(pairs_view(query@) =~= self.query());
        query
    }
}

/// The call that sets values in a range of a spreadsheet: a `PUT` on the
/// address of the range, with the options as its query; its body is
/// `params.values`. There is none where that address is too long or does
/// not parse.
pub fn update_request(params: &UpdateParams<'_>) -> (call: Option<RestCall>)
    ensures
        match call {
            Some(call) => call.method == Method::Put && located(params.address(), params.query()) == Some(call.url@),
            None => located(params.address(), params.query()) is None,
        },
{
    let query = params.query_params();
    let address = values_endpoint(params.spreadsheet_id, &params.range);
    RestCall::new(Method::Put, locate(address.as_str(), &query))
}

/// What to append to a table of a spreadsheet.
#[derive(Debug)]
pub struct AppendParams<'a> {
    /// The ID of the spreadsheet to update.
    pub spreadsheet_id: &'a str,
    /// The A1 notation of a range to search for a logical table of data.
    /// Values are appended after the last row of the table.
    pub range: Range,
    /// Values to append.
    pub values: ValueRange,
    /// How the input data should be interpreted; as the user would have
    /// entered it by default.
    pub value_input_option: Option<ValueInputOption>,
    /// How the input data should be inserted; overwriting by default.
    pub insert_data_option: Option<InsertDataOption>,
    /// Whether the response should include the values of the cells that
    /// were appended; by default it does not.
    pub include_values_in_response: Option<bool>,
    /// How values in the response should be rendered; formatted by default.
    pub response_value_render_option: Option<ValueRenderOption>,
    /// How dates, times, and durations in the response should be rendered;
    /// as formatted strings by default.
    pub response_date_time_render_option: Option<DateTimeRenderOption>,
}

impl<'a> AppendParams<'a> {
    /// The query parameters of the call, in the order they are sent.
    pub open spec fn query(self) -> Seq<(Seq<char>, Seq<char>)> {
        seq![
            ("valueInputOption"@, ValueInputOption::or_default(self.value_input_option).name()),
            ("includeValuesInResponse"@, truth(flag_or_default(self.include_values_in_response))),
            ("insertDataOption"@, InsertDataOption::or_default(self.insert_data_option).name()),
            (
                "responseDateTimeRenderOption"@,
                DateTimeRenderOption::or_default(self.response_date_time_render_option).name(),
            ),
            (
                "responseValueRenderOption"@,
                ValueRenderOption::or_default(self.response_value_render_option).name(),
            ),
            alt_json(),
        ]
    }

    /// The address of the call, before the query is added.
    pub open spec fn address(self) -> Seq<char> {
        values_address(self.spreadsheet_id@, self.range) + ":append"@
    }

    /// Builds the query parameters.
    pub fn query_params(&self) -> (query: Vec<QueryPair>)
        ensures
            pairs_view(query@) == self.query(),
    {
        let mut query: Vec<QueryPair> = Vec::with_capacity(6);
        query.push(("valueInputOption", unwrap_value_input(self.value_input_option).to_string()));
        query.push(
            ("includeValuesInResponse", bool_to_string(unwrap_flag(self.include_values_in_response))),
        );
        query.push(("insertDataOption", unwrap_insert_data(self.insert_data_option).to_string()));
        query.push(
            (
                "responseDateTimeRenderOption",
                unwrap_date_time_render(self.response_date_time_render_option).to_string(),
            ),
        );
        query.push(
            (
                "responseValueRenderOption",
                unwrap_value_render(self.response_value_render_option).to_string(),
            ),
        );
        query.push(("alt", "json".to_owned()));
        assert(pairs_view(query@) =~= self.query());
        query
    }
}

/// The call that appends values to a spreadsheet: a `POST` on the address
/// of the range followed by `:append`, with the options as its query; its
/// body is `params.values`. There is none where that address is too long
/// or does not parse.
pub fn append_request(params: &AppendParams<'_>) -> (call: Option<RestCall>)
    ensures
        match call {
            Some(call) => call.method == Method::Post && located(params.address(), params.query()) == Some(call.url@),
            None => located(params.address(), params.query()) is None,
        },
{
    let query = params.query_params();
    let mut address = values_endpoint(params.spreadsheet_id, &params.range);
    address.append(":append");
    RestCall::new(Method::Post, locate(address.as_str(), &query))
}

/// What to read from a spreadsheet, several ranges at once.
#[derive(Debug)]
pub struct BatchGetParams<'a> {
    /// The ID of the spreadsheet to retrieve data from.
    pub spreadsheet_id: &'a str,
    /// The A1 notation of the values to retrieve.
    pub ranges: Vec<Range>,
    /// The major dimension that results should use; rows by default.
    pub major_dimension: Option<Dimension>,
    /// How values should be represented in the output; formatted by
    /// default.
    pub value_render_option: Option<ValueRenderOption>,
    /// How dates, times, and durations should be represented in the output;
    /// as formatted strings by default.
    pub date_time_render_option: Option<DateTimeRenderOption>,
}

impl<'a> BatchGetParams<'a> {
    /// The query parameters of the call, in the order they are sent: one
    /// for each range, then the options.
    pub open spec fn query(self) -> Seq<(Seq<char>, Seq<char>)> {
        self.ranges@.map_values(|range: Range| ("ranges"@, range.a1())) + seq![
            ("majorDimension"@, Dimension::or_default(self.major_dimension).name()),
            (
                "dateTimeRenderOption"@,
                DateTimeRenderOption::or_default(self.date_time_render_option).name(),
            ),
            ("valueRenderOption"@, ValueRenderOption::or_default(self.value_render_option).name()),
            alt_json(),
        ]
    }

    /// The address of the call, before the query is added.
    pub open spec fn address(self) -> Seq<char> {
        sheets_root() + self.spreadsheet_id@ + "/values:batchGet"@
    }

    /// Builds the query parameters.
    pub fn query_params(&self) -> (query: Vec<QueryPair>)
        ensures
            pairs_view(query@) == self.query(),
    {
        let mut query: Vec<QueryPair> = Vec::new();
        let ghost named = self.ranges@.map_values(|range: Range| ("ranges"@, range.a1()));
        let mut i: usize = 0;
        while i < self.ranges.len()
            invariant
                i <= self.ranges.len(),
                named == self.ranges@.map_values(|range: Range| ("ranges"@, range.a1())),
                pairs_view(query@) == named.take(i as int),
            decreases self.ranges.len() - i,
        {
            let ghost before = query@;
            query.push(("ranges", self.ranges[i].to_string()));
            proof {
                assert(named[i as int] == ("ranges"@, self.ranges@[i as int].a1()));
                assert(pairs_view(query@) =~= pairs_view(before).push(named[i as int]));
                assert(named.take(i + 1) =~= named.take(i as int).push(named[i as int]));
            }
            i = i + 1;
        }
        assert(named.take(i as int) =~= named);
        query.push(("majorDimension", unwrap_dimension(self.major_dimension).to_string()));
        query.push(
            (
                "dateTimeRenderOption",
                unwrap_date_time_render(self.date_time_render_option).to_string(),
            ),
        );
        query.push(("valueRenderOption", unwrap_value_render(self.value_render_option).to_string()));
        query.push(("alt", "json".to_owned()));
        assert(pairs_view(query@) =~= self.query());
        query
    }
}

/// The call that returns several ranges of values from a spreadsheet: a
/// `GET` on the spreadsheet's `values:batchGet`, with the ranges and the
/// options as its query. There is none where that address is too long or
/// does not parse.
pub fn batch_get_request(params: &BatchGetParams<'_>) -> (call: Option<RestCall>)
    ensures
        match call {
            Some(call) => call.method == Method::Get && located(params.address(), params.query()) == Some(call.url@),
            None => located(params.address(), params.query()) is None,
        },
{
    let query = params.query_params();
    let mut address = "https://sheets.googleapis.com/v4/spreadsheets/".to_owned();
    address.append(params.spreadsheet_id);
    address.append("/values:batchGet");
    RestCall::new(Method::Get, locate(address.as_str(), &query))
}

/// The call that returns what is known of a spreadsheet: a `GET` on the
/// spreadsheet's own address. There is none where that address does not
/// parse.
pub fn get_spreadsheet_info_request(spreadsheet_id: &str) -> (call: Option<RestCall>)
    ensures
        match call {
            Some(call) => call.method == Method::Get && parsed_url(
                sheets_root() + spreadsheet_id@,
            ) == Some(call.url@),
            None => parsed_url(sheets_root() + spreadsheet_id@) is None,
        },
{
    let mut address = "https://sheets.googleapis.com/v4/spreadsheets/".to_owned();
    address.append(spreadsheet_id);
    RestCall::new(Method::Get, parse_url(address.as_str()))
}

/// What to write into a spreadsheet, several ranges at once. The call sends
/// all of it as its body.
#[derive(Debug)]
pub struct BatchUpdateParams<'a> {
    /// The ID of the spreadsheet to update.
    pub spreadsheet_id: &'a str,
    /// How the input data should be interpreted.
    pub value_input_option: Option<ValueInputOption>,
    /// The new values to apply to the spreadsheet.
    pub data: Vec<ValueRange>,
    /// Whether the response should include the values of the cells that
    /// were updated.
    pub include_values_in_response: Option<bool>,
    /// How values in the response should be rendered.
    pub response_value_render_option: Option<ValueRenderOption>,
    /// How dates, times, and durations in the response should be rendered.
    pub response_date_time_render_option: Option<DateTimeRenderOption>,
}

impl<'a> BatchUpdateParams<'a> {
    /// The address of the call.
    pub open spec fn address(self) -> Seq<char> {
        sheets_root() + self.spreadsheet_id@ + "/values:batchUpdate"@
    }
}

/// The call that sets values in several ranges of a spreadsheet: a `POST`
/// on the spreadsheet's `values:batchUpdate`; its body is `params`. There is
/// none where that address does not parse.
pub fn batch_update_request(params: &BatchUpdateParams<'_>) -> (call: Option<RestCall>)
    ensures
        match call {
            Some(call) => call.method == Method::Post && parsed_url(params.address()) == Some(
                call.url@,
            ),
            None => parsed_url(params.address()) is None,
        },
{
    let mut address = "https://sheets.googleapis.com/v4/spreadsheets/".to_owned();
    address.append(params.spreadsheet_id);
    address.append("/values:batchUpdate");
    RestCall::new(Method::Post, parse_url(address.as_str()))
}

/// The response when updating a range of values in a spreadsheet.
#[derive(Clone, Debug, Default, PartialEq, Eq)]
pub struct UpdateValuesResponse {
    /// The number of columns where at least one cell in the column was
    /// updated.
    pub updated_columns: Option<i32>,
    /// The range (in A1 notation) that updates were applied to.
    pub updated_range: Option<String>,
    /// The number of rows where at least one cell in the row was updated.
    pub updated_rows: Option<i32>,
    /// The values of the cells after updates were applied, if the request
    /// asked for them.
    pub updated_data: Option<ValueRange>,
    /// The spreadsheet the updates were applied to.
    pub spreadsheet_id: Option<String>,
    /// The number of cells updated.
    pub updated_cells: Option<i32>,
}

/// The response when appending values to a spreadsheet.
#[derive(Clone, Debug, Default, PartialEq, Eq)]
pub struct AppendValuesResponse {
    /// The spreadsheet the updates were applied to.
    pub spreadsheet_id: Option<String>,
    /// The range (in A1 notation) of the table that values are being
    /// appended to, before the values were appended.
    pub table_range: Option<String>,
    /// Information about the updates that were applied.
    pub updates: Option<UpdateValuesResponse>,
}

/// The response when retrieving more than one range of values in a
/// spreadsheet.
#[derive(Clone, Debug, Default, PartialEq, Eq)]
pub struct BatchGetValuesResponse {
    /// The ID of the spreadsheet the data was retrieved from.
    pub spreadsheet_id: Option<String>,
    /// The requested values, in the order of the requested ranges.
    pub value_ranges: Option<Vec<ValueRange>>,
}

/// What is known of a sheet.
#[derive(Clone, Debug, PartialEq, Eq)]
pub struct SheetProperties {
    pub title: String,
}

/// One sheet of a spreadsheet.
#[derive(Clone, Debug, PartialEq, Eq)]
pub struct Sheet {
    pub properties: SheetProperties,
}

/// A spreadsheet.
#[derive(Clone, Debug, PartialEq, Eq)]
pub struct Spreadsheet {
    pub sheets: Vec<Sheet>,
}

/// The response when updating several ranges of a spreadsheet.
#[derive(Clone, Debug, PartialEq, Eq)]
pub struct BatchUpdateResponse {
    pub spreadsheet_id: Option<String>,
    pub total_updated_rows: Option<usize>,
    pub total_updated_columns: Option<usize>,
    pub total_updated_cells: Option<usize>,
    pub total_updated_sheets: Option<usize>,
}

fn unwrap_dimension(chosen: Option<Dimension>) -> (dimension: Dimension)
    ensures
        dimension == Dimension::or_default(chosen),
{
    match chosen {
        Some(dimension) => dimension,
        None => Dimension::default(),
    }
}

fn unwrap_value_render(chosen: Option<ValueRenderOption>) -> (option: ValueRenderOption)
    ensures
        option == ValueRenderOption::or_default(chosen),
{
    match chosen {
        Some(option) => option,
        None => ValueRenderOption::default(),
    }
}

fn unwrap_date_time_render(chosen: Option<DateTimeRenderOption>) -> (option: DateTimeRenderOption)
    ensures
        option == DateTimeRenderOption::or_default(chosen),
{
    match chosen {
        Some(option) => option,
        None => DateTimeRenderOption::default(),
    }
}

fn unwrap_value_input(chosen: Option<ValueInputOption>) -> (option: ValueInputOption)
    ensures
        option == ValueInputOption::or_default(chosen),
{
    match chosen {
        Some(option) => option,
        None => ValueInputOption::default(),
    }
}

fn unwrap_insert_data(chosen: Option<InsertDataOption>) -> (option: InsertDataOption)
    ensures
        option == InsertDataOption::or_default(chosen),
{
    match chosen {
        Some(option) => option,
        None => InsertDataOption::default(),
    }
}

fn unwrap_flag(chosen: Option<bool>) -> (flag: bool)
    ensures
        flag == flag_or_default(chosen),
{
    match chosen {
        Some(flag) => flag,
        None => false,
    }
}

/// The flag to use where the caller sets none: off.
pub open spec fn flag_or_default(chosen: Option<bool>) -> bool {
    match chosen {
        Some(flag) => flag,
        None => false,
    }
}

} // verus!
