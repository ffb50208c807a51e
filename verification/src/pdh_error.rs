//! The status codes of the performance data helper of Windows, and what
//! each of them says.

use vstd::prelude::*;
use vstd::string::*;
use crate::text::decimal;
use crate::text::decimal_string;
use crate::text::joined;

verus! {

/// The status `PDH_CSTATUS_VALID_DATA`.
pub const PDH_CSTATUS_VALID_DATA: u32 = 0x00000000;

/// The status `PDH_CSTATUS_NEW_DATA`.
pub const PDH_CSTATUS_NEW_DATA: u32 = 0x00000001;

/// The status `PDH_CSTATUS_NO_MACHINE`.
pub const PDH_CSTATUS_NO_MACHINE: u32 = 0x800007D0;

/// The status `PDH_CSTATUS_NO_INSTANCE`.
pub const PDH_CSTATUS_NO_INSTANCE: u32 = 0x800007D1;

/// The status `PDH_MORE_DATA`.
pub const PDH_MORE_DATA: u32 = 0x800007D2;

/// The status `PDH_CSTATUS_ITEM_NOT_VALIDATED`.
pub const PDH_CSTATUS_ITEM_NOT_VALIDATED: u32 = 0x800007D3;

/// The status `PDH_RETRY`.
pub const PDH_RETRY: u32 = 0x800007D4;

/// The status `PDH_NO_DATA`.
pub const PDH_NO_DATA: u32 = 0x800007D5;

/// The status `PDH_CALC_NEGATIVE_DENOMINATOR`.
pub const PDH_CALC_NEGATIVE_DENOMINATOR: u32 = 0x800007D6;

/// The status `PDH_CALC_NEGATIVE_TIMEBASE`.
pub const PDH_CALC_NEGATIVE_TIMEBASE: u32 = 0x800007D7;

/// The status `PDH_CALC_NEGATIVE_VALUE`.
pub const PDH_CALC_NEGATIVE_VALUE: u32 = 0x800007D8;

/// The status `PDH_DIALOG_CANCELLED`.
pub const PDH_DIALOG_CANCELLED: u32 = 0x800007D9;

/// The status `PDH_END_OF_LOG_FILE`.
pub const PDH_END_OF_LOG_FILE: u32 = 0x800007DA;

/// The status `PDH_ASYNC_QUERY_TIMEOUT`.
pub const PDH_ASYNC_QUERY_TIMEOUT: u32 = 0x800007DB;

/// The status `PDH_CANNOT_SET_DEFAULT_REALTIME_DATASOURCE`.
pub const PDH_CANNOT_SET_DEFAULT_REALTIME_DATASOURCE: u32 = 0x800007DC;

/// The status `PDH_CSTATUS_NO_OBJECT`.
pub const PDH_CSTATUS_NO_OBJECT: u32 = 0xC0000BB8;

/// The status `PDH_CSTATUS_NO_COUNTER`.
pub const PDH_CSTATUS_NO_COUNTER: u32 = 0xC0000BB9;

/// The status `PDH_CSTATUS_INVALID_DATA`.
pub const PDH_CSTATUS_INVALID_DATA: u32 = 0xC0000BBA;

/// The status `PDH_MEMORY_ALLOCATION_FAILURE`.
pub const PDH_MEMORY_ALLOCATION_FAILURE: u32 = 0xC0000BBB;

/// The status `PDH_INVALID_HANDLE`.
pub const PDH_INVALID_HANDLE: u32 = 0xC0000BBC;

/// The status `PDH_INVALID_ARGUMENT`.
pub const PDH_INVALID_ARGUMENT: u32 = 0xC0000BBD;

/// The status `PDH_FUNCTION_NOT_FOUND`.
pub const PDH_FUNCTION_NOT_FOUND: u32 = 0xC0000BBE;

/// The status `PDH_CSTATUS_NO_COUNTERNAME`.
pub const PDH_CSTATUS_NO_COUNTERNAME: u32 = 0xC0000BBF;

/// The status `PDH_CSTATUS_BAD_COUNTERNAME`.
pub const PDH_CSTATUS_BAD_COUNTERNAME: u32 = 0xC0000BC0;

/// The status `PDH_INVALID_BUFFER`.
pub const PDH_INVALID_BUFFER: u32 = 0xC0000BC1;

/// The status `PDH_INSUFFICIENT_BUFFER`.
pub const PDH_INSUFFICIENT_BUFFER: u32 = 0xC0000BC2;

/// The status `PDH_CANNOT_CONNECT_MACHINE`.
pub const PDH_CANNOT_CONNECT_MACHINE: u32 = 0xC0000BC3;

/// The status `PDH_INVALID_PATH`.
pub const PDH_INVALID_PATH: u32 = 0xC0000BC4;

/// The status `PDH_INVALID_INSTANCE`.
pub const PDH_INVALID_INSTANCE: u32 = 0xC0000BC5;

/// The status `PDH_INVALID_DATA`.
pub const PDH_INVALID_DATA: u32 = 0xC0000BC6;

/// The status `PDH_NO_DIALOG_DATA`.
pub const PDH_NO_DIALOG_DATA: u32 = 0xC0000BC7;

/// The status `PDH_CANNOT_READ_NAME_STRINGS`.
pub const PDH_CANNOT_READ_NAME_STRINGS: u32 = 0xC0000BC8;

/// The status `PDH_LOG_FILE_CREATE_ERROR`.
pub const PDH_LOG_FILE_CREATE_ERROR: u32 = 0xC0000BC9;

/// The status `PDH_LOG_FILE_OPEN_ERROR`.
pub const PDH_LOG_FILE_OPEN_ERROR: u32 = 0xC0000BCA;

/// The status `PDH_LOG_TYPE_NOT_FOUND`.
pub const PDH_LOG_TYPE_NOT_FOUND: u32 = 0xC0000BCB;

/// The status `PDH_NO_MORE_DATA`.
pub const PDH_NO_MORE_DATA: u32 = 0xC0000BCC;

/// The status `PDH_ENTRY_NOT_IN_LOG_FILE`.
pub const PDH_ENTRY_NOT_IN_LOG_FILE: u32 = 0xC0000BCD;

/// The status `PDH_DATA_SOURCE_IS_LOG_FILE`.
pub const PDH_DATA_SOURCE_IS_LOG_FILE: u32 = 0xC0000BCE;

/// The status `PDH_DATA_SOURCE_IS_REAL_TIME`.
pub const PDH_DATA_SOURCE_IS_REAL_TIME: u32 = 0xC0000BCF;

/// The status `PDH_UNABLE_READ_LOG_HEADER`.
pub const PDH_UNABLE_READ_LOG_HEADER: u32 = 0xC0000BD0;

/// The status `PDH_FILE_NOT_FOUND`.
pub const PDH_FILE_NOT_FOUND: u32 = 0xC0000BD1;

/// The status `PDH_FILE_ALREADY_EXISTS`.
pub const PDH_FILE_ALREADY_EXISTS: u32 = 0xC0000BD2;

/// The status `PDH_NOT_IMPLEMENTED`.
pub const PDH_NOT_IMPLEMENTED: u32 = 0xC0000BD3;

/// The status `PDH_STRING_NOT_FOUND`.
pub const PDH_STRING_NOT_FOUND: u32 = 0xC0000BD4;

/// The status `PDH_UNABLE_MAP_NAME_FILES`.
pub const PDH_UNABLE_MAP_NAME_FILES: u32 = 0x80000BD5;

/// The status `PDH_UNKNOWN_LOG_FORMAT`.
pub const PDH_UNKNOWN_LOG_FORMAT: u32 = 0xC0000BD6;

/// The status `PDH_UNKNOWN_LOGSVC_COMMAND`.
pub const PDH_UNKNOWN_LOGSVC_COMMAND: u32 = 0xC0000BD7;

/// The status `PDH_LOGSVC_QUERY_NOT_FOUND`.
pub const PDH_LOGSVC_QUERY_NOT_FOUND: u32 = 0xC0000BD8;

/// The status `PDH_LOGSVC_NOT_OPENED`.
pub const PDH_LOGSVC_NOT_OPENED: u32 = 0xC0000BD9;

/// The status `PDH_WBEM_ERROR`.
pub const PDH_WBEM_ERROR: u32 = 0xC0000BDA;

/// The status `PDH_ACCESS_DENIED`.
pub const PDH_ACCESS_DENIED: u32 = 0xC0000BDB;

/// The status `PDH_LOG_FILE_TOO_SMALL`.
pub const PDH_LOG_FILE_TOO_SMALL: u32 = 0xC0000BDC;

/// The status `PDH_INVALID_DATASOURCE`.
pub const PDH_INVALID_DATASOURCE: u32 = 0xC0000BDD;

/// The status `PDH_INVALID_SQLDB`.
pub const PDH_INVALID_SQLDB: u32 = 0xC0000BDE;

/// The status `PDH_NO_COUNTERS`.
pub const PDH_NO_COUNTERS: u32 = 0xC0000BDF;

/// The status `PDH_SQL_ALLOC_FAILED`.
pub const PDH_SQL_ALLOC_FAILED: u32 = 0xC0000BE0;

/// The status `PDH_SQL_ALLOCCON_FAILED`.
pub const PDH_SQL_ALLOCCON_FAILED: u32 = 0xC0000BE1;

/// The status `PDH_SQL_EXEC_DIRECT_FAILED`.
pub const PDH_SQL_EXEC_DIRECT_FAILED: u32 = 0xC0000BE2;

/// The status `PDH_SQL_FETCH_FAILED`.
pub const PDH_SQL_FETCH_FAILED: u32 = 0xC0000BE3;

/// The status `PDH_SQL_ROWCOUNT_FAILED`.
pub const PDH_SQL_ROWCOUNT_FAILED: u32 = 0xC0000BE4;

/// The status `PDH_SQL_MORE_RESULTS_FAILED`.
pub const PDH_SQL_MORE_RESULTS_FAILED: u32 = 0xC0000BE5;

/// The status `PDH_SQL_CONNECT_FAILED`.
pub const PDH_SQL_CONNECT_FAILED: u32 = 0xC0000BE6;

/// The status `PDH_SQL_BIND_FAILED`.
pub const PDH_SQL_BIND_FAILED: u32 = 0xC0000BE7;

/// The status `PDH_CANNOT_CONNECT_WMI_SERVER`.
pub const PDH_CANNOT_CONNECT_WMI_SERVER: u32 = 0xC0000BE8;

/// The status `PDH_PLA_COLLECTION_ALREADY_RUNNING`.
pub const PDH_PLA_COLLECTION_ALREADY_RUNNING: u32 = 0xC0000BE9;

/// The status `PDH_PLA_ERROR_SCHEDULE_OVERLAP`.
pub const PDH_PLA_ERROR_SCHEDULE_OVERLAP: u32 = 0xC0000BEA;

/// The status `PDH_PLA_COLLECTION_NOT_FOUND`.
pub const PDH_PLA_COLLECTION_NOT_FOUND: u32 = 0xC0000BEB;

/// The status `PDH_PLA_ERROR_SCHEDULE_ELAPSED`.
pub const PDH_PLA_ERROR_SCHEDULE_ELAPSED: u32 = 0xC0000BEC;

/// The status `PDH_PLA_ERROR_NOSTART`.
pub const PDH_PLA_ERROR_NOSTART: u32 = 0xC0000BED;

/// The status `PDH_PLA_ERROR_ALREADY_EXISTS`.
pub const PDH_PLA_ERROR_ALREADY_EXISTS: u32 = 0xC0000BEE;

/// The status `PDH_PLA_ERROR_TYPE_MISMATCH`.
pub const PDH_PLA_ERROR_TYPE_MISMATCH: u32 = 0xC0000BEF;

/// The status `PDH_PLA_ERROR_FILEPATH`.
pub const PDH_PLA_ERROR_FILEPATH: u32 = 0xC0000BF0;

/// The status `PDH_PLA_SERVICE_ERROR`.
pub const PDH_PLA_SERVICE_ERROR: u32 = 0xC0000BF1;

/// The status `PDH_PLA_VALIDATION_ERROR`.
pub const PDH_PLA_VALIDATION_ERROR: u32 = 0xC0000BF2;

/// The status `PDH_PLA_VALIDATION_WARNING`.
pub const PDH_PLA_VALIDATION_WARNING: u32 = 0x80000BF3;

/// The status `PDH_PLA_ERROR_NAME_TOO_LONG`.
pub const PDH_PLA_ERROR_NAME_TOO_LONG: u32 = 0xC0000BF4;

/// The status `PDH_INVALID_SQL_LOG_FORMAT`.
pub const PDH_INVALID_SQL_LOG_FORMAT: u32 = 0xC0000BF5;

/// The status `PDH_COUNTER_ALREADY_IN_QUERY`.
pub const PDH_COUNTER_ALREADY_IN_QUERY: u32 = 0xC0000BF6;

/// The status `PDH_BINARY_LOG_CORRUPT`.
pub const PDH_BINARY_LOG_CORRUPT: u32 = 0xC0000BF7;

/// The status `PDH_LOG_SAMPLE_TOO_SMALL`.
pub const PDH_LOG_SAMPLE_TOO_SMALL: u32 = 0xC0000BF8;

/// The status `PDH_OS_LATER_VERSION`.
pub const PDH_OS_LATER_VERSION: u32 = 0xC0000BF9;

/// The status `PDH_OS_EARLIER_VERSION`.
pub const PDH_OS_EARLIER_VERSION: u32 = 0xC0000BFA;

/// The status `PDH_INCORRECT_APPEND_TIME`.
pub const PDH_INCORRECT_APPEND_TIME: u32 = 0xC0000BFB;

/// The status `PDH_UNMATCHED_APPEND_COUNTER`.
pub const PDH_UNMATCHED_APPEND_COUNTER: u32 = 0xC0000BFC;

/// The status `PDH_SQL_ALTER_DETAIL_FAILED`.
pub const PDH_SQL_ALTER_DETAIL_FAILED: u32 = 0xC0000BFD;

/// The status `PDH_QUERY_PERF_DATA_TIMEOUT`.
pub const PDH_QUERY_PERF_DATA_TIMEOUT: u32 = 0xC0000BFE;

/// What a status says is wrong: nothing for success, which is zero, the
/// message of a status that is known, and a note with the number of any
/// other.
pub open spec fn pdh_error_text(value: u32) -> Option<Seq<char>> {
    if value == PDH_CSTATUS_VALID_DATA {
        None
    } else if value == PDH_CSTATUS_NEW_DATA {
        Some("The return data value is valid and different from the last sample."@)
    } else if value == PDH_CSTATUS_NO_MACHINE {
        Some("Unable to connect to the specified computer, or the computer is offline."@)
    } else if value == PDH_CSTATUS_NO_INSTANCE {
        Some("The specified instance is not present."@)
    } else if value == PDH_MORE_DATA {
        Some("There is more data to return than would fit in the supplied buffer. Allocate a larger buffer and call the function again."@)
    } else if value == PDH_CSTATUS_ITEM_NOT_VALIDATED {
        Some("The data item has been added to the query but has not been validated nor accessed. No other status information on this data item is available."@)
    } else if value == PDH_RETRY {
        Some("The selected operation should be retried."@)
    } else if value == PDH_NO_DATA {
        Some("No data to return."@)
    } else if value == PDH_CALC_NEGATIVE_DENOMINATOR {
        Some("A counter with a negative denominator value was detected."@)
    } else if value == PDH_CALC_NEGATIVE_TIMEBASE {
        Some("A counter with a negative time base value was detected."@)
    } else if value == PDH_CALC_NEGATIVE_VALUE {
        Some("A counter with a negative value was detected."@)
    } else if value == PDH_DIALOG_CANCELLED {
        Some("The user canceled the dialog box."@)
    } else if value == PDH_END_OF_LOG_FILE {
        Some("The end of the log file was reached."@)
    } else if value == PDH_ASYNC_QUERY_TIMEOUT {
        Some("A time-out occurred while waiting for the asynchronous counter collection thread to end."@)
    } else if value == PDH_CANNOT_SET_DEFAULT_REALTIME_DATASOURCE {
        Some("Cannot change set default real-time data source. There are real-time query sessions collecting counter data."@)
    } else if value == PDH_CSTATUS_NO_OBJECT {
        Some("The specified object is not found on the system."@)
    } else if value == PDH_CSTATUS_NO_COUNTER {
        Some("The specified counter could not be found."@)
    } else if value == PDH_CSTATUS_INVALID_DATA {
        Some("The returned data is not valid."@)
    } else if value == PDH_MEMORY_ALLOCATION_FAILURE {
        Some("A PDH function could not allocate enough temporary memory to complete the operation. Close some applications or extend the page file and retry the function."@)
    } else if value == PDH_INVALID_HANDLE {
        Some("The handle is not a valid PDH object."@)
    } else if value == PDH_INVALID_ARGUMENT {
        Some("A required argument is missing or incorrect."@)
    } else if value == PDH_FUNCTION_NOT_FOUND {
        Some("Unable to find the specified function."@)
    } else if value == PDH_CSTATUS_NO_COUNTERNAME {
        Some("No counter was specified."@)
    } else if value == PDH_CSTATUS_BAD_COUNTERNAME {
        Some("Unable to parse the counter path. Check the format and syntax of the specified path."@)
    } else if value == PDH_INVALID_BUFFER {
        Some("The buffer passed by the caller is not valid."@)
    } else if value == PDH_INSUFFICIENT_BUFFER {
        Some("The requested data is larger than the buffer supplied. Unable to return the requested data."@)
    } else if value == PDH_CANNOT_CONNECT_MACHINE {
        Some("Unable to connect to the requested computer."@)
    } else if value == PDH_INVALID_PATH {
        Some("The specified counter path could not be interpreted."@)
    } else if value == PDH_INVALID_INSTANCE {
        Some("The instance name could not be read from the specified counter path."@)
    } else if value == PDH_INVALID_DATA {
        Some("The data is not valid."@)
    } else if value == PDH_NO_DIALOG_DATA {
        Some("The dialog box data block was missing or not valid."@)
    } else if value == PDH_CANNOT_READ_NAME_STRINGS {
        Some("Unable to read the counter and/or help text from the specified computer."@)
    } else if value == PDH_LOG_FILE_CREATE_ERROR {
        Some("Unable to create the specified log file."@)
    } else if value == PDH_LOG_FILE_OPEN_ERROR {
        Some("Unable to open the specified log file."@)
    } else if value == PDH_LOG_TYPE_NOT_FOUND {
        Some("The specified log file type has not been installed on this system."@)
    } else if value == PDH_NO_MORE_DATA {
        Some("No more data is available."@)
    } else if value == PDH_ENTRY_NOT_IN_LOG_FILE {
        Some("The specified record was not found in the log file."@)
    } else if value == PDH_DATA_SOURCE_IS_LOG_FILE {
        Some("The specified data source is a log file."@)
    } else if value == PDH_DATA_SOURCE_IS_REAL_TIME {
        Some("The specified data source is the current activity."@)
    } else if value == PDH_UNABLE_READ_LOG_HEADER {
        Some("The log file header could not be read."@)
    } else if value == PDH_FILE_NOT_FOUND {
        Some("Unable to find the specified file."@)
    } else if value == PDH_FILE_ALREADY_EXISTS {
        Some("There is already a file with the specified file name."@)
    } else if value == PDH_NOT_IMPLEMENTED {
        Some("The function referenced has not been implemented."@)
    } else if value == PDH_STRING_NOT_FOUND {
        Some("Unable to find the specified string in the list of performance name and help text strings."@)
    } else if value == PDH_UNABLE_MAP_NAME_FILES {
        Some("Unable to map to the performance counter name data files. The data will be read from the registry and stored locally."@)
    } else if value == PDH_UNKNOWN_LOG_FORMAT {
        Some("The format of the specified log file is not recognized by the PDH DLL."@)
    } else if value == PDH_UNKNOWN_LOGSVC_COMMAND {
        Some("The specified Log Service command value is not recognized."@)
    } else if value == PDH_LOGSVC_QUERY_NOT_FOUND {
        Some("The specified query from the Log Service could not be found or could not be opened."@)
    } else if value == PDH_LOGSVC_NOT_OPENED {
        Some("The Performance Data Log Service key could not be opened. This may be due to insufficient privilege or because the service has not been installed."@)
    } else if value == PDH_WBEM_ERROR {
        Some("An error occurred while accessing the WBEM data store."@)
    } else if value == PDH_ACCESS_DENIED {
        Some("Unable to access the desired computer or service. Check the permissions and authentication of the log service or the interactive user session against those on the computer or service being monitored."@)
    } else if value == PDH_LOG_FILE_TOO_SMALL {
        Some("The maximum log file size specified is too small to log the selected counters. No data will be recorded in this log file. Specify a smaller set of counters to log or a larger file size and retry this call."@)
    } else if value == PDH_INVALID_DATASOURCE {
        Some("Cannot connect to ODBC DataSource Name."@)
    } else if value == PDH_INVALID_SQLDB {
        Some("SQL Database does not contain a valid set of tables for Perfmon."@)
    } else if value == PDH_NO_COUNTERS {
        Some("No counters were found for this Perfmon SQL Log Set."@)
    } else if value == PDH_SQL_ALLOC_FAILED {
        Some("Call to SQLAllocStmt failed with %1."@)
    } else if value == PDH_SQL_ALLOCCON_FAILED {
        Some("Call to SQLAllocConnect failed with %1."@)
    } else if value == PDH_SQL_EXEC_DIRECT_FAILED {
        Some("Call to SQLExecDirect failed with %1."@)
    } else if value == PDH_SQL_FETCH_FAILED {
        Some("Call to SQLFetch failed with %1."@)
    } else if value == PDH_SQL_ROWCOUNT_FAILED {
        Some("Call to SQLRowCount failed with %1."@)
    } else if value == PDH_SQL_MORE_RESULTS_FAILED {
        Some("Call to SQLMoreResults failed with %1."@)
    } else if value == PDH_SQL_CONNECT_FAILED {
        Some("Call to SQLConnect failed with %1."@)
    } else if value == PDH_SQL_BIND_FAILED {
        Some("Call to SQLBindCol failed with %1."@)
    } else if value == PDH_CANNOT_CONNECT_WMI_SERVER {
        Some("Unable to connect to the WMI server on requested computer."@)
    } else if value == PDH_PLA_COLLECTION_ALREADY_RUNNING {
        Some("Collection \"%1!s!\" is already running."@)
    } else if value == PDH_PLA_ERROR_SCHEDULE_OVERLAP {
        Some("The specified start time is after the end time."@)
    } else if value == PDH_PLA_COLLECTION_NOT_FOUND {
        Some("Collection \"%1!s!\" does not exist."@)
    } else if value == PDH_PLA_ERROR_SCHEDULE_ELAPSED {
        Some("The specified end time has already elapsed."@)
    } else if value == PDH_PLA_ERROR_NOSTART {
        Some("Collection \"%1!s!\" did not start; check the application event log for any errors."@)
    } else if value == PDH_PLA_ERROR_ALREADY_EXISTS {
        Some("Collection \"%1!s!\" already exists."@)
    } else if value == PDH_PLA_ERROR_TYPE_MISMATCH {
        Some("There is a mismatch in the settings type."@)
    } else if value == PDH_PLA_ERROR_FILEPATH {
        Some("The information specified does not resolve to a valid path name."@)
    } else if value == PDH_PLA_SERVICE_ERROR {
        Some("The \"Performance Logs & Alerts\" service did not respond."@)
    } else if value == PDH_PLA_VALIDATION_ERROR {
        Some("The information passed is not valid."@)
    } else if value == PDH_PLA_VALIDATION_WARNING {
        Some("The information passed is not valid."@)
    } else if value == PDH_PLA_ERROR_NAME_TOO_LONG {
        Some("The name supplied is too long."@)
    } else if value == PDH_INVALID_SQL_LOG_FORMAT {
        Some("SQL log format is incorrect. Correct format is SQL:<DSN-name>!<LogSet-Name>."@)
    } else if value == PDH_COUNTER_ALREADY_IN_QUERY {
        Some("Performance counter in PdhAddCounter call has already been added in the performance query. This counter is ignored."@)
    } else if value == PDH_BINARY_LOG_CORRUPT {
        Some("Unable to read counter information and data from input binary log files."@)
    } else if value == PDH_LOG_SAMPLE_TOO_SMALL {
        Some("At least one of the input binary log files contain fewer than two data samples."@)
    } else if value == PDH_OS_LATER_VERSION {
        Some("The version of the operating system on the computer named %1 is later than that on the local computer. This operation is not available from the local computer."@)
    } else if value == PDH_OS_EARLIER_VERSION {
        Some("%1 supports %2 or later. Check the operating system version on the computer named %3."@)
    } else if value == PDH_INCORRECT_APPEND_TIME {
        Some("The output file must contain earlier data than the file to be appended."@)
    } else if value == PDH_UNMATCHED_APPEND_COUNTER {
        Some("Both files must have identical counters in order to append."@)
    } else if value == PDH_SQL_ALTER_DETAIL_FAILED {
        Some("Cannot alter CounterDetail table layout in SQL database."@)
    } else if value == PDH_QUERY_PERF_DATA_TIMEOUT {
        Some("System is busy. A time-out occurred when collecting counter data. Please retry later or increase the CollectTime registry value."@)
    } else {
        Some("Unexpected PDH error: "@ + decimal(value as nat))
    }
}

/// Tells what a status says: success for zero, and else the message of the
/// status as an error.
pub fn interpret_pdh_error(value: u32) -> (r: Result<(), String>)
    ensures
        match pdh_error_text(value) {
            None => r is Ok,
            Some(text) => r is Err && r->Err_0@ == text,
        },
{
    if value == PDH_CSTATUS_VALID_DATA {
        Ok(())
    } else if value == PDH_CSTATUS_NEW_DATA {
        Err(String::from_str("The return data value is valid and different from the last sample."))
    } else if value == PDH_CSTATUS_NO_MACHINE {
        Err(String::from_str("Unable to connect to the specified computer, or the computer is offline."))
    } else if value == PDH_CSTATUS_NO_INSTANCE {
        Err(String::from_str("The specified instance is not present."))
    } else if value == PDH_MORE_DATA {
        Err(String::from_str("There is more data to return than would fit in the supplied buffer. Allocate a larger buffer and call the function again."))
    } else if value == PDH_CSTATUS_ITEM_NOT_VALIDATED {
        Err(String::from_str("The data item has been added to the query but has not been validated nor accessed. No other status information on this data item is available."))
    } else if value == PDH_RETRY {
        Err(String::from_str("The selected operation should be retried."))
    } else if value == PDH_NO_DATA {
        Err(String::from_str("No data to return."))
    } else if value == PDH_CALC_NEGATIVE_DENOMINATOR {
        Err(String::from_str("A counter with a negative denominator value was detected."))
    } else if value == PDH_CALC_NEGATIVE_TIMEBASE {
        Err(String::from_str("A counter with a negative time base value was detected."))
    } else if value == PDH_CALC_NEGATIVE_VALUE {
        Err(String::from_str("A counter with a negative value was detected."))
    } else if value == PDH_DIALOG_CANCELLED {
        Err(String::from_str("The user canceled the dialog box."))
    } else if value == PDH_END_OF_LOG_FILE {
        Err(String::from_str("The end of the log file was reached."))
    } else if value == PDH_ASYNC_QUERY_TIMEOUT {
        Err(String::from_str("A time-out occurred while waiting for the asynchronous counter collection thread to end."))
    } else if value == PDH_CANNOT_SET_DEFAULT_REALTIME_DATASOURCE {
        Err(String::from_str("Cannot change set default real-time data source. There are real-time query sessions collecting counter data."))
    } else if value == PDH_CSTATUS_NO_OBJECT {
        Err(String::from_str("The specified object is not found on the system."))
    } else if value == PDH_CSTATUS_NO_COUNTER {
        Err(String::from_str("The specified counter could not be found."))
    } else if value == PDH_CSTATUS_INVALID_DATA {
        Err(String::from_str("The returned data is not valid."))
    } else if value == PDH_MEMORY_ALLOCATION_FAILURE {
        Err(String::from_str("A PDH function could not allocate enough temporary memory to complete the operation. Close some applications or extend the page file and retry the function."))
    } else if value == PDH_INVALID_HANDLE {
        Err(String::from_str("The handle is not a valid PDH object."))
    } else if value == PDH_INVALID_ARGUMENT {
        Err(String::from_str("A required argument is missing or incorrect."))
    } else if value == PDH_FUNCTION_NOT_FOUND {
        Err(String::from_str("Unable to find the specified function."))
    } else if value == PDH_CSTATUS_NO_COUNTERNAME {
        Err(String::from_str("No counter was specified."))
    } else if value == PDH_CSTATUS_BAD_COUNTERNAME {
        Err(String::from_str("Unable to parse the counter path. Check the format and syntax of the specified path."))
    } else if value == PDH_INVALID_BUFFER {
        Err(String::from_str("The buffer passed by the caller is not valid."))
    } else if value == PDH_INSUFFICIENT_BUFFER {
        Err(String::from_str("The requested data is larger than the buffer supplied. Unable to return the requested data."))
    } else if value == PDH_CANNOT_CONNECT_MACHINE {
        Err(String::from_str("Unable to connect to the requested computer."))
    } else if value == PDH_INVALID_PATH {
        Err(String::from_str("The specified counter path could not be interpreted."))
    } else if value == PDH_INVALID_INSTANCE {
        Err(String::from_str("The instance name could not be read from the specified counter path."))
    } else if value == PDH_INVALID_DATA {
        Err(String::from_str("The data is not valid."))
    } else if value == PDH_NO_DIALOG_DATA {
        Err(String::from_str("The dialog box data block was missing or not valid."))
    } else if value == PDH_CANNOT_READ_NAME_STRINGS {
        Err(String::from_str("Unable to read the counter and/or help text from the specified computer."))
    } else if value == PDH_LOG_FILE_CREATE_ERROR {
        Err(String::from_str("Unable to create the specified log file."))
    } else if value == PDH_LOG_FILE_OPEN_ERROR {
        Err(String::from_str("Unable to open the specified log file."))
    } else if value == PDH_LOG_TYPE_NOT_FOUND {
        Err(String::from_str("The specified log file type has not been installed on this system."))
    } else if value == PDH_NO_MORE_DATA {
        Err(String::from_str("No more data is available."))
    } else if value == PDH_ENTRY_NOT_IN_LOG_FILE {
        Err(String::from_str("The specified record was not found in the log file."))
    } else if value == PDH_DATA_SOURCE_IS_LOG_FILE {
        Err(String::from_str("The specified data source is a log file."))
    } else if value == PDH_DATA_SOURCE_IS_REAL_TIME {
        Err(String::from_str("The specified data source is the current activity."))
    } else if value == PDH_UNABLE_READ_LOG_HEADER {
        Err(String::from_str("The log file header could not be read."))
    } else if value == PDH_FILE_NOT_FOUND {
        Err(String::from_str("Unable to find the specified file."))
    } else if value == PDH_FILE_ALREADY_EXISTS {
        Err(String::from_str("There is already a file with the specified file name."))
    } else if value == PDH_NOT_IMPLEMENTED {
        Err(String::from_str("The function referenced has not been implemented."))
    } else if value == PDH_STRING_NOT_FOUND {
        Err(String::from_str("Unable to find the specified string in the list of performance name and help text strings."))
    } else if value == PDH_UNABLE_MAP_NAME_FILES {
        Err(String::from_str("Unable to map to the performance counter name data files. The data will be read from the registry and stored locally."))
    } else if value == PDH_UNKNOWN_LOG_FORMAT {
        Err(String::from_str("The format of the specified log file is not recognized by the PDH DLL."))
    } else if value == PDH_UNKNOWN_LOGSVC_COMMAND {
        Err(String::from_str("The specified Log Service command value is not recognized."))
    } else if value == PDH_LOGSVC_QUERY_NOT_FOUND {
        Err(String::from_str("The specified query from the Log Service could not be found or could not be opened."))
    } else if value == PDH_LOGSVC_NOT_OPENED {
        Err(String::from_str("The Performance Data Log Service key could not be opened. This may be due to insufficient privilege or because the service has not been installed."))
    } else if value == PDH_WBEM_ERROR {
        Err(String::from_str("An error occurred while accessing the WBEM data store."))
    } else if value == PDH_ACCESS_DENIED {
        Err(String::from_str("Unable to access the desired computer or service. Check the permissions and authentication of the log service or the interactive user session against those on the computer or service being monitored."))
    } else if value == PDH_LOG_FILE_TOO_SMALL {
        Err(String::from_str("The maximum log file size specified is too small to log the selected counters. No data will be recorded in this log file. Specify a smaller set of counters to log or a larger file size and retry this call."))
    } else if value == PDH_INVALID_DATASOURCE {
        Err(String::from_str("Cannot connect to ODBC DataSource Name."))
    } else if value == PDH_INVALID_SQLDB {
        Err(String::from_str("SQL Database does not contain a valid set of tables for Perfmon."))
    } else if value == PDH_NO_COUNTERS {
        Err(String::from_str("No counters were found for this Perfmon SQL Log Set."))
    } else if value == PDH_SQL_ALLOC_FAILED {
        Err(String::from_str("Call to SQLAllocStmt failed with %1."))
    } else if value == PDH_SQL_ALLOCCON_FAILED {
        Err(String::from_str("Call to SQLAllocConnect failed with %1."))
    } else if value == PDH_SQL_EXEC_DIRECT_FAILED {
        Err(String::from_str("Call to SQLExecDirect failed with %1."))
    } else if value == PDH_SQL_FETCH_FAILED {
        Err(String::from_str("Call to SQLFetch failed with %1."))
    } else if value == PDH_SQL_ROWCOUNT_FAILED {
        Err(String::from_str("Call to SQLRowCount failed with %1."))
    } else if value == PDH_SQL_MORE_RESULTS_FAILED {
        Err(String::from_str("Call to SQLMoreResults failed with %1."))
    } else if value == PDH_SQL_CONNECT_FAILED {
        Err(String::from_str("Call to SQLConnect failed with %1."))
    } else if value == PDH_SQL_BIND_FAILED {
        Err(String::from_str("Call to SQLBindCol failed with %1."))
    } else if value == PDH_CANNOT_CONNECT_WMI_SERVER {
        Err(String::from_str("Unable to connect to the WMI server on requested computer."))
    } else if value == PDH_PLA_COLLECTION_ALREADY_RUNNING {
        Err(String::from_str("Collection \"%1!s!\" is already running."))
    } else if value == PDH_PLA_ERROR_SCHEDULE_OVERLAP {
        Err(String::from_str("The specified start time is after the end time."))
    } else if value == PDH_PLA_COLLECTION_NOT_FOUND {
        Err(String::from_str("Collection \"%1!s!\" does not exist."))
    } else if value == PDH_PLA_ERROR_SCHEDULE_ELAPSED {
        Err(String::from_str("The specified end time has already elapsed."))
    } else if value == PDH_PLA_ERROR_NOSTART {
        Err(String::from_str("Collection \"%1!s!\" did not start; check the application event log for any errors."))
    } else if value == PDH_PLA_ERROR_ALREADY_EXISTS {
        Err(String::from_str("Collection \"%1!s!\" already exists."))
    } else if value == PDH_PLA_ERROR_TYPE_MISMATCH {
        Err(String::from_str("There is a mismatch in the settings type."))
    } else if value == PDH_PLA_ERROR_FILEPATH {
        Err(String::from_str("The information specified does not resolve to a valid path name."))
    } else if value == PDH_PLA_SERVICE_ERROR {
        Err(String::from_str("The \"Performance Logs & Alerts\" service did not respond."))
    } else if value == PDH_PLA_VALIDATION_ERROR {
        Err(String::from_str("The information passed is not valid."))
    } else if value == PDH_PLA_VALIDATION_WARNING {
        Err(String::from_str("The information passed is not valid."))
    } else if value == PDH_PLA_ERROR_NAME_TOO_LONG {
        Err(String::from_str("The name supplied is too long."))
    } else if value == PDH_INVALID_SQL_LOG_FORMAT {
        Err(String::from_str("SQL log format is incorrect. Correct format is SQL:<DSN-name>!<LogSet-Name>."))
    } else if value == PDH_COUNTER_ALREADY_IN_QUERY {
        Err(String::from_str("Performance counter in PdhAddCounter call has already been added in the performance query. This counter is ignored."))
    } else if value == PDH_BINARY_LOG_CORRUPT {
        Err(String::from_str("Unable to read counter information and data from input binary log files."))
    } else if value == PDH_LOG_SAMPLE_TOO_SMALL {
        Err(String::from_str("At least one of the input binary log files contain fewer than two data samples."))
    } else if value == PDH_OS_LATER_VERSION {
        Err(String::from_str("The version of the operating system on the computer named %1 is later than that on the local computer. This operation is not available from the local computer."))
    } else if value == PDH_OS_EARLIER_VERSION {
        Err(String::from_str("%1 supports %2 or later. Check the operating system version on the computer named %3."))
    } else if value == PDH_INCORRECT_APPEND_TIME {
        Err(String::from_str("The output file must contain earlier data than the file to be appended."))
    } else if value == PDH_UNMATCHED_APPEND_COUNTER {
        Err(String::from_str("Both files must have identical counters in order to append."))
    } else if value == PDH_SQL_ALTER_DETAIL_FAILED {
        Err(String::from_str("Cannot alter CounterDetail table layout in SQL database."))
    } else if value == PDH_QUERY_PERF_DATA_TIMEOUT {
        Err(String::from_str("System is busy. A time-out occurred when collecting counter data. Please retry later or increase the CollectTime registry value."))
    } else {
        let number = decimal_string(value as u64);
        Err(joined("Unexpected PDH error: ", number.as_str()))
    }
}

/// Only zero is success.
pub proof fn only_zero_succeeds(value: u32)
    ensures
        pdh_error_text(value) is None <==> value == 0,
{
}

} // verus!
