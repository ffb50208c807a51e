use storage_usage::pdh_error::interpret_pdh_error;

#[test]
fn zero_is_success() {
    assert_eq!(interpret_pdh_error(0), Ok(()));
    assert_eq!(interpret_pdh_error(storage_usage::pdh_error::PDH_CSTATUS_VALID_DATA), Ok(()));
}

#[test]
fn known_statuses_have_their_messages() {
    assert_eq!(
        interpret_pdh_error(1),
        Err("The return data value is valid and different from the last sample.".to_string())
    );
    assert_eq!(
        interpret_pdh_error(0x800007D0),
        Err("Unable to connect to the specified computer, or the computer is offline.".to_string())
    );
    assert_eq!(interpret_pdh_error(0x800007D5), Err("No data to return.".to_string()));
    assert_eq!(
        interpret_pdh_error(storage_usage::pdh_error::PDH_PLA_SERVICE_ERROR),
        Err("The \"Performance Logs & Alerts\" service did not respond.".to_string())
    );
}

#[test]
fn unknown_statuses_are_named_by_their_number() {
    assert_eq!(interpret_pdh_error(2), Err("Unexpected PDH error: 2".to_string()));
    assert_eq!(
        interpret_pdh_error(u32::MAX),
        Err("Unexpected PDH error: 4294967295".to_string())
    );
}

#[test]
fn every_known_status_is_an_error_of_its_own() {
    let codes = [
        storage_usage::pdh_error::PDH_CSTATUS_NEW_DATA,
        storage_usage::pdh_error::PDH_CSTATUS_NO_MACHINE,
        storage_usage::pdh_error::PDH_CSTATUS_NO_INSTANCE,
        storage_usage::pdh_error::PDH_MORE_DATA,
        storage_usage::pdh_error::PDH_CSTATUS_ITEM_NOT_VALIDATED,
        storage_usage::pdh_error::PDH_RETRY,
        storage_usage::pdh_error::PDH_NO_DATA,
        storage_usage::pdh_error::PDH_CALC_NEGATIVE_DENOMINATOR,
        storage_usage::pdh_error::PDH_CALC_NEGATIVE_TIMEBASE,
        storage_usage::pdh_error::PDH_CALC_NEGATIVE_VALUE,
        storage_usage::pdh_error::PDH_DIALOG_CANCELLED,
        storage_usage::pdh_error::PDH_END_OF_LOG_FILE,
        storage_usage::pdh_error::PDH_ASYNC_QUERY_TIMEOUT,
        storage_usage::pdh_error::PDH_CANNOT_SET_DEFAULT_REALTIME_DATASOURCE,
        storage_usage::pdh_error::PDH_CSTATUS_NO_OBJECT,
        storage_usage::pdh_error::PDH_CSTATUS_NO_COUNTER,
        storage_usage::pdh_error::PDH_CSTATUS_INVALID_DATA,
        storage_usage::pdh_error::PDH_MEMORY_ALLOCATION_FAILURE,
        storage_usage::pdh_error::PDH_INVALID_HANDLE,
        storage_usage::pdh_error::PDH_INVALID_ARGUMENT,
        storage_usage::pdh_error::PDH_FUNCTION_NOT_FOUND,
        storage_usage::pdh_error::PDH_CSTATUS_NO_COUNTERNAME,
        storage_usage::pdh_error::PDH_CSTATUS_BAD_COUNTERNAME,
        storage_usage::pdh_error::PDH_INVALID_BUFFER,
        storage_usage::pdh_error::PDH_INSUFFICIENT_BUFFER,
        storage_usage::pdh_error::PDH_CANNOT_CONNECT_MACHINE,
        storage_usage::pdh_error::PDH_INVALID_PATH,
        storage_usage::pdh_error::PDH_INVALID_INSTANCE,
        storage_usage::pdh_error::PDH_INVALID_DATA,
        storage_usage::pdh_error::PDH_NO_DIALOG_DATA,
        storage_usage::pdh_error::PDH_CANNOT_READ_NAME_STRINGS,
        storage_usage::pdh_error::PDH_LOG_FILE_CREATE_ERROR,
        storage_usage::pdh_error::PDH_LOG_FILE_OPEN_ERROR,
        storage_usage::pdh_error::PDH_LOG_TYPE_NOT_FOUND,
        storage_usage::pdh_error::PDH_NO_MORE_DATA,
        storage_usage::pdh_error::PDH_ENTRY_NOT_IN_LOG_FILE,
        storage_usage::pdh_error::PDH_DATA_SOURCE_IS_LOG_FILE,
        storage_usage::pdh_error::PDH_DATA_SOURCE_IS_REAL_TIME,
        storage_usage::pdh_error::PDH_UNABLE_READ_LOG_HEADER,
        storage_usage::pdh_error::PDH_FILE_NOT_FOUND,
        storage_usage::pdh_error::PDH_FILE_ALREADY_EXISTS,
        storage_usage::pdh_error::PDH_NOT_IMPLEMENTED,
        storage_usage::pdh_error::PDH_STRING_NOT_FOUND,
        storage_usage::pdh_error::PDH_UNABLE_MAP_NAME_FILES,
        storage_usage::pdh_error::PDH_UNKNOWN_LOG_FORMAT,
        storage_usage::pdh_error::PDH_UNKNOWN_LOGSVC_COMMAND,
        storage_usage::pdh_error::PDH_LOGSVC_QUERY_NOT_FOUND,
        storage_usage::pdh_error::PDH_LOGSVC_NOT_OPENED,
        storage_usage::pdh_error::PDH_WBEM_ERROR,
        storage_usage::pdh_error::PDH_ACCESS_DENIED,
        storage_usage::pdh_error::PDH_LOG_FILE_TOO_SMALL,
        storage_usage::pdh_error::PDH_INVALID_DATASOURCE,
        storage_usage::pdh_error::PDH_INVALID_SQLDB,
        storage_usage::pdh_error::PDH_NO_COUNTERS,
        storage_usage::pdh_error::PDH_SQL_ALLOC_FAILED,
        storage_usage::pdh_error::PDH_SQL_ALLOCCON_FAILED,
        storage_usage::pdh_error::PDH_SQL_EXEC_DIRECT_FAILED,
        storage_usage::pdh_error::PDH_SQL_FETCH_FAILED,
        storage_usage::pdh_error::PDH_SQL_ROWCOUNT_FAILED,
        storage_usage::pdh_error::PDH_SQL_MORE_RESULTS_FAILED,
        storage_usage::pdh_error::PDH_SQL_CONNECT_FAILED,
        storage_usage::pdh_error::PDH_SQL_BIND_FAILED,
        storage_usage::pdh_error::PDH_CANNOT_CONNECT_WMI_SERVER,
        storage_usage::pdh_error::PDH_PLA_COLLECTION_ALREADY_RUNNING,
        storage_usage::pdh_error::PDH_PLA_ERROR_SCHEDULE_OVERLAP,
        storage_usage::pdh_error::PDH_PLA_COLLECTION_NOT_FOUND,
        storage_usage::pdh_error::PDH_PLA_ERROR_SCHEDULE_ELAPSED,
        storage_usage::pdh_error::PDH_PLA_ERROR_NOSTART,
        storage_usage::pdh_error::PDH_PLA_ERROR_ALREADY_EXISTS,
        storage_usage::pdh_error::PDH_PLA_ERROR_TYPE_MISMATCH,
        storage_usage::pdh_error::PDH_PLA_ERROR_FILEPATH,
        storage_usage::pdh_error::PDH_PLA_SERVICE_ERROR,
        storage_usage::pdh_error::PDH_PLA_VALIDATION_ERROR,
        storage_usage::pdh_error::PDH_PLA_VALIDATION_WARNING,
        storage_usage::pdh_error::PDH_PLA_ERROR_NAME_TOO_LONG,
        storage_usage::pdh_error::PDH_INVALID_SQL_LOG_FORMAT,
        storage_usage::pdh_error::PDH_COUNTER_ALREADY_IN_QUERY,
        storage_usage::pdh_error::PDH_BINARY_LOG_CORRUPT,
        storage_usage::pdh_error::PDH_LOG_SAMPLE_TOO_SMALL,
        storage_usage::pdh_error::PDH_OS_LATER_VERSION,
        storage_usage::pdh_error::PDH_OS_EARLIER_VERSION,
        storage_usage::pdh_error::PDH_INCORRECT_APPEND_TIME,
        storage_usage::pdh_error::PDH_UNMATCHED_APPEND_COUNTER,
        storage_usage::pdh_error::PDH_SQL_ALTER_DETAIL_FAILED,
        storage_usage::pdh_error::PDH_QUERY_PERF_DATA_TIMEOUT,
    ];
    let mut messages: Vec<String> = codes.iter().map(|c| interpret_pdh_error(*c).unwrap_err()).collect();
    assert!(messages.iter().all(|m| !m.starts_with("Unexpected PDH error")));
    assert_eq!(messages.len(), 85);
    messages.sort();
    messages.dedup();
    assert!(messages.len() >= 85 - 3);
}

#[test]
fn statuses_have_the_numbers_of_windows() {
    let pairs = [
        (storage_usage::pdh_error::PDH_CSTATUS_VALID_DATA, windows_sys::Win32::System::Performance::PDH_CSTATUS_VALID_DATA),
        (storage_usage::pdh_error::PDH_CSTATUS_NEW_DATA, windows_sys::Win32::System::Performance::PDH_CSTATUS_NEW_DATA),
        (storage_usage::pdh_error::PDH_CSTATUS_NO_MACHINE, windows_sys::Win32::System::Performance::PDH_CSTATUS_NO_MACHINE),
        (storage_usage::pdh_error::PDH_CSTATUS_NO_INSTANCE, windows_sys::Win32::System::Performance::PDH_CSTATUS_NO_INSTANCE),
        (storage_usage::pdh_error::PDH_MORE_DATA, windows_sys::Win32::System::Performance::PDH_MORE_DATA),
        (storage_usage::pdh_error::PDH_CSTATUS_ITEM_NOT_VALIDATED, windows_sys::Win32::System::Performance::PDH_CSTATUS_ITEM_NOT_VALIDATED),
        (storage_usage::pdh_error::PDH_RETRY, windows_sys::Win32::System::Performance::PDH_RETRY),
        (storage_usage::pdh_error::PDH_NO_DATA, windows_sys::Win32::System::Performance::PDH_NO_DATA),
        (storage_usage::pdh_error::PDH_CALC_NEGATIVE_DENOMINATOR, windows_sys::Win32::System::Performance::PDH_CALC_NEGATIVE_DENOMINATOR),
        (storage_usage::pdh_error::PDH_CALC_NEGATIVE_TIMEBASE, windows_sys::Win32::System::Performance::PDH_CALC_NEGATIVE_TIMEBASE),
        (storage_usage::pdh_error::PDH_CALC_NEGATIVE_VALUE, windows_sys::Win32::System::Performance::PDH_CALC_NEGATIVE_VALUE),
        (storage_usage::pdh_error::PDH_DIALOG_CANCELLED, windows_sys::Win32::System::Performance::PDH_DIALOG_CANCELLED),
        (storage_usage::pdh_error::PDH_END_OF_LOG_FILE, windows_sys::Win32::System::Performance::PDH_END_OF_LOG_FILE),
        (storage_usage::pdh_error::PDH_ASYNC_QUERY_TIMEOUT, windows_sys::Win32::System::Performance::PDH_ASYNC_QUERY_TIMEOUT),
        (storage_usage::pdh_error::PDH_CANNOT_SET_DEFAULT_REALTIME_DATASOURCE, windows_sys::Win32::System::Performance::PDH_CANNOT_SET_DEFAULT_REALTIME_DATASOURCE),
        (storage_usage::pdh_error::PDH_CSTATUS_NO_OBJECT, windows_sys::Win32::System::Performance::PDH_CSTATUS_NO_OBJECT),
        (storage_usage::pdh_error::PDH_CSTATUS_NO_COUNTER, windows_sys::Win32::System::Performance::PDH_CSTATUS_NO_COUNTER),
        (storage_usage::pdh_error::PDH_CSTATUS_INVALID_DATA, windows_sys::Win32::System::Performance::PDH_CSTATUS_INVALID_DATA),
        (storage_usage::pdh_error::PDH_MEMORY_ALLOCATION_FAILURE, windows_sys::Win32::System::Performance::PDH_MEMORY_ALLOCATION_FAILURE),
        (storage_usage::pdh_error::PDH_INVALID_HANDLE, windows_sys::Win32::System::Performance::PDH_INVALID_HANDLE),
        (storage_usage::pdh_error::PDH_INVALID_ARGUMENT, windows_sys::Win32::System::Performance::PDH_INVALID_ARGUMENT),
        (storage_usage::pdh_error::PDH_FUNCTION_NOT_FOUND, windows_sys::Win32::System::Performance::PDH_FUNCTION_NOT_FOUND),
        (storage_usage::pdh_error::PDH_CSTATUS_NO_COUNTERNAME, windows_sys::Win32::System::Performance::PDH_CSTATUS_NO_COUNTERNAME),
        (storage_usage::pdh_error::PDH_CSTATUS_BAD_COUNTERNAME, windows_sys::Win32::System::Performance::PDH_CSTATUS_BAD_COUNTERNAME),
        (storage_usage::pdh_error::PDH_INVALID_BUFFER, windows_sys::Win32::System::Performance::PDH_INVALID_BUFFER),
        (storage_usage::pdh_error::PDH_INSUFFICIENT_BUFFER, windows_sys::Win32::System::Performance::PDH_INSUFFICIENT_BUFFER),
        (storage_usage::pdh_error::PDH_CANNOT_CONNECT_MACHINE, windows_sys::Win32::System::Performance::PDH_CANNOT_CONNECT_MACHINE),
        (storage_usage::pdh_error::PDH_INVALID_PATH, windows_sys::Win32::System::Performance::PDH_INVALID_PATH),
        (storage_usage::pdh_error::PDH_INVALID_INSTANCE, windows_sys::Win32::System::Performance::PDH_INVALID_INSTANCE),
        (storage_usage::pdh_error::PDH_INVALID_DATA, windows_sys::Win32::System::Performance::PDH_INVALID_DATA),
        (storage_usage::pdh_error::PDH_NO_DIALOG_DATA, windows_sys::Win32::System::Performance::PDH_NO_DIALOG_DATA),
        (storage_usage::pdh_error::PDH_CANNOT_READ_NAME_STRINGS, windows_sys::Win32::System::Performance::PDH_CANNOT_READ_NAME_STRINGS),
        (storage_usage::pdh_error::PDH_LOG_FILE_CREATE_ERROR, windows_sys::Win32::System::Performance::PDH_LOG_FILE_CREATE_ERROR),
        (storage_usage::pdh_error::PDH_LOG_FILE_OPEN_ERROR, windows_sys::Win32::System::Performance::PDH_LOG_FILE_OPEN_ERROR),
        (storage_usage::pdh_error::PDH_LOG_TYPE_NOT_FOUND, windows_sys::Win32::System::Performance::PDH_LOG_TYPE_NOT_FOUND),
        (storage_usage::pdh_error::PDH_NO_MORE_DATA, windows_sys::Win32::System::Performance::PDH_NO_MORE_DATA),
        (storage_usage::pdh_error::PDH_ENTRY_NOT_IN_LOG_FILE, windows_sys::Win32::System::Performance::PDH_ENTRY_NOT_IN_LOG_FILE),
        (storage_usage::pdh_error::PDH_DATA_SOURCE_IS_LOG_FILE, windows_sys::Win32::System::Performance::PDH_DATA_SOURCE_IS_LOG_FILE),
        (storage_usage::pdh_error::PDH_DATA_SOURCE_IS_REAL_TIME, windows_sys::Win32::System::Performance::PDH_DATA_SOURCE_IS_REAL_TIME),
        (storage_usage::pdh_error::PDH_UNABLE_READ_LOG_HEADER, windows_sys::Win32::System::Performance::PDH_UNABLE_READ_LOG_HEADER),
        (storage_usage::pdh_error::PDH_FILE_NOT_FOUND, windows_sys::Win32::System::Performance::PDH_FILE_NOT_FOUND),
        (storage_usage::pdh_error::PDH_FILE_ALREADY_EXISTS, windows_sys::Win32::System::Performance::PDH_FILE_ALREADY_EXISTS),
        (storage_usage::pdh_error::PDH_NOT_IMPLEMENTED, windows_sys::Win32::System::Performance::PDH_NOT_IMPLEMENTED),
        (storage_usage::pdh_error::PDH_STRING_NOT_FOUND, windows_sys::Win32::System::Performance::PDH_STRING_NOT_FOUND),
        (storage_usage::pdh_error::PDH_UNABLE_MAP_NAME_FILES, windows_sys::Win32::System::Performance::PDH_UNABLE_MAP_NAME_FILES),
        (storage_usage::pdh_error::PDH_UNKNOWN_LOG_FORMAT, windows_sys::Win32::System::Performance::PDH_UNKNOWN_LOG_FORMAT),
        (storage_usage::pdh_error::PDH_UNKNOWN_LOGSVC_COMMAND, windows_sys::Win32::System::Performance::PDH_UNKNOWN_LOGSVC_COMMAND),
        (storage_usage::pdh_error::PDH_LOGSVC_QUERY_NOT_FOUND, windows_sys::Win32::System::Performance::PDH_LOGSVC_QUERY_NOT_FOUND),
        (storage_usage::pdh_error::PDH_LOGSVC_NOT_OPENED, windows_sys::Win32::System::Performance::PDH_LOGSVC_NOT_OPENED),
        (storage_usage::pdh_error::PDH_WBEM_ERROR, windows_sys::Win32::System::Performance::PDH_WBEM_ERROR),
        (storage_usage::pdh_error::PDH_ACCESS_DENIED, windows_sys::Win32::System::Performance::PDH_ACCESS_DENIED),
        (storage_usage::pdh_error::PDH_LOG_FILE_TOO_SMALL, windows_sys::Win32::System::Performance::PDH_LOG_FILE_TOO_SMALL),
        (storage_usage::pdh_error::PDH_INVALID_DATASOURCE, windows_sys::Win32::System::Performance::PDH_INVALID_DATASOURCE),
        (storage_usage::pdh_error::PDH_INVALID_SQLDB, windows_sys::Win32::System::Performance::PDH_INVALID_SQLDB),
        (storage_usage::pdh_error::PDH_NO_COUNTERS, windows_sys::Win32::System::Performance::PDH_NO_COUNTERS),
        (storage_usage::pdh_error::PDH_SQL_ALLOC_FAILED, windows_sys::Win32::System::Performance::PDH_SQL_ALLOC_FAILED),
        (storage_usage::pdh_error::PDH_SQL_ALLOCCON_FAILED, windows_sys::Win32::System::Performance::PDH_SQL_ALLOCCON_FAILED),
        (storage_usage::pdh_error::PDH_SQL_EXEC_DIRECT_FAILED, windows_sys::Win32::System::Performance::PDH_SQL_EXEC_DIRECT_FAILED),
        (storage_usage::pdh_error::PDH_SQL_FETCH_FAILED, windows_sys::Win32::System::Performance::PDH_SQL_FETCH_FAILED),
        (storage_usage::pdh_error::PDH_SQL_ROWCOUNT_FAILED, windows_sys::Win32::System::Performance::PDH_SQL_ROWCOUNT_FAILED),
        (storage_usage::pdh_error::PDH_SQL_MORE_RESULTS_FAILED, windows_sys::Win32::System::Performance::PDH_SQL_MORE_RESULTS_FAILED),
        (storage_usage::pdh_error::PDH_SQL_CONNECT_FAILED, windows_sys::Win32::System::Performance::PDH_SQL_CONNECT_FAILED),
        (storage_usage::pdh_error::PDH_SQL_BIND_FAILED, windows_sys::Win32::System::Performance::PDH_SQL_BIND_FAILED),
        (storage_usage::pdh_error::PDH_CANNOT_CONNECT_WMI_SERVER, windows_sys::Win32::System::Performance::PDH_CANNOT_CONNECT_WMI_SERVER),
        (storage_usage::pdh_error::PDH_PLA_COLLECTION_ALREADY_RUNNING, windows_sys::Win32::System::Performance::PDH_PLA_COLLECTION_ALREADY_RUNNING),
        (storage_usage::pdh_error::PDH_PLA_ERROR_SCHEDULE_OVERLAP, windows_sys::Win32::System::Performance::PDH_PLA_ERROR_SCHEDULE_OVERLAP),
        (storage_usage::pdh_error::PDH_PLA_COLLECTION_NOT_FOUND, windows_sys::Win32::System::Performance::PDH_PLA_COLLECTION_NOT_FOUND),
        (storage_usage::pdh_error::PDH_PLA_ERROR_SCHEDULE_ELAPSED, windows_sys::Win32::System::Performance::PDH_PLA_ERROR_SCHEDULE_ELAPSED),
        (storage_usage::pdh_error::PDH_PLA_ERROR_NOSTART, windows_sys::Win32::System::Performance::PDH_PLA_ERROR_NOSTART),
        (storage_usage::pdh_error::PDH_PLA_ERROR_ALREADY_EXISTS, windows_sys::Win32::System::Performance::PDH_PLA_ERROR_ALREADY_EXISTS),
        (storage_usage::pdh_error::PDH_PLA_ERROR_TYPE_MISMATCH, windows_sys::Win32::System::Performance::PDH_PLA_ERROR_TYPE_MISMATCH),
        (storage_usage::pdh_error::PDH_PLA_ERROR_FILEPATH, windows_sys::Win32::System::Performance::PDH_PLA_ERROR_FILEPATH),
        (storage_usage::pdh_error::PDH_PLA_SERVICE_ERROR, windows_sys::Win32::System::Performance::PDH_PLA_SERVICE_ERROR),
        (storage_usage::pdh_error::PDH_PLA_VALIDATION_ERROR, windows_sys::Win32::System::Performance::PDH_PLA_VALIDATION_ERROR),
        (storage_usage::pdh_error::PDH_PLA_VALIDATION_WARNING, windows_sys::Win32::System::Performance::PDH_PLA_VALIDATION_WARNING),
        (storage_usage::pdh_error::PDH_PLA_ERROR_NAME_TOO_LONG, windows_sys::Win32::System::Performance::PDH_PLA_ERROR_NAME_TOO_LONG),
        (storage_usage::pdh_error::PDH_INVALID_SQL_LOG_FORMAT, windows_sys::Win32::System::Performance::PDH_INVALID_SQL_LOG_FORMAT),
        (storage_usage::pdh_error::PDH_COUNTER_ALREADY_IN_QUERY, windows_sys::Win32::System::Performance::PDH_COUNTER_ALREADY_IN_QUERY),
        (storage_usage::pdh_error::PDH_BINARY_LOG_CORRUPT, windows_sys::Win32::System::Performance::PDH_BINARY_LOG_CORRUPT),
        (storage_usage::pdh_error::PDH_LOG_SAMPLE_TOO_SMALL, windows_sys::Win32::System::Performance::PDH_LOG_SAMPLE_TOO_SMALL),
        (storage_usage::pdh_error::PDH_OS_LATER_VERSION, windows_sys::Win32::System::Performance::PDH_OS_LATER_VERSION),
        (storage_usage::pdh_error::PDH_OS_EARLIER_VERSION, windows_sys::Win32::System::Performance::PDH_OS_EARLIER_VERSION),
        (storage_usage::pdh_error::PDH_INCORRECT_APPEND_TIME, windows_sys::Win32::System::Performance::PDH_INCORRECT_APPEND_TIME),
        (storage_usage::pdh_error::PDH_UNMATCHED_APPEND_COUNTER, windows_sys::Win32::System::Performance::PDH_UNMATCHED_APPEND_COUNTER),
        (storage_usage::pdh_error::PDH_SQL_ALTER_DETAIL_FAILED, windows_sys::Win32::System::Performance::PDH_SQL_ALTER_DETAIL_FAILED),
        (storage_usage::pdh_error::PDH_QUERY_PERF_DATA_TIMEOUT, windows_sys::Win32::System::Performance::PDH_QUERY_PERF_DATA_TIMEOUT),
    ];
    for (ours, theirs) in pairs {
        assert_eq!(ours, theirs);
    }
    assert_eq!(pairs.len(), 86);
}
