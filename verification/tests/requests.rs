//! Tests for the memory route parsers.

use snapshot_migrator::request::memory::{
    parse_get_memory, parse_get_memory_dirty, parse_get_memory_mappings,
};
use snapshot_migrator::request::memory_info;
use snapshot_migrator::request::{Method, RequestAction, RequestError, StatusCode, VmmAction};

#[test]
fn test_parse_get_memory_mappings_request() {
    match parse_get_memory_mappings().unwrap().into_parts() {
        (RequestAction::Sync(action), _) if action == VmmAction::GetMemoryMappings => {}
        _ => panic!("Test failed."),
    }
}

#[test]
fn test_parse_get_memory_request() {
    match parse_get_memory().unwrap().into_parts() {
        (RequestAction::Sync(action), _) if action == VmmAction::GetMemory => {}
        _ => panic!("Test failed."),
    }
}

#[test]
fn test_parse_get_memory_dirty_request() {
    match parse_get_memory_dirty().unwrap().into_parts() {
        (RequestAction::Sync(action), _) if action == VmmAction::GetMemoryDirty => {}
        _ => panic!("Test failed."),
    }
}

#[test]
fn test_memory_info_mappings_token() {
    let parsed = memory_info::parse_get_memory(Some(String::from("mappings"))).unwrap();
    match parsed.into_parts() {
        (RequestAction::Sync(action), _) if action == VmmAction::GetMemoryMappings => {}
        _ => panic!("Test failed."),
    }
}

#[test]
fn test_memory_info_unknown_token() {
    let err = memory_info::parse_get_memory(Some(String::from("bitmap"))).unwrap_err();
    assert_eq!(
        err,
        RequestError::InvalidPathMethod(String::from("/memory/bitmap"), Method::Get)
    );
}

#[test]
fn test_memory_info_missing_token() {
    let err = memory_info::parse_get_memory(None).unwrap_err();
    assert_eq!(
        err,
        RequestError::Generic(
            StatusCode::BadRequest,
            String::from("Missing memory info type.")
        )
    );
}
