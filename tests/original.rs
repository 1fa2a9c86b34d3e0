use databricks_zerobus_ingest_sdk::databricks::zerobus::RecordType;
use databricks_zerobus_ingest_sdk::{StreamConfigurationOptions, ZerobusError};
use std::sync::Arc;
use zerobus_ffi::config::{zerobus_get_default_config, CStreamConfigurationOptions};
use zerobus_ffi::headers::{CHeader, CHeaders, CallbackHeadersProvider};
use zerobus_ffi::intern::{intern_header_key, HeaderKeyCache};
use zerobus_ffi::outcome::{write_error_result, write_success_result, CResult, IngestError};

#[test]
fn test_write_error_result() {
    let mut result = CResult { success: true, error_message: None, is_retryable: false };
    write_error_result(&mut result, "Test error", true);
    assert!(!result.success);
    assert!(result.error_message.is_some());
    assert!(result.is_retryable);
    assert_eq!(result.take_error_message(), Some("Test error".to_string()));
}

#[test]
fn test_write_success_result() {
    let mut result = CResult {
        success: false,
        error_message: Some("error".to_string()),
        is_retryable: true,
    };
    write_success_result(&mut result);
    assert!(result.success);
    assert!(result.error_message.is_none());
    assert!(!result.is_retryable);
}

#[test]
fn test_intern_header_key_caches_keys() {
    let mut cache = HeaderKeyCache::new();
    let key1 = intern_header_key(&mut cache, "Authorization".to_string());
    let key2 = intern_header_key(&mut cache, "Authorization".to_string());
    assert_eq!(key1.as_ptr(), key2.as_ptr());
}

#[test]
fn test_intern_header_key_different_keys() {
    let mut cache = HeaderKeyCache::new();
    let key1 = intern_header_key(&mut cache, "Authorization".to_string());
    let key2 = intern_header_key(&mut cache, "Content-Type".to_string());
    assert_ne!(key1.as_ptr(), key2.as_ptr());
    assert_eq!(key1, "Authorization");
    assert_eq!(key2, "Content-Type");
}

#[test]
fn test_intern_header_key_prevents_duplicate_leaks() {
    let mut cache = HeaderKeyCache::new();
    let initial_key = intern_header_key(&mut cache, "X-Test-Header".to_string());
    for _ in 0..100 {
        let key = intern_header_key(&mut cache, "X-Test-Header".to_string());
        assert_eq!(initial_key.as_ptr(), key.as_ptr());
    }
    assert_eq!(cache.len(), 1);
}

#[test]
fn test_cresult_success() {
    let result = CResult::success();
    assert!(result.success);
    assert!(result.error_message.is_none());
    assert!(!result.is_retryable);
}

#[test]
fn test_cresult_error() {
    let error = ZerobusError::InvalidArgument("Test error".to_string());
    let mut result = CResult::error(IngestError::from_zerobus(&error));
    assert!(!result.success);
    assert!(result.error_message.is_some());
    let msg = result.take_error_message().unwrap();
    assert!(msg.contains("Test error"));
}

#[test]
fn test_stream_config_conversion() {
    let c_config = CStreamConfigurationOptions {
        max_inflight_requests: 100,
        recovery: true,
        recovery_timeout_ms: 5000,
        recovery_backoff_ms: 1000,
        recovery_retries: 3,
        server_lack_of_ack_timeout_ms: 10000,
        flush_timeout_ms: 2000,
        record_type: 1,
    };
    let rust_config: StreamConfigurationOptions = c_config.into();
    assert_eq!(rust_config.max_inflight_requests, 100);
    assert_eq!(rust_config.recovery, true);
    assert_eq!(rust_config.recovery_timeout_ms, 5000);
    assert_eq!(rust_config.recovery_retries, 3);
    assert_eq!(rust_config.record_type, RecordType::Proto);
}

#[test]
fn test_stream_config_record_type_json() {
    let c_config = CStreamConfigurationOptions {
        max_inflight_requests: 50,
        recovery: false,
        recovery_timeout_ms: 0,
        recovery_backoff_ms: 0,
        recovery_retries: 0,
        server_lack_of_ack_timeout_ms: 0,
        flush_timeout_ms: 0,
        record_type: 2,
    };
    let rust_config: StreamConfigurationOptions = c_config.into();
    assert_eq!(rust_config.record_type, RecordType::Json);
}

#[test]
fn test_stream_config_record_type_unspecified() {
    let c_config = CStreamConfigurationOptions {
        max_inflight_requests: 50,
        recovery: false,
        recovery_timeout_ms: 0,
        recovery_backoff_ms: 0,
        recovery_retries: 0,
        server_lack_of_ack_timeout_ms: 0,
        flush_timeout_ms: 0,
        record_type: 999,
    };
    let rust_config: StreamConfigurationOptions = c_config.into();
    assert_eq!(rust_config.record_type, RecordType::Unspecified);
}

#[test]
fn test_get_default_config() {
    let config = zerobus_get_default_config();
    assert!(config.max_inflight_requests > 0);
    assert_eq!(config.record_type, 1);
}

#[test]
fn test_zerobus_free_error_message_valid() {
    let mut result = CResult {
        success: false,
        error_message: Some("Test error".to_string()),
        is_retryable: false,
    };
    let released = result.take_error_message();
    assert_eq!(released, Some("Test error".to_string()));
    assert!(result.take_error_message().is_none());
}

#[test]
fn test_callback_headers_provider_sequential() {
    fn test_callback() -> CHeaders {
        CHeaders { headers: Vec::new(), error_message: None }
    }
    let provider = CallbackHeadersProvider::new(test_callback);
    let mut cache = HeaderKeyCache::new();
    let result1 = provider.get_headers(&mut cache);
    assert!(result1.is_ok());
    let result2 = provider.get_headers(&mut cache);
    assert!(result2.is_ok());
}

#[test]
fn test_callback_headers_provider_returns_headers() {
    fn test_callback() -> CHeaders {
        CHeaders {
            headers: vec![CHeader {
                key: Some("Authorization".to_string()),
                value: Some("Bearer test-token".to_string()),
            }],
            error_message: None,
        }
    }
    let provider = Arc::new(CallbackHeadersProvider::new(test_callback));
    let mut cache = HeaderKeyCache::new();
    let result = provider.get_headers(&mut cache);
    assert!(result.is_ok());
    let headers = result.unwrap();
    assert_eq!(headers.len(), 1);
    assert!(headers.iter().any(|(k, _)| *k == "Authorization"));
}
