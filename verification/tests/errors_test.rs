use curvine::errors::{is_transport_failure, is_worker_err, ErrorImpl, ErrorKind, FsError, PyErrClass};
use std::io;

#[test]
fn test_is_worker_err_io() {
    let e = FsError::IO(ErrorImpl::with_source(io::Error::new(
        io::ErrorKind::ConnectionReset,
        "connection reset",
    )));
    assert!(is_worker_err(&e));
}

#[test]
fn test_is_worker_err_pipeline() {
    let e = FsError::pipeline_error(42, "worker unreachable");
    assert!(is_worker_err(&e));
}

#[test]
fn test_is_worker_err_not_leader_master() {
    let e = FsError::not_leader("not leader");
    assert!(!is_worker_err(&e));
}

#[test]
fn test_is_worker_err_file_not_found() {
    let e = FsError::file_not_found("/test/path");
    assert!(!is_worker_err(&e));
}

#[test]
fn test_is_worker_err_common_connection_refused() {
    let e = FsError::common("Connection refused (os error 111)");
    assert!(is_worker_err(&e));
}

#[test]
fn test_is_worker_err_timeout() {
    let e = FsError::Timeout(ErrorImpl::new("deadline has elapsed"));
    assert!(is_worker_err(&e));
}

#[test]
fn common_errors_need_a_transport_phrase() {
    assert!(is_worker_err(&FsError::common("read failed: Early EOF")));
    assert!(is_worker_err(&FsError::common("BROKEN PIPE while sending")));
    assert!(is_worker_err(&FsError::common("sender dropped")));
    assert!(is_worker_err(&FsError::common("Connection Reset by peer")));
    assert!(!is_worker_err(&FsError::common("permission denied")));
    assert!(!is_worker_err(&FsError::common("connection")));
    assert!(!is_worker_err(&FsError::common("")));
}

#[test]
fn other_kinds_are_not_worker_errors() {
    assert!(!is_worker_err(&FsError::Raft(ErrorImpl::new("connection refused"))));
    assert!(!is_worker_err(&FsError::Ufs(ErrorImpl::new("broken pipe"))));
}

#[test]
fn pipeline_error_message_names_the_worker() {
    let e = FsError::pipeline_error(42, "worker unreachable");
    assert_eq!(e.to_string(), "42: worker unreachable");
    assert_eq!(e.kind(), ErrorKind::Pipeline);
}

#[test]
fn with_source_keeps_the_source_message() {
    let d = ErrorImpl::with_source(io::Error::new(io::ErrorKind::Other, "disk gone"));
    assert_eq!(d.message, "disk gone");
}

#[test]
fn python_exception_classes() {
    assert_eq!(FsError::IO(ErrorImpl::new("x")).py_err_class(), PyErrClass::IOError);
    assert_eq!(FsError::Timeout(ErrorImpl::new("x")).py_err_class(), PyErrClass::TimeoutError);
    assert_eq!(FsError::file_not_found("/a").py_err_class(), PyErrClass::FileNotFoundError);
    assert_eq!(FsError::FileAlreadyExists(ErrorImpl::new("x")).py_err_class(), PyErrClass::FileExistsError);
    assert_eq!(FsError::ParentNotDir(ErrorImpl::new("x")).py_err_class(), PyErrClass::NotADirectoryError);
    assert_eq!(FsError::PBDecode(ErrorImpl::new("x")).py_err_class(), PyErrClass::ConnectionError);
    assert_eq!(FsError::BlockInfo(ErrorImpl::new("x")).py_err_class(), PyErrClass::BlockingIOError);
    assert_eq!(FsError::InvalidPath(ErrorImpl::new("x")).py_err_class(), PyErrClass::ValueError);
    assert_eq!(FsError::DirNotEmpty(ErrorImpl::new("x")).py_err_class(), PyErrClass::IOError);
    assert_eq!(FsError::common("x").py_err_class(), PyErrClass::Exception);
    assert_eq!(FsError::Pipeline(ErrorImpl::new("x")).py_err_class(), PyErrClass::Exception);
    assert_eq!(FsError::not_leader("x").py_err_class(), PyErrClass::Exception);
}

#[test]
fn transport_phrases_in_lowercased_messages() {
    assert!(is_transport_failure("tcp connect error: connection refused (os error 111)"));
    assert!(is_transport_failure("early eof"));
    assert!(is_transport_failure("oneshot sender dropped"));
    assert!(!is_transport_failure("Connection Refused"), "the text is taken as already lowercased");
    assert!(!is_transport_failure("not leader"));
}
