use pybridge::{module_name_for_path, Annotated, ConstructionError, ResponseProcessingError, ENTRY_POINT};

#[test]
fn module_name_strips_directory_and_extension() {
    assert_eq!(module_name_for_path("/opt/engines/my_engine.py"), "my_engine");
}

#[test]
fn module_name_of_bare_file() {
    assert_eq!(module_name_for_path("echo.py"), "echo");
}

#[test]
fn module_name_keeps_other_extensions() {
    assert_eq!(module_name_for_path("dir/notes.txt"), "notes.txt");
    assert_eq!(module_name_for_path("dir/plain"), "plain");
}

#[test]
fn module_name_strips_only_trailing_extension() {
    assert_eq!(module_name_for_path("a.py/b.pyc"), "b.pyc");
    assert_eq!(module_name_for_path("x/a.py.py"), "a.py");
}

#[test]
fn module_name_edge_cases() {
    assert_eq!(module_name_for_path(""), "");
    assert_eq!(module_name_for_path("dir/"), "");
    assert_eq!(module_name_for_path("/.py"), "");
    assert_eq!(module_name_for_path("py"), "py");
    assert_eq!(module_name_for_path("ünï/çødé.py"), "çødé");
}

#[test]
fn entry_point_is_generate() {
    assert_eq!(ENTRY_POINT, "generate");
}

#[test]
fn error_descriptions() {
    let e = ResponseProcessingError::PythonException("boom".to_string());
    assert_eq!(e.to_message(), "python exception: boom");
    assert!(!e.is_fatal());
    let e = ResponseProcessingError::DeserializeError("bad".to_string());
    assert_eq!(e.to_message(), "deserialize error: bad");
    assert!(e.is_fatal());
    let e = ResponseProcessingError::OffloadError("join".to_string());
    assert_eq!(e.to_message(), "gil offload error: join");
    assert!(e.is_fatal());
}

#[test]
fn error_stream_messages() {
    assert_eq!(
        ResponseProcessingError::PythonException("x".to_string()).stream_message(),
        "a python exception was caught while processing the async generator: x"
    );
    assert_eq!(
        ResponseProcessingError::DeserializeError("y".to_string()).stream_message(),
        "critical error: invalid response object from python async generator; application-logic-mismatch: y"
    );
    assert_eq!(
        ResponseProcessingError::OffloadError("z".to_string()).stream_message(),
        "critical error: failed to offload the python async generator to a new thread: z"
    );
}

#[test]
fn construction_error_messages() {
    assert_eq!(
        ConstructionError::ScriptLoad("No such file or directory".to_string()).to_message(),
        "failed to load the guest script: No such file or directory"
    );
    assert_eq!(
        ConstructionError::EntryPointMissing("AttributeError".to_string()).to_message(),
        "the guest module exports no callable `generate`: AttributeError"
    );
    assert_eq!(
        ConstructionError::EventLoop("thread".to_string()).to_message(),
        "failed to start the guest event loop: thread"
    );
}

#[test]
fn annotated_accessors() {
    let d: Annotated<i32> = Annotated::from_data(5);
    assert!(!d.is_error());
    assert_eq!(d.data(), Some(&5));
    assert_eq!(d.error_message(), None);
    let e: Annotated<i32> = Annotated::from_error("oops".to_string());
    assert!(e.is_error());
    assert_eq!(e.data(), None);
    assert_eq!(e.error_message(), Some("oops"));
}
