use td_layout_cli::{Delivery, Error, OutputSink};

#[test]
fn a_sink_without_destinations_delivers_nothing() {
    let sink = OutputSink::new(false, None);
    assert_eq!(sink.deliveries("layout"), vec![]);
    assert_eq!(sink.deliveries(""), vec![]);
}

#[test]
fn printing_alone_writes_to_standard_output() {
    let sink = OutputSink::new(true, None);
    assert_eq!(sink.deliveries("layout\n"), vec![Delivery::Stdout { bytes: b"layout\n" }]);
}

#[test]
fn a_file_alone_is_written() {
    let sink = OutputSink::new(false, Some(String::from("out.rs")));
    assert_eq!(
        sink.deliveries("layout\n"),
        vec![Delivery::File { path: "out.rs", bytes: b"layout\n" }]
    );
}

#[test]
fn both_destinations_get_the_same_bytes_stdout_first() {
    let sink = OutputSink::new(true, Some(String::from("dir/out.rs")));
    let plan = sink.deliveries("pub const BASE: usize = 0x0;\n");
    assert_eq!(
        plan,
        vec![
            Delivery::Stdout { bytes: b"pub const BASE: usize = 0x0;\n" },
            Delivery::File { path: "dir/out.rs", bytes: b"pub const BASE: usize = 0x0;\n" },
        ]
    );
}

#[test]
fn the_bytes_are_the_utf8_encoding_of_the_layout() {
    let sink = OutputSink::new(true, Some(String::from("o")));
    let layout = "gr\u{f6}\u{df}e: 4\u{a0}KiB \u{2192} \u{1f600}";
    let plan = sink.deliveries(layout);
    assert_eq!(plan.len(), 2);
    for delivery in plan {
        match delivery {
            Delivery::Stdout { bytes } => assert_eq!(bytes, layout.as_bytes()),
            Delivery::File { path, bytes } => {
                assert_eq!(path, "o");
                assert_eq!(bytes, layout.as_bytes());
            }
        }
    }
}

#[test]
fn an_empty_layout_is_still_delivered() {
    let sink = OutputSink::new(true, Some(String::from("empty")));
    assert_eq!(
        sink.deliveries(""),
        vec![Delivery::Stdout { bytes: b"" }, Delivery::File { path: "empty", bytes: b"" }]
    );
}

#[test]
fn the_sink_keeps_its_destinations() {
    let sink = OutputSink::new(true, Some(String::from("a/b")));
    assert!(sink.print);
    assert_eq!(sink.output, Some(String::from("a/b")));
    let sink = OutputSink::new(false, None);
    assert!(!sink.print);
    assert_eq!(sink.output, None);
}

#[test]
fn each_error_has_its_diagnostic() {
    assert_eq!(Error::Usage.message(), "fw_top only valid with image mode");
    assert_eq!(Error::Parse.message(), "address literal invalid");
    assert_eq!(Error::Range.message(), "fw_top exceeds 4GB ceiling");
    assert_eq!(Error::Alignment.message(), "fw_top not 4KB-aligned");
}
