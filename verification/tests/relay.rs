use service_supervisor::relay::{LogLine, LogRelay, LogStream};

#[test]
fn stream_names() {
    assert_eq!(LogStream::Stdout.name(), "stdout");
    assert_eq!(LogStream::Stderr.name(), "stderr");
}

#[test]
fn diagnostic_lines_carry_the_stream() {
    let line = LogLine { stream: LogStream::Stdout, line: "Running on local URL".to_string() };
    assert_eq!(line.diagnostic(), "[sidecar stdout] Running on local URL");
    let line = LogLine { stream: LogStream::Stderr, line: "warning: slow".to_string() };
    assert_eq!(line.diagnostic(), "[sidecar stderr] warning: slow");
    let line = LogLine { stream: LogStream::Stderr, line: String::new() };
    assert_eq!(line.diagnostic(), "[sidecar stderr] ");
}

#[test]
fn every_line_becomes_one_event_in_order() {
    let written = ["loading model", "", "model loaded", "listening", "listening"];
    let mut relay = LogRelay::new(LogStream::Stdout);
    assert_eq!(relay.stream(), LogStream::Stdout);
    assert_eq!(relay.forwarded(), 0);
    let mut events = Vec::new();
    for line in written {
        events.push(relay.forward(line.to_string()));
    }
    assert_eq!(events.len(), written.len());
    assert_eq!(relay.forwarded(), 5);
    for (event, line) in events.iter().zip(written) {
        assert_eq!(event.stream, LogStream::Stdout);
        assert_eq!(event.line, line);
    }
}

#[test]
fn the_two_streams_stay_apart() {
    let stdout_lines = ["a", "b", "c"];
    let stderr_lines = ["x", "y"];
    let mut out = LogRelay::new(LogStream::Stdout);
    let mut err = LogRelay::new(LogStream::Stderr);
    // One possible interleaving of the two readers.
    let mut arrived = Vec::new();
    arrived.push(err.forward(stderr_lines[0].to_string()));
    arrived.push(out.forward(stdout_lines[0].to_string()));
    arrived.push(out.forward(stdout_lines[1].to_string()));
    arrived.push(err.forward(stderr_lines[1].to_string()));
    arrived.push(out.forward(stdout_lines[2].to_string()));
    let got_out: Vec<&str> = arrived
        .iter()
        .filter(|e| e.stream == LogStream::Stdout)
        .map(|e| e.line.as_str())
        .collect();
    let got_err: Vec<&str> = arrived
        .iter()
        .filter(|e| e.stream == LogStream::Stderr)
        .map(|e| e.line.as_str())
        .collect();
    assert_eq!(got_out, stdout_lines);
    assert_eq!(got_err, stderr_lines);
    assert_eq!(out.forwarded(), 3);
    assert_eq!(err.forwarded(), 2);
}
