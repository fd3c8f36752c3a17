use airwin::protocols::http_server::{
    ask_body, content_length, request_complete, discover_body, handle_request, headers_complete, is_request_separator, request_body,
    respond, route_for, route_request, route_text, split_words, AirDropHttpServer, RequestError,
    Route,
};
use airwin::utils::error::AirWinError;

fn chars(s: &str) -> Vec<char> {
    s.chars().collect()
}

#[test]
fn separators_are_the_whitespace_characters() {
    for code in 0..=0x10FFFFu32 {
        if let Some(c) = char::from_u32(code) {
            assert_eq!(is_request_separator(c), c.is_whitespace(), "U+{:04X}", code);
        }
    }
}

#[test]
fn words_are_split_like_whitespace_splitting() {
    for line in ["GET / HTTP/1.1", "  a\tb  c  ", "", "   ", "one", "a\u{a0}b\u{3000}c", "x \r"] {
        let expected: Vec<Vec<char>> = line.split_whitespace().map(chars).collect();
        assert_eq!(split_words(&chars(line)), expected, "{:?}", line);
    }
}

#[test]
fn the_four_endpoints_are_routed() {
    assert_eq!(route_for(&chars("GET"), &chars("/")), Route::Root);
    assert_eq!(route_for(&chars("POST"), &chars("/Discover")), Route::Discover);
    assert_eq!(route_for(&chars("POST"), &chars("/Ask")), Route::Ask);
    assert_eq!(route_for(&chars("POST"), &chars("/Upload")), Route::Upload);
}

#[test]
fn anything_else_is_not_found() {
    for (method, path) in [
        ("POST", "/"),
        ("GET", "/Ask"),
        ("GET", "/Discover"),
        ("PUT", "/Upload"),
        ("post", "/Ask"),
        ("POST", "/ask"),
        ("POST", "/Ask/"),
        ("GET", ""),
        ("", "/"),
        ("DELETE", "/unknown"),
    ] {
        assert_eq!(route_for(&chars(method), &chars(path)), Route::NotFound, "{} {}", method, path);
    }
}

#[test]
fn request_line_is_read_from_the_first_line() {
    assert_eq!(route_text("GET / HTTP/1.1\r\nHost: x\r\n\r\n"), Ok(Route::Root));
    assert_eq!(route_text("POST /Ask HTTP/1.1\r\n\r\n{}"), Ok(Route::Ask));
    assert_eq!(route_text("POST   /Upload\tHTTP/1.1"), Ok(Route::Upload));
    assert_eq!(route_text("POST /Discover HTTP/1.1 extra\n"), Ok(Route::Discover));
    assert_eq!(route_text("PATCH /x HTTP/1.1\r\n"), Ok(Route::NotFound));
    assert_eq!(route_text(""), Err(RequestError::Empty));
    assert_eq!(route_text("GET /"), Err(RequestError::InvalidRequestLine));
    assert_eq!(route_text("GET /\nHTTP/1.1"), Err(RequestError::InvalidRequestLine));
    assert_eq!(route_text("\nGET / HTTP/1.1"), Err(RequestError::InvalidRequestLine));
    assert_eq!(route_text("\r\n"), Err(RequestError::InvalidRequestLine));
}

#[test]
fn request_bytes_are_decoded_lossily() {
    assert_eq!(route_request(b"GET / HTTP/1.1\r\n\r\n"), Ok(Route::Root));
    assert_eq!(route_request(b""), Err(RequestError::Empty));
    assert_eq!(route_request(b"POST /Ask HTTP/1.1\r\n\r\n\xff\xfe"), Ok(Route::Ask));
    assert_eq!(route_request(b"POST /A\xffsk HTTP/1.1\r\n\r\n"), Ok(Route::NotFound));
    assert_eq!(route_request(b"\xff"), Err(RequestError::InvalidRequestLine));
}

#[test]
fn headers_end_with_a_blank_line() {
    assert!(!headers_complete(b""));
    assert!(!headers_complete(b"GET / HTTP/1.1\r\n"));
    assert!(!headers_complete(b"GET / HTTP/1.1\n\n"));
    assert!(headers_complete(b"GET / HTTP/1.1\r\n\r\n"));
    assert!(headers_complete(b"GET / HTTP/1.1\r\nA: b\r\n\r\nbody"));
    assert_eq!(request_body(b"POST /Upload HTTP/1.1\r\n\r\nabc"), Ok(b"abc".to_vec()));
    assert_eq!(request_body(b"H\r\n\r\nabc\r\n\r\ndef"), Ok(b"abc\r\n\r\ndef".to_vec()));
    assert_eq!(request_body(b"H\r\n\r\n"), Ok(Vec::new()));
    assert_eq!(request_body(b"H\r\n"), Err(RequestError::MissingHeaderEnd));
}

#[test]
fn ask_is_always_accepted_and_names_the_receiver() {
    for body in ["", "{}", "{\"Files\":[]}", "not json at all"] {
        let request = format!("POST /Ask HTTP/1.1\r\nContent-Length: {}\r\n\r\n{}", body.len(), body);
        let reply = respond(Route::Ask, request.as_bytes(), Ok("my-pc".to_string())).unwrap();
        assert_eq!(reply.response.status, 200);
        assert_eq!(reply.response.content_type, Some("application/json".to_string()));
        assert!(reply.response.body.contains("ReceiverComputerName"));
        assert!(reply.upload.is_none());
        let value: serde_json::Value = serde_json::from_str(&reply.response.body).unwrap();
        assert_eq!(value["ReceiverComputerName"], "my-pc");
        assert_eq!(value["ReceiverModelName"], "Windows,1");
    }
}

#[test]
fn unknown_path_is_a_404_with_empty_body() {
    let reply = respond(Route::NotFound, b"GET /nope HTTP/1.1\r\n\r\n", Err(String::new())).unwrap();
    assert_eq!(reply.response.status, 404);
    assert_eq!(reply.response.body, "");
    assert_eq!(reply.response.content_type, None);
    assert_eq!(reply.response.to_text(), "HTTP/1.1 404 Not Found\r\nContent-Length: 0\r\n\r\n");
    let handled = handle_request(b"GET /nope HTTP/1.1\r\n\r\n").unwrap();
    assert_eq!(handled.response.status, 404);
    assert_eq!(handled.response.body, "");
}

#[test]
fn root_is_an_empty_200() {
    let reply = handle_request(b"GET / HTTP/1.1\r\n\r\n").unwrap();
    assert_eq!(reply.response.status, 200);
    assert_eq!(reply.response.to_text(), "HTTP/1.1 200 OK\r\nContent-Length: 0\r\n\r\n");
    assert!(reply.upload.is_none());
}

#[test]
fn discover_declares_the_capabilities() {
    let body = discover_body("pc \"1\"").unwrap();
    let value: serde_json::Value = serde_json::from_str(&body).unwrap();
    assert_eq!(value["ReceiverComputerName"], "pc \"1\"");
    assert_eq!(value["ReceiverModelName"], "Windows,1");
    assert_eq!(value["ReceiverMediaCapabilities"]["Version"], 1);
    let vendor = &value["ReceiverMediaCapabilities"]["Vendor"]["com.microsoft"];
    assert_eq!(vendor["OSBuildVersion"], "22000");
    assert_eq!(vendor["OSVersion"][0], 10);
    assert_eq!(vendor["OSVersion"][1], 0);
    let reply = handle_request(b"POST /Discover HTTP/1.1\r\n\r\n").unwrap();
    assert_eq!(reply.response.status, 200);
    assert!(reply.response.body.contains("ReceiverComputerName"));
}

#[test]
fn ask_body_has_the_exact_text() {
    assert_eq!(
        ask_body("pc").unwrap(),
        "{\"ReceiverComputerName\":\"pc\",\"ReceiverModelName\":\"Windows,1\"}"
    );
}

#[test]
fn json_response_counts_bytes_not_characters() {
    let reply = respond(Route::Ask, b"", Ok("é".to_string())).unwrap();
    let text = reply.response.to_text();
    let body = "{\"ReceiverComputerName\":\"é\",\"ReceiverModelName\":\"Windows,1\"}";
    assert_eq!(
        text,
        format!(
            "HTTP/1.1 200 OK\r\nContent-Type: application/json\r\nContent-Length: {}\r\n\r\n{}",
            body.len(),
            body
        )
    );
    assert_eq!(body.len(), body.chars().count() + 1);
}

#[test]
fn upload_keeps_the_body() {
    let reply = handle_request(b"POST /Upload HTTP/1.1\r\nA: b\r\n\r\n\x00\x01\x02").unwrap();
    assert_eq!(reply.response.status, 200);
    assert_eq!(reply.response.body, "");
    assert_eq!(reply.upload, Some(vec![0, 1, 2]));
    match handle_request(b"POST /Upload HTTP/1.1\r\n") {
        Err(AirWinError::ProtocolError(m)) => assert_eq!(m, "Could not find end of HTTP headers"),
        other => panic!("unexpected: {:?}", other),
    }
}

#[test]
fn unreadable_requests_are_protocol_errors() {
    match handle_request(b"") {
        Err(AirWinError::ProtocolError(m)) => assert_eq!(m, "Empty HTTP request"),
        other => panic!("unexpected: {:?}", other),
    }
    match handle_request(b"GET /\r\n\r\n") {
        Err(AirWinError::ProtocolError(m)) => assert_eq!(m, "Invalid HTTP request line"),
        other => panic!("unexpected: {:?}", other),
    }
}

#[test]
fn host_name_failure_fails_the_naming_replies() {
    for route in [Route::Ask, Route::Discover] {
        match respond(route, b"", Err("no host".to_string())) {
            Err(AirWinError::Other(m)) => assert_eq!(m, "no host"),
            other => panic!("unexpected: {:?}", other),
        }
    }
    assert!(respond(Route::Root, b"", Err("no host".to_string())).is_ok());
}

#[test]
fn server_starts_only_after_initialization() {
    let mut server = AirDropHttpServer::new(8771);
    assert_eq!(server.port(), 8771);
    assert!(!server.running());
    match server.start() {
        Err(AirWinError::Other(m)) => assert_eq!(m, "TLS acceptor not initialized"),
        other => panic!("unexpected: {:?}", other),
    }
    let identity = server.initialize().unwrap();
    assert!(!identity.certificate.is_empty());
    assert!(!identity.private_key.is_empty());
    assert!(!identity.certificate_pem.is_empty());
    assert!(!identity.private_key_pem.is_empty());
    assert_eq!(server.start().unwrap(), 8771);
    match server.listening(Err("in use".to_string())) {
        Err(AirWinError::NetworkError(m)) => assert_eq!(m, "in use"),
        other => panic!("unexpected: {:?}", other),
    }
    assert!(!server.running());
    server.listening(Ok(())).unwrap();
    assert!(server.running());
    server.stop();
    assert!(!server.running());
}

#[test]
fn declared_length_is_read_from_the_headers() {
    assert_eq!(content_length(b"POST /Upload HTTP/1.1\r\nContent-Length: 12\r\n\r\n"), Some(12));
    assert_eq!(content_length(b"POST / HTTP/1.1\r\ncontent-length:7\r\nA: b\r\n\r\nxyz"), Some(7));
    assert_eq!(content_length(b"P / H\r\nA: b\r\nCONTENT-LENGTH: \t 0042 \r\n\r\n"), Some(42));
    assert_eq!(content_length(b"P / H\r\nContent-Length: 5\r\nContent-Length: 9\r\n\r\n"), Some(5));
    assert_eq!(content_length(b"P / H\r\nContent-Length: 0\r\n\r\n"), Some(0));
    assert_eq!(
        content_length(b"P / H\r\nContent-Length: 18446744073709551615\r\n\r\n"),
        Some(u64::MAX)
    );
    assert_eq!(
        content_length(b"P / H\r\nContent-Length: 99999999999999999999999\r\n\r\n"),
        Some(u64::MAX)
    );
    assert_eq!(content_length(b"P / H\r\nContent-Length: abc\r\n\r\n"), None);
    assert_eq!(content_length(b"P / H\r\nContent-Length:\r\n\r\n"), None);
    assert_eq!(content_length(b"P / H\r\nContent-Type: x\r\n\r\n"), None);
    assert_eq!(content_length(b"P / H\r\nContent-Length: 12\r\n"), None);
    assert_eq!(content_length(b"Content-Length: 12\r\n\r\n"), None);
    assert_eq!(content_length(b"P / H\r\n\r\nContent-Length: 12\r\n\r\n"), None);
    assert_eq!(content_length(b""), None);
}

#[test]
fn a_request_is_complete_with_its_declared_body() {
    assert!(!request_complete(b""));
    assert!(!request_complete(b"GET / HTTP/1.1\r\n"));
    assert!(request_complete(b"GET / HTTP/1.1\r\n\r\n"));
    assert!(request_complete(b"GET / HTTP/1.1\r\nContent-Length: 0\r\n\r\n"));
    let head = b"POST /Upload HTTP/1.1\r\nContent-Length: 5\r\n\r\n".to_vec();
    let body = b"hello!";
    for n in 0..=body.len() {
        let mut request = head.clone();
        request.extend_from_slice(&body[..n]);
        assert_eq!(request_complete(&request), n >= 5, "{} bytes of body", n);
    }
    assert!(request_complete(b"POST /Upload HTTP/1.1\r\nA: b\r\n\r\npart"));
    assert!(!request_complete(
        b"POST /Upload HTTP/1.1\r\nContent-Length: 99999999999999999999999\r\n\r\nxyz"
    ));
}

#[test]
fn an_upload_in_several_reads_is_kept_whole() {
    let body: Vec<u8> = (0..5000u32).map(|i| (i % 251) as u8).collect();
    let mut wire = format!("POST /Upload HTTP/1.1\r\nContent-Length: {}\r\n\r\n", body.len()).into_bytes();
    wire.extend_from_slice(&body);
    let mut buffer: Vec<u8> = Vec::new();
    let mut reads = 0;
    for chunk in wire.chunks(1024) {
        assert!(!request_complete(&buffer));
        buffer.extend_from_slice(chunk);
        reads += 1;
    }
    assert!(reads > 1);
    assert!(request_complete(&buffer));
    assert_eq!(handle_request(&buffer).unwrap().upload, Some(body));
}

#[test]
fn discover_reply_declares_the_length_of_its_body() {
    let reply = respond(Route::Discover, b"", Ok("häst".to_string())).unwrap();
    assert_eq!(reply.response.status, 200);
    assert_eq!(reply.response.content_type, Some("application/json".to_string()));
    let text = reply.response.to_text();
    let (head, body) = text.split_once("\r\n\r\n").unwrap();
    assert_eq!(body, reply.response.body);
    assert!(head.starts_with("HTTP/1.1 200 OK\r\nContent-Type: application/json\r\n"));
    assert!(head.ends_with(&format!("Content-Length: {}", body.len())));
    assert_eq!(content_length(text.as_bytes()), Some(body.len() as u64));
    assert!(request_complete(text.as_bytes()));
}

#[test]
fn well_formed_text_is_routed_as_it_reads() {
    let request = "POST /Ask HTTP/1.1\r\nX-Name: caf\u{e9} \u{1f4e6}\r\n\r\n";
    assert_eq!(route_request(request.as_bytes()), route_text(request));
    assert_eq!(route_request(request.as_bytes()), Ok(Route::Ask));
    let other = "GET /caf\u{e9} HTTP/1.1\r\n\r\n";
    assert_eq!(route_request(other.as_bytes()), route_text(other));
    assert_eq!(route_request(other.as_bytes()), Ok(Route::NotFound));
}
