use rust_esp32_std_demo::echo::{test_tcp_bind_handle_client, Echo, BUFFER};
use rust_esp32_std_demo::http::{
    failure, handle, httpd, panic_message, pass, serve, Connection, Handler, Method, Middleware,
    Response,
};
use rust_esp32_std_demo::probe::{page_text, reads_on, request, test_tcp};
use rust_esp32_std_demo::wifi::{
    configuration, find_channel, has_lease, ping, AccessPoint, Wifi, WifiAction, WifiError,
    WifiEvent, WifiStage,
};

fn fresh() -> Connection {
    Connection { response: None }
}

fn point(ssid: &str, channel: u8) -> AccessPoint {
    AccessPoint { ssid: ssid.to_string(), channel }
}

#[test]
fn routes_are_registered_in_order() {
    let uris = |experimental: bool| -> Vec<String> {
        httpd(experimental).into_iter().map(|route| route.uri).collect()
    };
    assert_eq!(uris(false), ["/", "/foo", "/bar", "/panic"]);
    assert_eq!(
        uris(true),
        ["/", "/foo", "/bar", "/panic", "/middleware", "/middleware2"]
    );
}

#[test]
fn each_route_is_served() {
    let routes = httpd(true);
    // The experimental server shows a failure as `Debug` does.
    let words = format!("{:?}", "Boo, something happened!");

    let mut connection = fresh();
    assert_eq!(serve(&routes[0], &words, &mut connection), Ok(()));
    let response = connection.response.unwrap();
    assert_eq!((response.status, response.body.as_str()), (200, "Hello from Rust!"));
    assert_eq!(response.message, Some("OK".to_string()));
    let mut connection = fresh();
    assert_eq!(serve(&httpd(false)[0], &words, &mut connection), Ok(()));
    let response = connection.response.unwrap();
    assert_eq!((response.status, response.body.as_str()), (200, "Hello from Rust!"));
    assert_eq!(response.message, None);

    let mut connection = fresh();
    assert_eq!(
        serve(&routes[1], &words, &mut connection),
        Err("\"Boo, something happened!\"".to_string())
    );
    assert!(connection.response.is_none());
    assert_eq!(
        handle(routes[1].handler, &mut connection),
        Err("Boo, something happened!".to_string())
    );

    let mut connection = fresh();
    assert_eq!(serve(&routes[2], &words, &mut connection), Ok(()));
    let response = connection.response.unwrap();
    assert_eq!(response.status, 403);
    assert_eq!(response.message, Some("No permissions".to_string()));
    assert_eq!(response.body, "You have no permissions to access this page");

    assert_eq!(
        panic_message(routes[3].handler),
        Some("User requested a panic!".to_string())
    );
    assert_eq!(panic_message(Handler::Hello), None);
    assert_eq!(failure(Handler::Boo), Some("Boo, something happened!".to_string()));
    assert_eq!(failure(Handler::Layered), None);
    assert!(routes.iter().all(|route| route.method == Method::Get));

    let mut connection = fresh();
    assert_eq!(serve(&routes[4], &words, &mut connection), Ok(()));
    let response = connection.response.unwrap();
    assert_eq!(response.status, 500);
    assert_eq!(response.message, None);
    assert_eq!(response.body, "ERROR: \"Boo, something happened!\"");

    let mut connection = fresh();
    assert_eq!(serve(&routes[5], &words, &mut connection), Ok(()));
    let response = connection.response.unwrap();
    assert_eq!(
        (response.status, response.body.as_str()),
        (200, "Middleware2 handler called")
    );
    assert_eq!(response.message, Some("OK".to_string()));
}

#[test]
fn an_error_after_an_answer_is_handed_on() {
    let mut connection = Connection {
        response: Some(Response { status: 200, message: None, body: "begun".to_string() }),
    };
    let late = Err("late".to_string());
    assert_eq!(pass(Middleware::Sample, &mut connection, late.clone()), late);
    assert_eq!(connection.response.unwrap().body, "begun");
}

#[test]
fn the_second_middleware_changes_nothing() {
    let mut connection = fresh();
    let result = handle(Handler::Boo, &mut connection);
    let error = Err("Boo, something happened!".to_string());
    assert_eq!(pass(Middleware::Sample2, &mut connection, result), error);
    assert!(connection.response.is_none());
    // What passed the first middleware passes it again unchanged.
    assert_eq!(pass(Middleware::Sample, &mut connection, error), Ok(()));
    assert_eq!(pass(Middleware::Sample, &mut connection, Ok(())), Ok(()));
    assert_eq!(
        connection.response.unwrap().body,
        "ERROR: Boo, something happened!"
    );
}

#[test]
fn echo_returns_what_it_read() {
    assert_eq!(BUFFER, 20);
    let mut buffer = [9u8; BUFFER];
    buffer[..4].copy_from_slice(&[5, 6, 7, 0]);
    match test_tcp_bind_handle_client(&buffer, 3) {
        Echo::Reply(bytes) => assert_eq!(bytes, [5, 6, 7]),
        other => panic!("{:?}", other),
    }
    assert!(matches!(test_tcp_bind_handle_client(&buffer, 0), Echo::Close));
    match test_tcp_bind_handle_client(&buffer, BUFFER) {
        Echo::Reply(bytes) => assert_eq!(bytes, buffer),
        other => panic!("{:?}", other),
    }
}

#[test]
fn a_session_of_the_echo_service_is_faithful() {
    let mut input: &[u8] = b"longer than one read of the echo service";
    let mut output = vec![];
    loop {
        let mut buffer = [0u8; BUFFER];
        let count = input.len().min(BUFFER);
        buffer[..count].copy_from_slice(&input[..count]);
        input = &input[count..];
        match test_tcp_bind_handle_client(&buffer, count) {
            Echo::Close => break,
            Echo::Reply(bytes) => output.extend(bytes),
        }
    }
    assert_eq!(output, b"longer than one read of the echo service");
}

#[test]
fn the_plain_request_is_what_it_was() {
    assert_eq!(request(), b"GET / HTTP/1.0\n\n");
}

#[test]
fn answers_are_reported() {
    assert_eq!(
        test_tcp("h\u{e9}".as_bytes()).unwrap(),
        "1.1.1.1 returned:\n=================\nh\u{e9}\n=================\nSince it returned something, all is OK"
    );
    assert!(test_tcp(&[0xff, 0xfe]).is_err());
}

#[test]
fn pages_are_shown_as_text() {
    assert_eq!(page_text(b"<html>", 5), "<html");
    assert_eq!(page_text(&[b'a', 0xff, b'b'], 3), "a\u{fffd}b");
    assert_eq!(page_text(&[], 0), "");
    assert!(reads_on(1));
    assert!(!reads_on(0));
}

#[test]
fn the_first_access_point_of_the_name_counts() {
    let scan = vec![point("other", 3), point("home", 6), point("home", 11)];
    assert_eq!(find_channel(&scan, &"home".to_string()), Some(6));
    assert_eq!(find_channel(&scan, &"away".to_string()), None);
}

#[test]
fn the_own_access_point_shares_the_channel() {
    let (ssid, password) = ("home".to_string(), "word".to_string());
    let found = configuration(&ssid, &password, Some(6));
    assert_eq!((found.ssid.as_str(), found.password.as_str()), ("home", "word"));
    assert_eq!((found.channel, found.own_channel), (Some(6), 6));
    assert_eq!(found.own_ssid, "aptest");
    let unknown = configuration(&ssid, &password, None);
    assert_eq!((unknown.channel, unknown.own_channel), (None, 1));
}

#[test]
fn a_lease_needs_connection_and_address() {
    assert!(has_lease(true, [0, 0, 0, 1]));
    assert!(!has_lease(true, [0, 0, 0, 0]));
    assert!(!has_lease(false, [10, 0, 0, 2]));
}

#[test]
fn pings_have_to_be_answered() {
    assert_eq!(ping([1, 2, 3, 4], 5, 5), Ok(()));
    let error = ping([192, 168, 0, 1], 5, 4).unwrap_err();
    assert_eq!(error, WifiError::Timeouts([192, 168, 0, 1]));
    assert_eq!(error.message(), "Pinging IP 192.168.0.1 resulted in timeouts");
    assert_eq!(WifiError::NotStarted.message(), "Wifi did not start");
    assert_eq!(
        WifiError::NotConnected.message(),
        "Wifi did not connect or did not receive a DHCP lease"
    );
}

fn started() -> Wifi {
    let (mut wifi, action) = Wifi::new("home".to_string(), "word".to_string());
    assert!(matches!(action, WifiAction::Scan));
    match wifi.step(WifiEvent::Scanned(vec![point("home", 9)])) {
        WifiAction::Configure(configuration) => {
            assert_eq!(configuration.channel, Some(9));
            assert_eq!(configuration.own_channel, 9);
        }
        other => panic!("{:?}", other),
    }
    assert!(matches!(wifi.step(WifiEvent::Done), WifiAction::Start));
    assert!(matches!(
        wifi.step(WifiEvent::Done),
        WifiAction::AwaitStart { secs: 20 }
    ));
    wifi
}

fn connecting() -> Wifi {
    let mut wifi = started();
    assert!(matches!(wifi.step(WifiEvent::Waited(true)), WifiAction::Connect));
    assert!(matches!(
        wifi.step(WifiEvent::Done),
        WifiAction::AwaitLease { secs: 20 }
    ));
    wifi
}

fn pinging() -> Wifi {
    let mut wifi = connecting();
    assert!(matches!(
        wifi.step(WifiEvent::Waited(true)),
        WifiAction::ReadGateway
    ));
    assert!(matches!(
        wifi.step(WifiEvent::Gateway([10, 0, 0, 1])),
        WifiAction::Ping([10, 0, 0, 1])
    ));
    wifi
}

#[test]
fn the_network_comes_up() {
    let mut wifi = pinging();
    let pinged = WifiEvent::Pinged { transmitted: 5, received: 5 };
    assert!(matches!(wifi.step(pinged), WifiAction::Finish));
    assert_eq!(wifi.stage, WifiStage::Up);
}

#[test]
fn each_failure_is_told_apart() {
    let mut wifi = started();
    assert!(matches!(
        wifi.step(WifiEvent::Waited(false)),
        WifiAction::Fail(WifiError::NotStarted)
    ));
    let mut wifi = connecting();
    assert!(matches!(
        wifi.step(WifiEvent::Waited(false)),
        WifiAction::Fail(WifiError::NotConnected)
    ));
    let mut wifi = pinging();
    let pinged = WifiEvent::Pinged { transmitted: 5, received: 3 };
    assert!(matches!(
        wifi.step(pinged),
        WifiAction::Fail(WifiError::Timeouts([10, 0, 0, 1]))
    ));
}
