use rserve::text::{decimal_text, has_substring, same_text};
use rserve::{
    export_frame, have_hw, header_line, notification_text, notify_outcome, notify_payload,
    notify_request, notify_result, record_line, response_ok, NotifyReply, Trend, EXPORT_HOST, HW1, HW2,
    NOTIFY_CHANNEL, NOTIFY_CONTENT_TYPE, NOTIFY_ENV_VAR, NOTIFY_URL, TEST_DATA,
};

#[test]
fn an_answer_with_the_mark_twice_is_a_success() {
    let body = "{\"ok\":true,\"channel\":\"C024BE91L\",\"message\":{\"text\":\"up\",\"mrkdwn\":true}}";
    assert!(response_ok(body));
    assert!(notify_result(&NotifyReply::Body(String::from(body))));
}

#[test]
fn an_answer_without_the_mark_is_a_failure() {
    let body = "{\"ok\":false,\"error\":\"invalid_auth\"}";
    assert!(!response_ok(body));
    assert!(!notify_result(&NotifyReply::Body(String::from(body))));
}

#[test]
fn the_mark_counts_wherever_it_stands() {
    assert!(response_ok("{\"ok\":false,\"warning\":\"x\",\"retry\":true}"));
    assert!(response_ok(":true"));
    assert!(response_ok("xx:true"));
    assert!(!response_ok("{\"ok\": true}"));
    assert!(!response_ok(":tru"));
    assert!(!response_ok("true"));
    assert!(!response_ok(""));
}

#[test]
fn a_request_that_did_not_get_through_is_a_failure() {
    assert!(!notify_result(&NotifyReply::Failed));
}

#[test]
fn an_unreadable_answer_is_a_failure_whatever_the_reason_says() {
    assert!(!notify_result(&NotifyReply::Unreadable(String::from("error decoding response body"))));
    assert!(!notify_result(&NotifyReply::Unreadable(String::from("expected \"ok\":true"))));
    assert!(!notify_result(&NotifyReply::Unreadable(String::from("x:true"))));
    assert!(!notify_result(&NotifyReply::Unreadable(String::new())));
}

#[test]
fn without_a_request_the_outcome_is_failure() {
    assert!(!notify_outcome(None));
}

#[test]
fn with_a_request_the_outcome_is_that_of_the_reply() {
    let good = NotifyReply::Body(String::from("{\"ok\":true}"));
    let bad = NotifyReply::Body(String::from("{\"ok\":false,\"error\":\"invalid_auth\"}"));
    let unreadable = NotifyReply::Unreadable(String::from(":true"));
    assert!(notify_outcome(Some(&good)));
    assert!(!notify_outcome(Some(&bad)));
    assert!(!notify_outcome(Some(&unreadable)));
    assert!(!notify_outcome(Some(&NotifyReply::Failed)));
}

#[test]
fn no_token_gives_no_request_and_no_success() {
    let request = notify_request(None, "Pressure rising");
    assert_eq!(request, None);
    let reply: Option<NotifyReply> = request.map(|_| NotifyReply::Failed);
    assert!(!notify_outcome(reply.as_ref()));
}

#[test]
fn the_payload_has_token_channel_and_text() {
    assert_eq!(
        notify_payload("xoxb-1", "Pressure rising"),
        "token=xoxb-1&channel=#drn&text=Pressure rising"
    );
    assert_eq!(notify_payload("", ""), "token=&channel=#drn&text=");
}

#[test]
fn without_a_token_there_is_no_request() {
    assert_eq!(notify_request(None, "hello"), None);
}

#[test]
fn a_request_goes_to_the_fixed_address_as_a_form() {
    let request = notify_request(Some(String::from("k")), "hello").unwrap();
    assert_eq!(request.url, "https://slack.com/api/chat.postMessage");
    assert_eq!(request.content_type, "application/x-www-form-urlencoded");
    assert_eq!(request.body, "token=k&channel=#drn&text=hello");
}

#[test]
fn the_fixed_names() {
    assert_eq!(NOTIFY_URL, "https://slack.com/api/chat.postMessage");
    assert_eq!(NOTIFY_CHANNEL, "#drn");
    assert_eq!(NOTIFY_ENV_VAR, "APPVIEW_SLACKBOT_TOKEN");
    assert_eq!(NOTIFY_CONTENT_TYPE, "application/x-www-form-urlencoded");
    assert_eq!(EXPORT_HOST, "default.main.musing-faraday-83adewh.cribl.cloud:20000");
    assert_eq!(HW1, "/dev/ttyUSB0");
    assert_eq!(HW2, "/dev/i2c-1");
    assert_eq!(TEST_DATA, "/tmp/sensor.dat");
}

#[test]
fn an_export_frame_is_the_text_and_a_line_feed() {
    assert_eq!(export_frame("{\"t1\":99,\"t2\":100}"), b"{\"t1\":99,\"t2\":100}\n".to_vec());
    assert_eq!(export_frame(""), vec![b'\n']);
    assert_eq!(export_frame("°"), vec![0xc2, 0xb0, b'\n']);
}

#[test]
fn hardware_takes_both_devices() {
    assert!(have_hw(true, true));
    assert!(!have_hw(true, false));
    assert!(!have_hw(false, true));
    assert!(!have_hw(false, false));
}

#[test]
fn a_record_line_in_full() {
    let pressure = 1013.254;
    let celsius = 21.5;
    let delta = -0.126;
    let line = record_line(
        &format!("{:.2}", pressure),
        &format!("{:.2}", celsius * 1.8 + 32.0),
        &format!("{:.2}", delta),
        "2024-03-09 07:05",
        1709967900,
    );
    assert_eq!(line, "1013.25 70.70 -0.13 2024-03-09 07:05 (1709967900)");
}

#[test]
fn a_record_line_at_the_epoch() {
    assert_eq!(record_line("0.00", "32.00", "0.00", "1970-01-01 00:00", 0), "0.00 32.00 0.00 1970-01-01 00:00 (0)");
}

#[test]
fn a_notification_in_full() {
    assert_eq!(
        notification_text(Trend::Rising, "0.42", "1013.67", "1014.00", "1013.25", "09:30"),
        "Pressure rising 0.42: current 1013.67, max 1014.00, min 1013.25 at 09:30"
    );
}

#[test]
fn a_header_line_in_full() {
    assert_eq!(
        header_line(7, "1013.25", "1014.00", "1012.90", "1013.67"),
        "samples 7 first 1013.25 max 1014.00 min 1012.90 last 1013.67"
    );
    assert_eq!(header_line(0, "0.00", "0.00", "0.00", "0.00"), "samples 0 first 0.00 max 0.00 min 0.00 last 0.00");
}

#[test]
fn decimal_text_writes_numbers_as_usual() {
    for n in [0u64, 1, 9, 10, 11, 99, 100, 101, 1709967900, u64::MAX] {
        assert_eq!(decimal_text(n), n.to_string());
    }
}

#[test]
fn substring_search_agrees_with_contains() {
    let hays = ["", "a", "rserve", "/usr/bin/rserve", "rserv", "xrservex", "rrserve", "öl:true", "aaa"];
    let needles = ["", "a", "rserve", ":true", "aa", "aaaa", "ö"];
    for hay in hays {
        for needle in needles {
            assert_eq!(has_substring(hay, needle), hay.contains(needle));
        }
    }
}

#[test]
fn same_text_agrees_with_equality() {
    let samples = ["", "-l", "-l ", "--level", "ö", "o"];
    for a in samples {
        for b in samples {
            assert_eq!(same_text(a, b), a == b);
        }
    }
}

#[test]
fn the_stand_in_sensor_repeats_itself_from_the_same_seed() {
    let mut a = rserve::SyntheticSensor::new(42);
    let mut b = rserve::SyntheticSensor::new(42);
    for _ in 0..100 {
        assert_eq!(a.read(), b.read());
    }
}

#[test]
fn the_stand_in_sensor_follows_its_sequence() {
    let mut sensor = rserve::SyntheticSensor::new(7);
    let mut state: u64 = 7;
    for _ in 0..50 {
        state = state.wrapping_mul(6364136223846793005).wrapping_add(1442695040888963407);
        let reading = sensor.read();
        assert_eq!(reading.pressure_numerator, state >> 11);
    }
}

#[test]
fn the_stand_in_sensor_reads_70_degrees_and_a_pressure_below_one() {
    let mut sensor = rserve::SyntheticSensor::new(0);
    let mut seen = Vec::new();
    for _ in 0..1000 {
        let reading = sensor.read();
        assert_eq!(f64::from_bits(reading.temperature), 70.0);
        assert_eq!(reading.temperature, rserve::SYNTHETIC_TEMPERATURE);
        assert!(reading.pressure_numerator < rserve::SYNTHETIC_SCALE);
        let pressure = reading.pressure_numerator as f64 / rserve::SYNTHETIC_SCALE as f64;
        assert!((0.0..1.0).contains(&pressure));
        seen.push(reading.pressure_numerator);
    }
    seen.sort();
    seen.dedup();
    assert!(seen.len() > 990);
}
