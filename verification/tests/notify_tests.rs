use uptime_monitor::errors::MonitorError;
use uptime_monitor::health::AlertEvent;
use uptime_monitor::notify::{
    alert_body, build_alert_request, check_delivery_status, down_alert_text, up_alert_text,
};
use uptime_monitor::signature::Twitter;

#[test]
fn down_alert_text_embeds_time_and_name() {
    let time = "2023年01月02日 03:04:05";
    let name = "TIPS";
    let text = down_alert_text(&time.as_bytes().to_vec(), &name.as_bytes().to_vec());
    assert_eq!(
        String::from_utf8(text).unwrap(),
        format!(
            "【障害情報】\n{}\n現在、{}に繋がりにくくなっています。\nサーバが復旧したら再度お知らせします。",
            time, name
        )
    );
}

#[test]
fn up_alert_text_embeds_time_and_name() {
    let time = "2023年01月02日 03:04:05";
    let name = "Open LMS";
    let text = up_alert_text(&time.as_bytes().to_vec(), &name.as_bytes().to_vec());
    assert_eq!(
        String::from_utf8(text).unwrap(),
        format!("【復旧情報】\n{}\n{}のサーバが復旧しました。", time, name)
    );
}

#[test]
fn alert_body_frames_plain_text() {
    let body = alert_body(&b"hello".to_vec());
    assert_eq!(String::from_utf8(body).unwrap(), "{\"text\":\"hello\"}");
}

#[test]
fn alert_body_escapes_quotes_backslashes_and_controls() {
    let body = alert_body(&b"a\"b\\c\nd".to_vec());
    assert_eq!(
        String::from_utf8(body).unwrap(),
        "{\"text\":\"a\\\"b\\\\c\\u000Ad\"}"
    );
}

#[test]
fn alert_body_keeps_multibyte_text() {
    let body = alert_body(&"復旧".as_bytes().to_vec());
    assert_eq!(String::from_utf8(body).unwrap(), "{\"text\":\"復旧\"}");
}

#[test]
fn delivery_status_classification() {
    assert_eq!(check_delivery_status(200), Ok(()));
    assert_eq!(check_delivery_status(201), Ok(()));
    assert_eq!(check_delivery_status(299), Ok(()));
    assert_eq!(
        check_delivery_status(300),
        Err(MonitorError::NotificationDeliveryFailed)
    );
    assert_eq!(
        check_delivery_status(404),
        Err(MonitorError::NotificationDeliveryFailed)
    );
    assert_eq!(
        check_delivery_status(500),
        Err(MonitorError::NotificationDeliveryFailed)
    );
    assert_eq!(
        check_delivery_status(0),
        Err(MonitorError::NotificationDeliveryFailed)
    );
}

#[test]
fn build_alert_request_composes_header_and_body() {
    let engine = Twitter::new(
        b"ck".to_vec(),
        b"cs".to_vec(),
        b"tk".to_vec(),
        b"ts".to_vec(),
    );
    let name = "TIPS".as_bytes().to_vec();
    let time = "2023年01月02日 03:04:05".as_bytes().to_vec();
    let nonce = b"1600000000".to_vec();
    let timestamp = b"1600000000".to_vec();
    let (header, body) = build_alert_request(
        &engine,
        AlertEvent::ServiceDown,
        &name,
        &time,
        &nonce,
        &timestamp,
    );
    let expected_header = engine.get_request_header(
        &b"POST".to_vec(),
        &b"https://api.twitter.com/2/tweets".to_vec(),
        &nonce,
        &timestamp,
    );
    assert_eq!(header, expected_header);
    let expected_body = alert_body(&down_alert_text(&time, &name));
    assert_eq!(body, expected_body);

    let (_, up_body) = build_alert_request(
        &engine,
        AlertEvent::ServiceUp,
        &name,
        &time,
        &nonce,
        &timestamp,
    );
    assert_eq!(up_body, alert_body(&up_alert_text(&time, &name)));
}
