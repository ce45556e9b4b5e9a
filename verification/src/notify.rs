//! Notifier: the localized alert message bodies, the JSON body framing of
//! the alert POST, and the classification of the delivery response. The
//! POST itself is I/O and stays outside the library.

use vstd::prelude::*;
use vstd::string::*;

use crate::encoding::spec_hex_digit;
use crate::errors::MonitorError;
use crate::health::AlertEvent;
use crate::signature::{spec_authorization_header, Twitter};

verus! {

/// How one byte of a message is written inside a JSON string: quote and
/// backslash get a backslash escape, control bytes become `\u00XX` with
/// uppercase hex, everything else stands as itself.
pub open spec fn spec_json_escape_byte(b: u8) -> Seq<u8> {
    if b == 34 {  // '"'
        seq![92u8, 34u8]
    } else if b == 92 {  // '\'
        seq![92u8, 92u8]
    } else if b < 32 {
        seq![92u8, 117u8, 48u8, 48u8, spec_hex_digit(b as int / 16), spec_hex_digit(b as int % 16)]
    } else {
        seq![b]
    }
}

/// The JSON-escaped form of a whole message.
pub open spec fn spec_json_escape(s: Seq<u8>) -> Seq<u8>
    decreases s.len(),
{
    if s.len() == 0 {
        Seq::empty()
    } else {
        spec_json_escape_byte(s[0]) + spec_json_escape(s.skip(1))
    }
}

/// Escaping one more byte at the end extends the escaped text at the end.
pub proof fn lemma_json_escape_snoc(s: Seq<u8>, b: u8)
    ensures
        spec_json_escape(s.push(b)) == spec_json_escape(s) + spec_json_escape_byte(b),
    decreases s.len(),
{
    let pushed = s.push(b);
    if s.len() == 0 {
        assert(pushed[0] == b);
        assert(pushed.skip(1) =~= Seq::<u8>::empty());
        assert(spec_json_escape(Seq::<u8>::empty()) == Seq::<u8>::empty());
        assert(spec_json_escape(pushed) =~= spec_json_escape(s) + spec_json_escape_byte(b));
    } else {
        assert(pushed[0] == s[0]);
        assert(pushed.skip(1) =~= s.skip(1).push(b));
        lemma_json_escape_snoc(s.skip(1), b);
        assert(spec_json_escape(pushed) =~= spec_json_escape(s) + spec_json_escape_byte(b));
    }
}

/// The JSON body of the alert POST: `{"text":<message>}` with the message
/// as one escaped JSON string.
pub open spec fn spec_alert_body(text: Seq<u8>) -> Seq<u8> {
    "{\"text\":\"".spec_bytes() + spec_json_escape(text) + "\"}".spec_bytes()
}

/// The down-alert template: header line, timestamp, the service's display
/// name in the outage sentence, and the promise of a recovery notice.
pub open spec fn spec_down_alert_text(time: Seq<u8>, name: Seq<u8>) -> Seq<u8> {
    "【障害情報】\n".spec_bytes() + time + "\n現在、".spec_bytes() + name
        + "に繋がりにくくなっています。\nサーバが復旧したら再度お知らせします。".spec_bytes()
}

/// The up-alert template: header line, timestamp, and the recovery sentence
/// with the service's display name.
pub open spec fn spec_up_alert_text(time: Seq<u8>, name: Seq<u8>) -> Seq<u8> {
    "【復旧情報】\n".spec_bytes() + time + "\n".spec_bytes() + name
        + "のサーバが復旧しました。".spec_bytes()
}

/// A delivery response counts as success exactly when it is a 2xx status.
pub open spec fn spec_is_success_status(status: int) -> bool {
    200 <= status < 300
}

/// Append a byte-string literal (or any slice) to `out`.
fn push_bytes(out: &mut Vec<u8>, s: &[u8])
    ensures
        final(out)@ == old(out)@ + s@,
{
    out.extend_from_slice(s);
    proof {
        assert(out@ =~= old(out)@ + s@);
    }
}

/// JSON-escape `text` and append the result to `out`.
fn json_escape_into(out: &mut Vec<u8>, text: &Vec<u8>)
    ensures
        final(out)@ == old(out)@ + spec_json_escape(text@),
{
    let ghost base = out@;
    let mut i: usize = 0;
    while i < text.len()
        invariant
            i <= text@.len(),
            out@ == base + spec_json_escape(text@.subrange(0, i as int)),
        decreases text@.len() - i,
    {
        let b = text[i];
        proof {
            assert(text@.subrange(0, i + 1 as int) =~= text@.subrange(0, i as int).push(b));
            lemma_json_escape_snoc(text@.subrange(0, i as int), b);
        }
        if b == 34 {
            out.push(92);
            out.push(34);
        } else if b == 92 {
            out.push(92);
            out.push(92);
        } else if b < 32 {
            out.push(92);
            out.push(117);
            out.push(48);
            out.push(48);
            out.push(crate::encoding::hex_digit(b / 16));
            out.push(crate::encoding::hex_digit(b % 16));
        } else {
            out.push(b);
        }
        proof {
            assert(out@ =~= base + spec_json_escape(text@.subrange(0, i + 1 as int)));
        }
        i = i + 1;
    }
    proof {
        assert(text@.subrange(0, text@.len() as int) =~= text@);
    }
}

/// Frame an alert message as the JSON body `{"text":"..."}`.
pub fn alert_body(text: &Vec<u8>) -> (r: Vec<u8>)
    ensures
        r@ == spec_alert_body(text@),
{
    let mut out = vstd::slice::slice_to_vec("{\"text\":\"".as_bytes());
    json_escape_into(&mut out, text);
    push_bytes(&mut out, "\"}".as_bytes());
    proof {
        assert(out@ =~= spec_alert_body(text@));
    }
    out
}

/// Build the down-alert message for one service at one timestamp.
pub fn down_alert_text(time: &Vec<u8>, name: &Vec<u8>) -> (r: Vec<u8>)
    ensures
        r@ == spec_down_alert_text(time@, name@),
{
    let mut out = vstd::slice::slice_to_vec("【障害情報】\n".as_bytes());
    push_bytes(&mut out, time.as_slice());
    push_bytes(&mut out, "\n現在、".as_bytes());
    push_bytes(&mut out, name.as_slice());
    push_bytes(
        &mut out,
        "に繋がりにくくなっています。\nサーバが復旧したら再度お知らせします。".as_bytes(),
    );
    proof {
        assert(out@ =~= spec_down_alert_text(time@, name@));
    }
    out
}

/// Build the up-alert message for one service at one timestamp.
pub fn up_alert_text(time: &Vec<u8>, name: &Vec<u8>) -> (r: Vec<u8>)
    ensures
        r@ == spec_up_alert_text(time@, name@),
{
    let mut out = vstd::slice::slice_to_vec("【復旧情報】\n".as_bytes());
    push_bytes(&mut out, time.as_slice());
    push_bytes(&mut out, "\n".as_bytes());
    push_bytes(&mut out, name.as_slice());
    push_bytes(&mut out, "のサーバが復旧しました。".as_bytes());
    proof {
        assert(out@ =~= spec_up_alert_text(time@, name@));
    }
    out
}

/// The alert message for a fired transition: the down template for
/// `ServiceDown`, the up template for `ServiceUp`.
pub open spec fn spec_alert_text(event: AlertEvent, time: Seq<u8>, name: Seq<u8>) -> Seq<u8>
    recommends
        event != AlertEvent::NoEvent,
{
    if event == AlertEvent::ServiceDown {
        spec_down_alert_text(time, name)
    } else {
        spec_up_alert_text(time, name)
    }
}

/// Everything computable of one signed alert POST: the `Authorization`
/// header value for `POST` to the fixed alert endpoint, and the JSON body
/// holding the alert message for the fired transition. Sending the request
/// is I/O and stays with the caller; the stored state is not rolled back if
/// delivery fails.
pub fn build_alert_request(
    twitter: &Twitter,
    event: AlertEvent,
    name: &Vec<u8>,
    time: &Vec<u8>,
    nonce: &Vec<u8>,
    timestamp: &Vec<u8>,
) -> (r: (Vec<u8>, Vec<u8>))
    requires
        event != AlertEvent::NoEvent,
    ensures
        r.0@ == spec_authorization_header(
            twitter.consumer_key@,
            twitter.consumer_secret@,
            twitter.access_token_key@,
            twitter.access_token_secret@,
            nonce@,
            timestamp@,
            "POST".spec_bytes(),
            "https://api.twitter.com/2/tweets".spec_bytes(),
        ),
        r.1@ == spec_alert_body(spec_alert_text(event, time@, name@)),
{
    let method = vstd::slice::slice_to_vec("POST".as_bytes());
    let endpoint = vstd::slice::slice_to_vec("https://api.twitter.com/2/tweets".as_bytes());
    let header = twitter.get_request_header(&method, &endpoint, nonce, timestamp);
    let text = match event {
        AlertEvent::ServiceUp => up_alert_text(time, name),
        _ => down_alert_text(time, name),
    };
    let body = alert_body(&text);
    (header, body)
}

/// Classify the notification endpoint's response: 2xx is success, anything
/// else is a terminal delivery failure for this alert.
pub fn check_delivery_status(status: i32) -> (r: Result<(), MonitorError>)
    ensures
        r == if spec_is_success_status(status as int) {
            Result::<(), MonitorError>::Ok(())
        } else {
            Result::<(), MonitorError>::Err(MonitorError::NotificationDeliveryFailed)
        },
{
    if 200 <= status && status < 300 {
        Ok(())
    } else {
        Err(MonitorError::NotificationDeliveryFailed)
    }
}

} // verus!
