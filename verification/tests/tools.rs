use time_tools::args::{ArgValue, ToolArg};
use time_tools::dispatch::{call, CallToolRequest, ContentType};
use time_tools::ops::{get_time_utc, parse_time, time_offset, ToolError};

fn offset_request(name: &str, timestamp: i64, offset: i64) -> CallToolRequest {
    CallToolRequest {
        name: name.to_owned(),
        arguments: Some(vec![
            ToolArg { name: "timestamp".to_owned(), value: ArgValue::Int(timestamp) },
            ToolArg { name: "offset".to_owned(), value: ArgValue::Int(offset) },
        ]),
    }
}

#[test]
fn parse_time_concrete() {
    let p = parse_time("Mon, 02 Jan 2006 15:04:05 +0000").unwrap();
    assert_eq!(p.utc_time, "1136214245");
    assert_eq!(p.utc_time_rfc2822, "Mon, 2 Jan 2006 15:04:05 +0000");
}

#[test]
fn parse_time_preserves_offset() {
    let p = parse_time("Mon, 02 Jan 2006 15:04:05 +0230").unwrap();
    // 2.5 hours ahead of UTC: the timestamp moves back by 9000 seconds.
    assert_eq!(p.utc_time, "1136205245");
    assert_eq!(p.utc_time_rfc2822, "Mon, 2 Jan 2006 15:04:05 +0230");
}

#[test]
fn parse_time_round_trip() {
    let first = parse_time("Tue, 1 Jul 2003 10:52:37 +0200").unwrap();
    let second = parse_time(&first.utc_time_rfc2822).unwrap();
    assert_eq!(first.utc_time, second.utc_time);
    assert_eq!(first.utc_time_rfc2822, second.utc_time_rfc2822);
}

#[test]
fn parse_time_round_trip_negative_year() {
    // An instant before the epoch still round-trips.
    let first = parse_time("Thu, 1 Jan 1874 00:00:00 -0500").unwrap();
    let second = parse_time(&first.utc_time_rfc2822).unwrap();
    assert_eq!(first.utc_time, second.utc_time);
}

#[test]
fn parse_time_malformed() {
    assert_eq!(parse_time("not a date").unwrap_err(), ToolError::MalformedTimestamp);
    assert_eq!(parse_time("").unwrap_err(), ToolError::MalformedTimestamp);
    assert_eq!(
        parse_time("Mon, 32 Jan 2006 15:04:05 +0000").unwrap_err(),
        ToolError::MalformedTimestamp
    );
}

#[test]
fn parse_time_year_out_of_rfc2822_range() {
    // The parser accepts years beyond 9999, but such an instant cannot be
    // rendered back as RFC 2822.
    let r = parse_time("1 Jan 20000 00:00:00 +0000");
    assert_eq!(r.unwrap_err(), ToolError::TimestampOutOfRange);
}

#[test]
fn time_offset_positive() {
    let p = time_offset(1136214245, 3600).unwrap();
    assert_eq!(p.utc_time, "1136217845");
    assert_eq!(p.utc_time_rfc2822, "Mon, 2 Jan 2006 16:04:05 +0000");
}

#[test]
fn time_offset_negative() {
    let p = time_offset(1136214245, -3600).unwrap();
    assert_eq!(p.utc_time, "1136210645");
    assert_eq!(p.utc_time_rfc2822, "Mon, 2 Jan 2006 14:04:05 +0000");
}

#[test]
fn time_offset_identity() {
    let p = time_offset(1136214245, 0).unwrap();
    assert_eq!(p.utc_time, "1136214245");
}

#[test]
fn time_offset_composes() {
    let once = time_offset(1136214245, 4000 + 1000).unwrap();
    let first = time_offset(1136214245, 4000).unwrap();
    let second = time_offset(first.utc_time.parse::<i64>().unwrap(), 1000).unwrap();
    assert_eq!(once.utc_time, second.utc_time);
    assert_eq!(once.utc_time_rfc2822, second.utc_time_rfc2822);
}

#[test]
fn time_offset_rendering_decodes_back() {
    let p = time_offset(1136214245, 3600).unwrap();
    let back = parse_time(&p.utc_time_rfc2822).unwrap();
    assert_eq!(back.utc_time, "1136217845");
}

#[test]
fn time_offset_out_of_range() {
    assert_eq!(time_offset(253402300799, 1).unwrap_err(), ToolError::TimestampOutOfRange);
    assert_eq!(time_offset(-62167219200, -1).unwrap_err(), ToolError::TimestampOutOfRange);
    assert_eq!(time_offset(i64::MAX, i64::MAX).unwrap_err(), ToolError::TimestampOutOfRange);
    assert_eq!(time_offset(i64::MIN, i64::MIN).unwrap_err(), ToolError::TimestampOutOfRange);
}

#[test]
fn time_offset_extremes_of_range() {
    let low = time_offset(-62167219200, 0).unwrap();
    assert_eq!(low.utc_time, "-62167219200");
    let high = time_offset(253402300799, 0).unwrap();
    assert_eq!(high.utc_time, "253402300799");
    assert_eq!(high.utc_time_rfc2822, "Fri, 31 Dec 9999 23:59:59 +0000");
}

#[test]
fn get_time_utc_succeeds() {
    let p = get_time_utc().unwrap();
    let t: i64 = p.utc_time.parse().unwrap();
    // A sane clock reads between 2020 and year 9999.
    assert!(t > 1577836800);
    assert!(t <= 253402300799);
    let back = parse_time(&p.utc_time_rfc2822).unwrap();
    assert_eq!(back.utc_time, p.utc_time);
}

#[test]
fn call_time_offset_payload() {
    let req = offset_request("time_offset", 1136214245, 3600);
    let res = call(&req).unwrap();
    assert_eq!(res.content.len(), 1);
    assert!(matches!(res.content[0].content_type, ContentType::Text));
    assert_eq!(
        res.content[0].text.as_deref().unwrap(),
        "{\"utc_time\":\"1136217845\",\"utc_time_rfc2822\":\"Mon, 2 Jan 2006 16:04:05 +0000\"}"
    );
    assert_eq!(res.is_error, Some(false));
}

#[test]
fn call_parse_time() {
    let req = CallToolRequest {
        name: "parse_time".to_owned(),
        arguments: Some(vec![ToolArg {
            name: "time_rfc2822".to_owned(),
            value: ArgValue::Text("Mon, 02 Jan 2006 15:04:05 +0000".to_owned()),
        }]),
    };
    let res = call(&req).unwrap();
    let text = res.content[0].text.as_deref().unwrap();
    assert!(text.contains("\"utc_time\":\"1136214245\""));
}

#[test]
fn call_get_time_utc() {
    let req = CallToolRequest { name: "get_time_utc".to_owned(), arguments: None };
    let res = call(&req).unwrap();
    assert_eq!(res.content.len(), 1);
    assert_eq!(res.is_error, Some(false));
    let text = res.content[0].text.as_deref().unwrap();
    assert!(text.starts_with("{\"utc_time\":\""));
    assert!(text.contains("\"utc_time_rfc2822\":\""));
}

#[test]
fn call_bogus_name_is_error() {
    let req = CallToolRequest { name: "bogus".to_owned(), arguments: None };
    let err = call(&req).unwrap_err();
    assert_eq!(err, ToolError::UnknownOperation);
    assert!(err.message().contains("unknown command"));
}

#[test]
fn call_unknown_tool_message() {
    let req = CallToolRequest { name: "unknown_tool".to_owned(), arguments: None };
    let err = call(&req).unwrap_err();
    assert!(err.message().contains("unknown command"));
}

#[test]
fn call_missing_arguments() {
    let req = CallToolRequest { name: "parse_time".to_owned(), arguments: None };
    assert_eq!(call(&req).unwrap_err(), ToolError::MissingArgument);

    // Present but ill-typed arguments are missing arguments too.
    let req = CallToolRequest {
        name: "parse_time".to_owned(),
        arguments: Some(vec![ToolArg {
            name: "time_rfc2822".to_owned(),
            value: ArgValue::Int(5),
        }]),
    };
    assert_eq!(call(&req).unwrap_err(), ToolError::MissingArgument);

    let req = CallToolRequest {
        name: "time_offset".to_owned(),
        arguments: Some(vec![ToolArg {
            name: "timestamp".to_owned(),
            value: ArgValue::Int(1136214245),
        }]),
    };
    assert_eq!(call(&req).unwrap_err(), ToolError::MissingArgument);
}

#[test]
fn call_first_argument_of_name_wins() {
    let req = CallToolRequest {
        name: "time_offset".to_owned(),
        arguments: Some(vec![
            ToolArg { name: "timestamp".to_owned(), value: ArgValue::Int(1136214245) },
            ToolArg { name: "offset".to_owned(), value: ArgValue::Int(3600) },
            ToolArg { name: "offset".to_owned(), value: ArgValue::Int(7200) },
        ]),
    };
    let res = call(&req).unwrap();
    assert!(res.content[0].text.as_deref().unwrap().contains("1136217845"));
}

#[test]
fn call_ignores_extra_arguments() {
    let mut req = offset_request("time_offset", 1136214245, 3600);
    if let Some(args) = &mut req.arguments {
        args.push(ToolArg { name: "stray".to_owned(), value: ArgValue::Null });
        args.push(ToolArg { name: "flag".to_owned(), value: ArgValue::Bool(true) });
        args.push(ToolArg { name: "blob".to_owned(), value: ArgValue::Other });
    }
    let res = call(&req).unwrap();
    assert!(res.content[0].text.as_deref().unwrap().contains("1136217845"));
}
