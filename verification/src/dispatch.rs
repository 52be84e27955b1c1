//! The invocation protocol: a request names a tool and carries an argument
//! bag; `call` dispatches to the tool and wraps its payload in a result
//! holding one text content block of JSON.

use vstd::prelude::*;
use crate::args::{arg_int, arg_text, find_int_arg, find_text_arg, ToolArg};
use crate::decimal::dec_int;
use crate::jsontext::{payload_json, payload_text};
use crate::ops::{
    get_time_utc, offset_result, parse_time, payload_is, renderable, time_offset, TimePayload,
    ToolError,
};
use crate::timefmt::{rfc2822_parse, rfc2822_render};

verus! {

/// The kind of a content block.
#[derive(Debug)]
pub enum ContentType {
    Text,
}

/// One content block of a successful result.
#[derive(Debug)]
pub struct Content {
    pub content_type: ContentType,
    pub text: Option<String>,
}

/// What a successful invocation returns.
#[derive(Debug)]
pub struct CallToolResult {
    pub content: Vec<Content>,
    pub is_error: Option<bool>,
}

/// An invocation request: a tool name and an argument bag, which may be
/// absent and is then treated as empty.
pub struct CallToolRequest {
    pub name: String,
    pub arguments: Option<Vec<ToolArg>>,
}

/// The arguments of a request, with an absent bag read as empty.
pub open spec fn req_args(req: CallToolRequest) -> Seq<ToolArg> {
    match req.arguments {
        Some(v) => v@,
        None => Seq::empty(),
    }
}

/// Whether `res` is the successful result for the instant `t` displayed at
/// offset `off`: one text content block whose text is the JSON payload
/// object, marked as no error, with a rendering that parses back to the same
/// second count and offset.
pub open spec fn is_success_result(res: CallToolResult, t: int, off: int) -> bool {
    &&& res.content@.len() == 1
    &&& res.content@[0].content_type is Text
    &&& res.content@[0].text matches Some(x) && x@ == payload_text(
        dec_int(t),
        rfc2822_render(t, off),
    )
    &&& res.is_error == Some(false)
    &&& rfc2822_parse(rfc2822_render(t, off)) == Some((t as i64, off as i32))
}

/// Wraps a payload in a result with one text content block of JSON.
fn success_result(p: &TimePayload) -> (res: CallToolResult)
    ensures
        res.content@.len() == 1,
        res.content@[0].content_type is Text,
        res.content@[0].text matches Some(x) && x@ == payload_text(
            p.utc_time@,
            p.utc_time_rfc2822@,
        ),
        res.is_error == Some(false),
{
    let text = payload_json(p.utc_time.as_str(), p.utc_time_rfc2822.as_str());
    let mut content: Vec<Content> = Vec::new();
    content.push(Content { content_type: ContentType::Text, text: Some(text) });
    CallToolResult { content, is_error: Some(false) }
}

/// Whether `name` reads the same as the literal `lit`.
fn name_is(name: &String, lit: &str) -> (b: bool)
    ensures
        b == (name@ == lit@),
{
    let lit_owned: String = lit.to_owned();
    *name == lit_owned
}

/// Dispatches a request to the tool it names.  A name matching none of the
/// three tools fails with `UnknownOperation`; a missing or ill-typed
/// argument fails with `MissingArgument`; the tools' own failures are passed
/// through.
pub fn call(req: &CallToolRequest) -> (r: Result<CallToolResult, ToolError>)
    ensures
        req.name@ == "get_time_utc"@ ==> {
            &&& r matches Ok(res) ==> exists|t: int| renderable(t, 0) && is_success_result(res, t, 0)
            &&& r matches Err(e) ==> e == ToolError::TimestampOutOfRange
        },
        req.name@ == "parse_time"@ ==> match arg_text(req_args(*req), "time_rfc2822"@) {
            None => r == Err::<CallToolResult, ToolError>(ToolError::MissingArgument),
            Some(s) => match rfc2822_parse(s) {
                None => r == Err::<CallToolResult, ToolError>(ToolError::MalformedTimestamp),
                Some(p) => if renderable(p.0 as int, p.1 as int) {
                    r matches Ok(res) && is_success_result(res, p.0 as int, p.1 as int)
                } else {
                    r == Err::<CallToolResult, ToolError>(ToolError::TimestampOutOfRange)
                },
            },
        },
        req.name@ == "time_offset"@ ==> match (
            arg_int(req_args(*req), "timestamp"@),
            arg_int(req_args(*req), "offset"@),
        ) {
            (Some(t), Some(o)) => if renderable(offset_result(t as int, o as int), 0) {
                r matches Ok(res) && is_success_result(res, offset_result(t as int, o as int), 0)
            } else {
                r == Err::<CallToolResult, ToolError>(ToolError::TimestampOutOfRange)
            },
            _ => r == Err::<CallToolResult, ToolError>(ToolError::MissingArgument),
        },
        req.name@ != "get_time_utc"@ && req.name@ != "parse_time"@ && req.name@ != "time_offset"@
            ==> r == Err::<CallToolResult, ToolError>(ToolError::UnknownOperation),
{
    proof {
        reveal_strlit("get_time_utc");
        reveal_strlit("parse_time");
        reveal_strlit("time_offset");
        assert("get_time_utc"@.len() == 12);
        assert("parse_time"@.len() == 10);
        assert("time_offset"@.len() == 11);
    }
    let empty_args: Vec<ToolArg> = Vec::new();
    let args: &Vec<ToolArg> = match &req.arguments {
        Some(v) => v,
        None => &empty_args,
    };
    proof {
        assert(args@ == req_args(*req));
    }
    if name_is(&req.name, "get_time_utc") {
        match get_time_utc() {
            Ok(p) => {
                let res = success_result(&p);
                proof {
                    let t = choose|t: int|
                        renderable(t, 0) && payload_is(p, t, 0) && rfc2822_parse(
                            p.utc_time_rfc2822@,
                        ) == Some((t as i64, 0i32));
                    assert(renderable(t, 0) && is_success_result(res, t, 0));
                }
                Ok(res)
            },
            Err(e) => Err(e),
        }
    } else if name_is(&req.name, "parse_time") {
        match find_text_arg(args, "time_rfc2822") {
            None => Err(ToolError::MissingArgument),
            Some(s) => match parse_time(s.as_str()) {
                Ok(p) => Ok(success_result(&p)),
                Err(e) => Err(e),
            },
        }
    } else if name_is(&req.name, "time_offset") {
        let t = find_int_arg(args, "timestamp");
        let o = find_int_arg(args, "offset");
        match (t, o) {
            (Some(t), Some(o)) => match time_offset(t, o) {
                Ok(p) => Ok(success_result(&p)),
                Err(e) => Err(e),
            },
            _ => Err(ToolError::MissingArgument),
        }
    } else {
        Err(ToolError::UnknownOperation)
    }
}

} // verus!
