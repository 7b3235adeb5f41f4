//! The decisions of the command-line client of the service: turning its
//! arguments into a request, and a response into the line it prints.
use vstd::prelude::*;
use vstd::string::*;
use crate::redis::{RedisRequest, RedisResponse, RequestType, ResponseType};

verus! {

/// The lowercase form of `s` that `str::to_lowercase` gives (Unicode
/// lowercase mapping; a function of `s` alone).
pub uninterp spec fn lowercase_of(s: Seq<char>) -> Seq<char>;

/// Calls `str::to_lowercase`, whose result depends on the text alone and is
/// named by `lowercase_of`.
#[verifier::external_body]
fn to_lowercase(s: &str) -> (r: String)
    ensures
        r@ == lowercase_of(s@),
{
    s.to_lowercase()
}

/// Why a client command line is refused.
#[derive(Clone, Copy, Debug, PartialEq, Eq, Structural)]
pub enum ClientError {
    /// The command or one of its arguments is missing.
    MissingArgument,
    /// The command is none of the known ones.
    UnknownCommand,
}

/// The request kind that the lowercase command word `c` names, if any.
pub open spec fn command_kind(c: Seq<char>) -> Option<RequestType> {
    if c == "set"@ {
        Some(RequestType::SetKey)
    } else if c == "get"@ {
        Some(RequestType::Get)
    } else if c == "del"@ {
        Some(RequestType::Del)
    } else if c == "ping"@ {
        Some(RequestType::Ping)
    } else if c == "subscribe"@ {
        Some(RequestType::Subscribe)
    } else if c == "publish"@ {
        Some(RequestType::Publish)
    } else {
        None
    }
}

/// Each command word names the request kind of the same name, and only that
/// word names it: `set` a `SetKey`, `get` a `Get`, `del` a `Del`, `ping` a
/// `Ping`, `subscribe` a `Subscribe` and `publish` a `Publish`; any other
/// word names none.
pub proof fn law_command_words(c: Seq<char>)
    ensures
        command_kind(c) == Some(RequestType::SetKey) <==> c == "set"@,
        command_kind(c) == Some(RequestType::Get) <==> c == "get"@,
        command_kind(c) == Some(RequestType::Del) <==> c == "del"@,
        command_kind(c) == Some(RequestType::Ping) <==> c == "ping"@,
        command_kind(c) == Some(RequestType::Subscribe) <==> c == "subscribe"@,
        command_kind(c) == Some(RequestType::Publish) <==> c == "publish"@,
        command_kind(c) is None <==> (c != "set"@ && c != "get"@ && c != "del"@ && c != "ping"@
            && c != "subscribe"@ && c != "publish"@),
{
    reveal_strlit("set");
    reveal_strlit("get");
    reveal_strlit("del");
    reveal_strlit("ping");
    reveal_strlit("subscribe");
    reveal_strlit("publish");
    assert("set"@ != "get"@ && "set"@ != "del"@ && "get"@ != "del"@) by {
        assert("set"@[0] != "get"@[0] && "set"@[0] != "del"@[0] && "get"@[0] != "del"@[0]);
    }
    assert("set"@.len() == 3 && "get"@.len() == 3 && "del"@.len() == 3 && "ping"@.len() == 4
        && "subscribe"@.len() == 9 && "publish"@.len() == 7);
}

/// How many arguments a request kind reads after the command word: the key,
/// and for `SetKey` and `Publish` also the value.
pub open spec fn operand_count(t: RequestType) -> int {
    match t {
        RequestType::Ping => 0,
        RequestType::SetKey | RequestType::Publish => 2,
        _ => 1,
    }
}

fn text_equals(s: &String, lit: &str) -> (r: bool)
    ensures
        r == (s@ == lit@),
{
    let t = String::from_str(lit);
    *s == t
}

fn kind_of(c: &String) -> (r: Option<RequestType>)
    ensures
        r == command_kind(c@),
{
    if text_equals(c, "set") {
        Some(RequestType::SetKey)
    } else if text_equals(c, "get") {
        Some(RequestType::Get)
    } else if text_equals(c, "del") {
        Some(RequestType::Del)
    } else if text_equals(c, "ping") {
        Some(RequestType::Ping)
    } else if text_equals(c, "subscribe") {
        Some(RequestType::Subscribe)
    } else if text_equals(c, "publish") {
        Some(RequestType::Publish)
    } else {
        None
    }
}

/// Builds the request that the command line `args` asks for (position 0 is
/// the program name, position 1 the command word, matched without regard to
/// case; then the key and, for `set` and `publish`, the value).
pub fn parse_command(args: &Vec<String>) -> (r: Result<RedisRequest, ClientError>)
    ensures
        args@.len() < 2 ==> r == Err::<RedisRequest, ClientError>(ClientError::MissingArgument),
        args@.len() >= 2 ==> match command_kind(lowercase_of(args@[1]@)) {
            None => r == Err::<RedisRequest, ClientError>(ClientError::UnknownCommand),
            Some(t) => if args@.len() < 2 + operand_count(t) {
                r == Err::<RedisRequest, ClientError>(ClientError::MissingArgument)
            } else {
                &&& r matches Ok(req)
                &&& req.request_type == t
                &&& (operand_count(t) >= 1 ==> (req.key matches Some(k) && k@ == args@[2]@))
                &&& (operand_count(t) < 1 ==> req.key is None)
                &&& (operand_count(t) == 2 ==> (req.value matches Some(v) && v@ == args@[3]@))
                &&& (operand_count(t) < 2 ==> req.value is None)
            },
        },
{
    if args.len() < 2 {
        return Err(ClientError::MissingArgument);
    }
    let command = to_lowercase(args[1].as_str());
    let kind = match kind_of(&command) {
        Some(t) => t,
        None => {
            return Err(ClientError::UnknownCommand);
        },
    };
    match kind {
        RequestType::Ping => Ok(RedisRequest { request_type: kind, key: None, value: None }),
        RequestType::SetKey | RequestType::Publish => {
            if args.len() < 4 {
                return Err(ClientError::MissingArgument);
            }
            Ok(
                RedisRequest {
                    request_type: kind,
                    key: Some(args[2].clone()),
                    value: Some(args[3].clone()),
                },
            )
        },
        _ => {
            if args.len() < 3 {
                return Err(ClientError::MissingArgument);
            }
            Ok(RedisRequest { request_type: kind, key: Some(args[2].clone()), value: None })
        },
    }
}

/// The line the client prints for a response: its text, except for a
/// `Publish`, where `"Error"` reads as having no subscriber and any other
/// text is the number of subscribers; `None` when the response has no text.
pub open spec fn response_line_spec(t: ResponseType, value: Seq<char>) -> Seq<char> {
    if t == ResponseType::Publish {
        if value == "Error"@ {
            "There is no subscriber."@
        } else {
            "Publish sucess. The number of subscriber is "@ + value
        }
    } else {
        value
    }
}

/// The line printed for a response of any kind but `Publish` is the
/// response text itself; for a `Publish` it is the subscriber message, which
/// tells `"Error"` apart from a count and carries the count unchanged at its
/// end.
pub proof fn law_response_line(t: ResponseType, value: Seq<char>)
    ensures
        t != ResponseType::Publish ==> response_line_spec(t, value) == value,
        t == ResponseType::Publish && value == "Error"@ ==> response_line_spec(t, value)
            == "There is no subscriber."@,
        t == ResponseType::Publish && value != "Error"@ ==> response_line_spec(t, value).len()
            >= value.len() && response_line_spec(t, value).subrange(
            response_line_spec(t, value).len() - value.len(),
            response_line_spec(t, value).len() as int,
        ) == value,
{
    if t == ResponseType::Publish && value != "Error"@ {
        let pre = "Publish sucess. The number of subscriber is "@;
        assert((pre + value).subrange(pre.len() as int, (pre + value).len() as int) =~= value);
    }
}

/// The line the client prints for `resp`.
pub fn response_line(resp: &RedisResponse) -> (r: Option<String>)
    ensures
        match resp.value {
            None => r is None,
            Some(v) => r matches Some(line) && line@ == response_line_spec(resp.response_type, v@),
        },
{
    match &resp.value {
        None => None,
        Some(v) => {
            if resp.response_type == ResponseType::Publish {
                if text_equals(v, "Error") {
                    Some(String::from_str("There is no subscriber."))
                } else {
                    let mut line = String::from_str("Publish sucess. The number of subscriber is ");
                    line.append(v.as_str());
                    Some(line)
                }
            } else {
                Some(v.clone())
            }
        },
    }
}

} // verus!
