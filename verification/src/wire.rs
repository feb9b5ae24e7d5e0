//! Wire encoding: the one-line JSON text of a response. The encoding is
//! specified character by character, so every response the dispatcher
//! writes is pinned exactly: `{"id":..,"result":..,"error":..}`, all
//! three members always present, absent members rendered as null, object
//! members in lexicographic order, strings escaped as JSON asks.
use vstd::prelude::*;
use crate::text::{dec_str, push_char, append_u64_dec};
use crate::protocol::{Response, ResponseView, ResultVal, ResultValView};
use crate::camera::cam_views;

verus! {

/// Lowercase hexadecimal digit for a value below sixteen.
pub open spec fn hex_char(n: nat) -> char
    recommends
        n < 16,
{
    if n == 0 { '0' }
    else if n == 1 { '1' }
    else if n == 2 { '2' }
    else if n == 3 { '3' }
    else if n == 4 { '4' }
    else if n == 5 { '5' }
    else if n == 6 { '6' }
    else if n == 7 { '7' }
    else if n == 8 { '8' }
    else if n == 9 { '9' }
    else if n == 10 { 'a' }
    else if n == 11 { 'b' }
    else if n == 12 { 'c' }
    else if n == 13 { 'd' }
    else if n == 14 { 'e' }
    else { 'f' }
}

/// The JSON escape of one character: quote and backslash are escaped,
/// the named control characters use their short forms, other control
/// characters use the four-digit form, everything else stands as itself.
pub open spec fn json_escape_char(c: char) -> Seq<char> {
    if c == '"' {
        seq!['\\', '"']
    } else if c == '\\' {
        seq!['\\', '\\']
    } else if c == '\u{8}' {
        seq!['\\', 'b']
    } else if c == '\t' {
        seq!['\\', 't']
    } else if c == '\n' {
        seq!['\\', 'n']
    } else if c == '\u{c}' {
        seq!['\\', 'f']
    } else if c == '\r' {
        seq!['\\', 'r']
    } else if (c as u32) < 32 {
        seq!['\\', 'u', '0', '0', hex_char((c as u32) as nat / 16), hex_char(
            (c as u32) as nat % 16,
        )]
    } else {
        seq![c]
    }
}

/// The JSON escape of a whole string body.
pub open spec fn json_escape(s: Seq<char>) -> Seq<char>
    decreases s.len(),
{
    if s.len() == 0 {
        Seq::empty()
    } else {
        json_escape(s.drop_last()) + json_escape_char(s.last())
    }
}

/// A JSON string token: the escaped body in quotes.
pub open spec fn json_string(s: Seq<char>) -> Seq<char> {
    seq!['"'] + json_escape(s) + seq!['"']
}

/// An optional integer member: its decimal digits, or null.
pub open spec fn json_opt_u64(v: Option<u64>) -> Seq<char> {
    match v {
        Some(n) => dec_str(n as nat),
        None => "null"@,
    }
}

/// An optional string member: a JSON string, or null.
pub open spec fn json_opt_string(v: Option<Seq<char>>) -> Seq<char> {
    match v {
        Some(s) => json_string(s),
        None => "null"@,
    }
}

/// One enumerated device as a JSON object.
pub open spec fn encode_cam(c: (Seq<char>, Seq<char>, nat)) -> Seq<char> {
    "{\"index\":"@ + dec_str(c.2) + ",\"name\":"@ + json_string(c.1) + ",\"path\":"@
        + json_string(c.0) + "}"@
}

/// A device list's members, comma separated.
pub open spec fn encode_cam_members(cs: Seq<(Seq<char>, Seq<char>, nat)>) -> Seq<char>
    decreases cs.len(),
{
    if cs.len() == 0 {
        Seq::empty()
    } else if cs.len() == 1 {
        encode_cam(cs.last())
    } else {
        encode_cam_members(cs.drop_last()) + seq![','] + encode_cam(cs.last())
    }
}

/// The JSON text of a response payload.
pub open spec fn encode_result(r: ResultValView) -> Seq<char> {
    match r {
        ResultValView::Null => "null"@,
        ResultValView::Ping { version } => "{\"ok\":true,\"version\":"@ + json_string(version)
            + "}"@,
        ResultValView::Status { version, socket } => "{\"backend\":\"stubbed\",\"socket\":"@
            + json_string(socket) + ",\"status\":\"running\",\"version\":"@ + json_string(version)
            + "}"@,
        ResultValView::Cameras(cs) => seq!['['] + encode_cam_members(cs) + seq![']'],
        ResultValView::Image(s) => "{\"image\":"@ + json_string(s) + "}"@,
        ResultValView::Verify { ok, reason } => "{\"ok\":"@ + (if ok {
            "true"@
        } else {
            "false"@
        }) + ",\"reason\":"@ + json_opt_string(reason) + "}"@,
    }
}

/// The JSON text of a whole response.
pub open spec fn encode_response_text(r: ResponseView) -> Seq<char> {
    "{\"id\":"@ + json_opt_u64(r.id) + ",\"result\":"@ + encode_result(r.result) + ",\"error\":"@
        + json_opt_string(r.error) + "}"@
}

/// Appends the JSON escape of `s` to `out`.
fn append_escaped(out: &mut String, s: &str)
    ensures
        final(out)@ == old(out)@ + json_escape(s@),
{
    let n = s.unicode_len();
    let mut i: usize = 0;
    while i < n
        invariant
            0 <= i <= n,
            n == s@.len(),
            out@ == old(out)@ + json_escape(s@.take(i as int)),
        decreases n - i,
    {
        let c = s.get_char(i);
        proof {
            assert(s@.take(i + 1).drop_last() =~= s@.take(i as int));
            assert(s@.take(i + 1).last() == s@[i as int]);
        }
        if c == '"' {
            out.append("\\\"");
            proof {
                reveal_strlit("\\\"");
                assert(out@ =~= old(out)@ + json_escape(s@.take(i + 1)));
            }
        } else if c == '\\' {
            out.append("\\\\");
            proof {
                reveal_strlit("\\\\");
                assert(out@ =~= old(out)@ + json_escape(s@.take(i + 1)));
            }
        } else if c == '\u{8}' {
            out.append("\\b");
            proof {
                reveal_strlit("\\b");
                assert(out@ =~= old(out)@ + json_escape(s@.take(i + 1)));
            }
        } else if c == '\t' {
            out.append("\\t");
            proof {
                reveal_strlit("\\t");
                assert(out@ =~= old(out)@ + json_escape(s@.take(i + 1)));
            }
        } else if c == '\n' {
            out.append("\\n");
            proof {
                reveal_strlit("\\n");
                assert(out@ =~= old(out)@ + json_escape(s@.take(i + 1)));
            }
        } else if c == '\u{c}' {
            out.append("\\f");
            proof {
                reveal_strlit("\\f");
                assert(out@ =~= old(out)@ + json_escape(s@.take(i + 1)));
            }
        } else if c == '\r' {
            out.append("\\r");
            proof {
                reveal_strlit("\\r");
                assert(out@ =~= old(out)@ + json_escape(s@.take(i + 1)));
            }
        } else if (c as u32) < 32 {
            out.append("\\u00");
            let hi: u32 = (c as u32) / 16;
            let lo: u32 = (c as u32) % 16;
            let hc: char = if hi == 0 { '0' } else { '1' };
            push_char(out, hc);
            let lc: char = if lo == 0 { '0' }
                else if lo == 1 { '1' }
                else if lo == 2 { '2' }
                else if lo == 3 { '3' }
                else if lo == 4 { '4' }
                else if lo == 5 { '5' }
                else if lo == 6 { '6' }
                else if lo == 7 { '7' }
                else if lo == 8 { '8' }
                else if lo == 9 { '9' }
                else if lo == 10 { 'a' }
                else if lo == 11 { 'b' }
                else if lo == 12 { 'c' }
                else if lo == 13 { 'd' }
                else if lo == 14 { 'e' }
                else { 'f' };
            push_char(out, lc);
            proof {
                reveal_strlit("\\u00");
                assert(out@ =~= old(out)@ + json_escape(s@.take(i + 1)));
            }
        } else {
            push_char(out, c);
            proof {
                assert(out@ =~= old(out)@ + json_escape(s@.take(i + 1)));
            }
        }
        i += 1;
    }
    proof {
        assert(s@.take(n as int) =~= s@);
    }
}

/// Appends the JSON string token for `s` to `out`.
fn append_json_string(out: &mut String, s: &str)
    ensures
        final(out)@ == old(out)@ + json_string(s@),
{
    push_char(out, '"');
    append_escaped(out, s);
    push_char(out, '"');
    proof {
        assert(out@ =~= old(out)@ + json_string(s@));
    }
}

/// Appends an optional string member to `out`.
fn append_opt_string(out: &mut String, s: &Option<String>)
    ensures
        final(out)@ == old(out)@ + json_opt_string(match s {
            Some(v) => Some(v@),
            None => None,
        }),
{
    match s {
        Some(v) => append_json_string(out, v.as_str()),
        None => out.append("null"),
    }
}

/// Appends an optional integer member to `out`.
fn append_opt_u64(out: &mut String, v: &Option<u64>)
    ensures
        final(out)@ == old(out)@ + json_opt_u64(*v),
{
    match v {
        Some(n) => append_u64_dec(out, *n),
        None => out.append("null"),
    }
}

/// Appends the payload text to `out`.
fn append_result(out: &mut String, r: &ResultVal)
    ensures
        final(out)@ == old(out)@ + encode_result(r@),
{
    match r {
        ResultVal::Null => {
            out.append("null");
        },
        ResultVal::Ping { version } => {
            out.append("{\"ok\":true,\"version\":");
            append_json_string(out, version.as_str());
            out.append("}");
            proof {
                assert(out@ =~= old(out)@ + encode_result(r@));
            }
        },
        ResultVal::Status { version, socket } => {
            out.append("{\"backend\":\"stubbed\",\"socket\":");
            append_json_string(out, socket.as_str());
            out.append(",\"status\":\"running\",\"version\":");
            append_json_string(out, version.as_str());
            out.append("}");
            proof {
                assert(out@ =~= old(out)@ + encode_result(r@));
            }
        },
        ResultVal::Cameras(cs) => {
            push_char(out, '[');
            let ghost views = cam_views(cs@);
            let mut i: usize = 0;
            while i < cs.len()
                invariant
                    0 <= i <= cs@.len(),
                    views == cam_views(cs@),
                    views.len() == cs@.len(),
                    out@ == old(out)@ + seq!['['] + encode_cam_members(views.take(i as int)),
                decreases cs@.len() - i,
            {
                proof {
                    assert(views.take(i + 1).drop_last() =~= views.take(i as int));
                    assert(views.take(i + 1).last() == views[i as int]);
                    assert(views[i as int] == (cs@[i as int].path@, cs@[i as int].name@,
                        cs@[i as int].index as nat));
                }
                if i > 0 {
                    push_char(out, ',');
                }
                let cam = &cs[i];
                out.append("{\"index\":");
                append_u64_dec(out, cam.index as u64);
                out.append(",\"name\":");
                append_json_string(out, cam.name.as_str());
                out.append(",\"path\":");
                append_json_string(out, cam.path.as_str());
                out.append("}");
                proof {
                    assert(out@ =~= old(out)@ + seq!['['] + encode_cam_members(
                        views.take(i + 1)));
                }
                i += 1;
            }
            push_char(out, ']');
            proof {
                assert(views.take(cs@.len() as int) =~= views);
                assert(out@ =~= old(out)@ + encode_result(r@));
            }
        },
        ResultVal::Image(s) => {
            out.append("{\"image\":");
            append_json_string(out, s.as_str());
            out.append("}");
            proof {
                assert(out@ =~= old(out)@ + encode_result(r@));
            }
        },
        ResultVal::Verify(v) => {
            out.append("{\"ok\":");
            if v.ok {
                out.append("true");
            } else {
                out.append("false");
            }
            out.append(",\"reason\":");
            append_opt_string(out, &v.reason);
            out.append("}");
            proof {
                assert(out@ =~= old(out)@ + encode_result(r@));
            }
        },
    }
}

/// Encodes one response as its single line of JSON text.
pub fn encode_response(resp: &Response) -> (r: String)
    ensures
        r@ == encode_response_text(resp@),
{
    let mut out = String::new();
    out.append("{\"id\":");
    append_opt_u64(&mut out, &resp.id);
    out.append(",\"result\":");
    append_result(&mut out, &resp.result);
    out.append(",\"error\":");
    append_opt_string(&mut out, &resp.error);
    out.append("}");
    proof {
        assert(out@ =~= encode_response_text(resp@));
    }
    out
}

} // verus!
