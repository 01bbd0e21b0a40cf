//! Verified text building for status lines, log lines and notifications.
//!
//! Every message the core hands to the panel is pinned down here as a
//! character sequence, together with the executable builder that produces it.

use vstd::prelude::*;
use vstd::string::*;

verus! {

/// The decimal digit character for a value below ten.
pub open spec fn digit_char(d: nat) -> char {
    if d == 0 {
        '0'
    } else if d == 1 {
        '1'
    } else if d == 2 {
        '2'
    } else if d == 3 {
        '3'
    } else if d == 4 {
        '4'
    } else if d == 5 {
        '5'
    } else if d == 6 {
        '6'
    } else if d == 7 {
        '7'
    } else if d == 8 {
        '8'
    } else {
        '9'
    }
}

/// The usual decimal rendering of a number, most significant digit first,
/// without leading zeroes (zero itself renders as one digit).
pub open spec fn dec_digits(n: nat) -> Seq<char>
    decreases n,
{
    if n < 10 {
        seq![digit_char(n)]
    } else {
        dec_digits(n / 10).push(digit_char(n % 10))
    }
}

fn digit_str(d: u16) -> (r: &'static str)
    requires
        d < 10,
    ensures
        r@ == seq![digit_char(d as nat)],
{
    let r: &'static str = match d {
        0 => "0",
        1 => "1",
        2 => "2",
        3 => "3",
        4 => "4",
        5 => "5",
        6 => "6",
        7 => "7",
        8 => "8",
        _ => "9",
    };
    proof {
        reveal_strlit("0");
        reveal_strlit("1");
        reveal_strlit("2");
        reveal_strlit("3");
        reveal_strlit("4");
        reveal_strlit("5");
        reveal_strlit("6");
        reveal_strlit("7");
        reveal_strlit("8");
        reveal_strlit("9");
        assert(r@ =~= seq![digit_char(d as nat)]);
    }
    r
}

/// Append the decimal rendering of `n` to `out`.
pub fn push_dec_u16(n: u16, out: &mut String)
    ensures
        final(out)@ == old(out)@ + dec_digits(n as nat),
    decreases n,
{
    if n >= 10 {
        push_dec_u16(n / 10, out);
    }
    let ghost mid = out@;
    out.append(digit_str(n % 10));
    proof {
        assert((n % 10) as nat == n as nat % 10);
        if n >= 10 {
            assert((n / 10) as nat == n as nat / 10);
            assert(dec_digits(n as nat) == dec_digits(n as nat / 10).push(
                digit_char(n as nat % 10),
            ));
            assert(out@ =~= old(out)@ + dec_digits(n as nat));
        } else {
            assert(dec_digits(n as nat) =~= seq![digit_char(n as nat)]);
            assert(out@ =~= old(out)@ + dec_digits(n as nat));
        }
    }
}

/// The decimal rendering of `n` on its own.
pub fn u16_to_dec_string(n: u16) -> (r: String)
    ensures
        r@ == dec_digits(n as nat),
{
    let mut s = String::new();
    push_dec_u16(n, &mut s);
    proof {
        assert(s@ =~= dec_digits(n as nat));
    }
    s
}

/// An optional text as a borrowed string, empty when absent.
pub fn opt_str<'a>(o: &'a Option<String>) -> (r: &'a str)
    ensures
        r@ == crate::model::opt_text(o.deep_view()),
{
    match o {
        Some(s) => s.as_str(),
        None => {
            proof {
                reveal_strlit("");
                assert(""@ =~= Seq::<char>::empty());
            }
            ""
        },
    }
}

pub open spec fn start_success_status_text(port: u16) -> Seq<char> {
    "Agent server started, listening on port: "@ + dec_digits(port as nat) + "."@
}

pub open spec fn stop_success_status_text() -> Seq<char> {
    "Agent server stopped."@
}

/// Status line synthesized when the event stream ends without a terminal
/// confirmation (the agent task went away on its own).
pub open spec fn abnormal_stop_status_text() -> Seq<char> {
    "Agent server terminated abnormally."@
}

pub open spec fn start_success_content_text(port: u16) -> Seq<char> {
    "Agent server start success, listening on: "@ + dec_digits(port as nat)
}

pub open spec fn start_fail_content_text(port: u16) -> Seq<char> {
    "Agent server start fail, can not listening on: "@ + dec_digits(port as nat) + "."@
}

pub open spec fn stop_success_content_text() -> Seq<char> {
    "Agent server stop success."@
}

pub open spec fn stop_fail_content_text() -> Seq<char> {
    "Agent server stop fail."@
}

/// Informational log line for a tunnel notice without a failure reason.
pub open spec fn logging_info_line(
    client: Seq<char>,
    src: Option<Seq<char>>,
    dst: Option<Seq<char>>,
) -> Seq<char> {
    "Tunnel of client ["@ + client + "] from ["@ + crate::model::opt_text(src) + "] to ["@
        + crate::model::opt_text(dst) + "]."@
}

/// Error log line for a tunnel notice that carries a failure reason.
pub open spec fn logging_error_line(
    client: Seq<char>,
    src: Option<Seq<char>>,
    dst: Option<Seq<char>>,
    reason: Seq<char>,
) -> Seq<char> {
    "Tunnel of client ["@ + client + "] from ["@ + crate::model::opt_text(src) + "] to ["@
        + crate::model::opt_text(dst) + "] failed: "@ + reason
}

pub fn build_start_success_status(port: u16) -> (r: String)
    ensures
        r@ == start_success_status_text(port),
{
    let mut s = String::from_str("Agent server started, listening on port: ");
    push_dec_u16(port, &mut s);
    s.append(".");
    proof {
        assert(s@ =~= start_success_status_text(port));
    }
    s
}

pub fn build_stop_success_status() -> (r: String)
    ensures
        r@ == stop_success_status_text(),
{
    String::from_str("Agent server stopped.")
}

pub fn build_abnormal_stop_status() -> (r: String)
    ensures
        r@ == abnormal_stop_status_text(),
{
    String::from_str("Agent server terminated abnormally.")
}

pub fn build_start_success_content(port: u16) -> (r: String)
    ensures
        r@ == start_success_content_text(port),
{
    let mut s = String::from_str("Agent server start success, listening on: ");
    push_dec_u16(port, &mut s);
    s
}

pub fn build_start_fail_content(port: u16) -> (r: String)
    ensures
        r@ == start_fail_content_text(port),
{
    let mut s = String::from_str("Agent server start fail, can not listening on: ");
    push_dec_u16(port, &mut s);
    s.append(".");
    proof {
        assert(s@ =~= start_fail_content_text(port));
    }
    s
}

pub fn build_stop_success_content() -> (r: String)
    ensures
        r@ == stop_success_content_text(),
{
    String::from_str("Agent server stop success.")
}

pub fn build_stop_fail_content() -> (r: String)
    ensures
        r@ == stop_fail_content_text(),
{
    String::from_str("Agent server stop fail.")
}

pub fn build_logging_info_line(
    client: &String,
    src: &Option<String>,
    dst: &Option<String>,
) -> (r: String)
    ensures
        r@ == logging_info_line(client@, src.deep_view(), dst.deep_view()),
{
    let mut s = String::from_str("Tunnel of client [");
    s.append(client.as_str());
    s.append("] from [");
    s.append(opt_str(src));
    s.append("] to [");
    s.append(opt_str(dst));
    s.append("].");
    proof {
        assert(s@ =~= logging_info_line(client@, src.deep_view(), dst.deep_view()));
    }
    s
}

pub fn build_logging_error_line(
    client: &String,
    src: &Option<String>,
    dst: &Option<String>,
    reason: &String,
) -> (r: String)
    ensures
        r@ == logging_error_line(client@, src.deep_view(), dst.deep_view(), reason@),
{
    let mut s = String::from_str("Tunnel of client [");
    s.append(client.as_str());
    s.append("] from [");
    s.append(opt_str(src));
    s.append("] to [");
    s.append(opt_str(dst));
    s.append("] failed: ");
    s.append(reason.as_str());
    proof {
        assert(s@ =~= logging_error_line(client@, src.deep_view(), dst.deep_view(), reason@));
    }
    s
}

} // verus!
