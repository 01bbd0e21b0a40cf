//! Assembling a configuration from the panel's raw input fields.
//!
//! The panel hands over three text fields: user token, semicolon-separated
//! proxy addresses and the listening port. This module pins down exactly how
//! those texts become a configuration value: how the address list splits and
//! which port texts are accepted.

use vstd::prelude::*;
use vstd::string::*;

use crate::error::PpaassAgentUiError;
use crate::model::UiModelAgentServerConfiguration;

verus! {

/// Raw input fields as the panel collects them.
#[derive(Debug, Clone, PartialEq, Eq)]
pub struct AgentServerConfigUiBo {
    pub user_token: String,
    pub proxy_address: String,
    pub listening_port: String,
}

pub open spec fn is_dec_digit(c: char) -> bool {
    '0' as u32 <= c as u32 && c as u32 <= '9' as u32
}

pub open spec fn digit_val(c: char) -> nat {
    (c as u32 - '0' as u32) as nat
}

/// The value of a sequence of decimal digits, most significant first.
pub open spec fn dec_val(s: Seq<char>) -> nat
    decreases s.len(),
{
    if s.len() == 0 {
        0
    } else {
        dec_val(s.drop_last()) * 10 + digit_val(s.last())
    }
}

/// A non-empty run of decimal digits.
pub open spec fn is_dec_string(s: Seq<char>) -> bool {
    s.len() > 0 && forall|i: int| 0 <= i < s.len() ==> is_dec_digit(s[i])
}

/// A digit string's value only grows as more digits are read.
pub proof fn lemma_dec_val_prefix_le(s: Seq<char>, i: int)
    requires
        0 <= i <= s.len(),
    ensures
        dec_val(s.take(i)) <= dec_val(s),
    decreases s.len() - i,
{
    if i == s.len() {
        assert(s.take(i) =~= s);
    } else {
        assert(s.take(i + 1).drop_last() =~= s.take(i));
        assert(s.take(i + 1).last() == s[i]);
        assert(dec_val(s.take(i + 1)) == dec_val(s.take(i)) * 10 + digit_val(s[i]));
        lemma_dec_val_prefix_le(s, i + 1);
    }
}

/// Parse a decimal port number: digits only, within the port range.
pub fn parse_port(s: &str) -> (r: Option<u16>)
    ensures
        r is Some <==> is_dec_string(s@) && dec_val(s@) <= u16::MAX,
        r matches Some(v) ==> v == dec_val(s@),
{
    let n = s.unicode_len();
    if n == 0 {
        return None;
    }
    let mut i: usize = 0;
    let mut acc: u32 = 0;
    while i < n
        invariant
            0 <= i <= n,
            n == s@.len(),
            forall|j: int| 0 <= j < i ==> is_dec_digit(s@[j]),
            acc <= u16::MAX,
            acc as nat == dec_val(s@.take(i as int)),
        decreases n - i,
    {
        let c = s.get_char(i);
        let code = c as u32;
        if code < '0' as u32 || code > '9' as u32 {
            return None;
        }
        let d = code - '0' as u32;
        let next = acc * 10 + d;
        proof {
            assert(s@.take(i as int + 1).drop_last() =~= s@.take(i as int));
            assert(s@.take(i as int + 1).last() == s@[i as int]);
            assert(next as nat == dec_val(s@.take(i as int + 1)));
        }
        if next > u16::MAX as u32 {
            proof {
                lemma_dec_val_prefix_le(s@, i as int + 1);
            }
            return None;
        }
        acc = next;
        i = i + 1;
    }
    proof {
        assert(s@.take(n as int) =~= s@);
    }
    Some(acc as u16)
}

/// How a text splits on semicolons: the pieces between separators, in
/// order; a text without separators is one piece, and empty pieces stay.
pub open spec fn split_semi(s: Seq<char>) -> Seq<Seq<char>>
    decreases s.len(),
{
    if s.len() == 0 {
        seq![Seq::<char>::empty()]
    } else if s[0] == ';' {
        seq![Seq::<char>::empty()] + split_semi(s.drop_first())
    } else {
        let rest = split_semi(s.drop_first());
        seq![seq![s[0]] + rest[0]] + rest.drop_first()
    }
}

/// A text without separators is a single piece.
proof fn lemma_split_no_semi(s: Seq<char>)
    requires
        forall|j: int| 0 <= j < s.len() ==> s[j] != ';',
    ensures
        split_semi(s) == seq![s],
    decreases s.len(),
{
    if s.len() == 0 {
        assert(split_semi(s) =~~= seq![s]);
    } else {
        assert(s[0] != ';');
        lemma_split_no_semi(s.drop_first());
        let rest = split_semi(s.drop_first());
        assert(rest == seq![s.drop_first()]);
        assert(rest[0] == s.drop_first());
        assert(seq![s[0]] + rest[0] =~= s);
        assert(rest.drop_first() =~= Seq::<Seq<char>>::empty());
        assert(split_semi(s) == seq![seq![s[0]] + rest[0]] + rest.drop_first());
        assert(seq![seq![s[0]] + rest[0]] + rest.drop_first() =~= seq![s]);
    }
}

/// Splitting at the first separator: the head piece, then the pieces of the
/// remainder.
proof fn lemma_split_at_first_semi(s: Seq<char>, i: int)
    requires
        0 <= i < s.len(),
        s[i] == ';',
        forall|j: int| 0 <= j < i ==> s[j] != ';',
    ensures
        split_semi(s) == seq![s.take(i)] + split_semi(s.skip(i + 1)),
    decreases i,
{
    if i == 0 {
        assert(s.take(0) =~= Seq::<char>::empty());
        assert(s.skip(1) =~= s.drop_first());
        assert(split_semi(s) =~= seq![s.take(0)] + split_semi(s.skip(1)));
    } else {
        let sd = s.drop_first();
        assert(sd[i - 1] == ';');
        lemma_split_at_first_semi(sd, i - 1);
        let rest = split_semi(sd);
        assert(rest == seq![sd.take(i - 1)] + split_semi(sd.skip(i)));
        assert(rest[0] == sd.take(i - 1));
        assert(seq![s[0]] + sd.take(i - 1) =~= s.take(i));
        assert(rest.drop_first() =~= split_semi(sd.skip(i)));
        assert(sd.skip(i) =~= s.skip(i + 1));
        assert(split_semi(s) =~= seq![s.take(i)] + split_semi(s.skip(i + 1)));
    }
}

/// Split the proxy-address field on semicolons.
pub fn split_addresses(s: &str) -> (r: Vec<String>)
    ensures
        r.deep_view() == split_semi(s@),
    decreases s@.len(),
{
    let n = s.unicode_len();
    let mut i: usize = 0;
    let mut found = false;
    while !found && i < n
        invariant
            0 <= i <= n,
            n == s@.len(),
            forall|j: int| 0 <= j < i ==> s@[j] != ';',
            found ==> i < n && s@[i as int] == ';',
        decreases n - i + (if found {
            0int
        } else {
            1int
        }),
    {
        let c = s.get_char(i);
        if c == ';' {
            found = true;
        } else {
            i = i + 1;
        }
    }
    if !found {
        proof {
            lemma_split_no_semi(s@);
        }
        let mut r: Vec<String> = Vec::new();
        r.push(String::from_str(s));
        proof {
            assert(r.deep_view() =~= split_semi(s@));
        }
        r
    } else {
        let first = s.substring_char(0, i);
        let rest = s.substring_char(i + 1, n);
        proof {
            lemma_split_at_first_semi(s@, i as int);
            assert(first@ =~= s@.take(i as int));
            assert(rest@ =~= s@.skip(i as int + 1));
        }
        let mut r = split_addresses(rest);
        r.insert(0, first.to_owned());
        proof {
            assert(r.deep_view() =~= seq![s@.take(i as int)] + split_semi(s@.skip(i as int + 1)));
        }
        r
    }
}

/// Assemble a configuration from the raw input fields.
///
/// Accepted exactly when the listening-port field is a run of digits whose
/// value fits a port; the proxy-address field splits on semicolons as typed
/// and the user token is taken as typed.
pub fn parse_configuration(bo: AgentServerConfigUiBo) -> (r: Result<
    UiModelAgentServerConfiguration,
    PpaassAgentUiError,
>)
    ensures
        r is Ok <==> is_dec_string(bo.listening_port@) && dec_val(bo.listening_port@) <= u16::MAX,
        r matches Ok(cfg) ==> {
            &&& cfg.user_token == bo.user_token
            &&& cfg.proxy_address.deep_view() == split_semi(bo.proxy_address@)
            &&& cfg.listening_port == dec_val(bo.listening_port@)
        },
        r matches Err(e) ==> e matches PpaassAgentUiError::Other(m) && m@
            == "Invalid listening port"@,
{
    let port = match parse_port(bo.listening_port.as_str()) {
        Some(port) => port,
        None => {
            return Err(PpaassAgentUiError::Other(String::from_str("Invalid listening port")));
        },
    };
    let proxy_address = split_addresses(bo.proxy_address.as_str());
    Ok(UiModelAgentServerConfiguration {
        user_token: bo.user_token,
        proxy_address,
        listening_port: port,
    })
}

} // verus!
