use vstd::prelude::*;
use vstd::utf8::encode_utf8;

use crate::data::params::Params;
use crate::data::replication_config::{ReplicationConfig, ReplicationRole};
use crate::error::KyotoError;
use crate::text::{decimal, push_decimal, push_text};

verus! {

/// The port the server listens on when none is given.
pub const DEFAULT_PORT: &'static str = "9736";

/// The input buffer size of a connection when none is given.
pub const DEFAULT_INPUT_BUFFER_SIZE: &'static str = "4096";

/// Whether every character of `s` is an ASCII digit.
pub open spec fn all_digits(s: Seq<char>) -> bool {
    forall|i: int| 0 <= i < s.len() ==> '0' <= #[trigger] s[i] <= '9'
}

/// The number that the ASCII digits `s` write in decimal.
pub open spec fn digits_value(s: Seq<char>) -> nat
    decreases s.len(),
{
    if s.len() == 0 {
        0
    } else {
        digits_value(s.drop_last()) * 10 + ((s.last() as nat) - 48) as nat
    }
}

/// What `str::parse` gives for an unsigned integer type whose largest value is
/// `max`: an optional `+`, then one or more ASCII digits whose value is at
/// most `max`; `None` for every other text.
pub open spec fn spec_parse_unsigned(s: Seq<char>, max: nat) -> Option<nat> {
    let digits = if s.len() > 0 && s[0] == '+' {
        s.drop_first()
    } else {
        s
    };
    if digits.len() > 0 && all_digits(digits) && digits_value(digits) <= max {
        Some(digits_value(digits))
    } else {
        None
    }
}

/// Reads `s` as an unsigned decimal integer of at most `max`, as `str::parse`
/// does for an unsigned type whose largest value is `max`.
pub fn parse_unsigned(s: &str, max: u64) -> (r: Option<u64>)
    ensures
        match spec_parse_unsigned(s@, max as nat) {
            Some(v) => r == Some(v as u64),
            None => r is None,
        },
{
    let n = s.unicode_len();
    let mut start: usize = 0;
    if n > 0 && s.get_char(0) == '+' {
        start = 1;
    }
    let ghost digits = if s@.len() > 0 && s@[0] == '+' {
        s@.drop_first()
    } else {
        s@
    };
    assert(digits == s@.subrange(start as int, n as int));
    if start == n {
        return None;
    }
    let mut value: u64 = 0;
    let mut i: usize = start;
    while i < n
        invariant
            n == s@.len(),
            start <= i <= n,
            digits == s@.subrange(start as int, n as int),
            digits == (if s@.len() > 0 && s@[0] == '+' {
                s@.drop_first()
            } else {
                s@
            }),
            all_digits(s@.subrange(start as int, i as int)),
            value as nat == digits_value(s@.subrange(start as int, i as int)),
            value <= max,
        decreases n - i,
    {
        let c = s.get_char(i);
        let ghost prefix = s@.subrange(start as int, i as int);
        let ghost next = s@.subrange(start as int, i + 1);
        assert(next.drop_last() =~= prefix);
        if c < '0' || c > '9' {
            proof {
                assert(digits[i - start] == s@[i as int]);
                assert(!all_digits(digits));
            }
            return None;
        }
        let d: u64 = (c as u32 - 48) as u64;
        assert(digits_value(next) == value * 10 + d);
        assert(next[next.len() - 1] == c);
        assert(all_digits(next));
        assert(digits.subrange(0, (i + 1 - start) as int) =~= next);
        if d > max || value > (max - d) / 10 {
            proof {
                assert(value * 10 + d > max) by (nonlinear_arith)
                    requires
                        d > max || value > (max - d) / 10,
                ;
                lemma_digits_value_grows(digits, (i + 1 - start) as int);
            }
            return None;
        }
        proof {
            assert(value * 10 + d <= max) by (nonlinear_arith)
                requires
                    value <= (max - d) / 10,
                    d <= max,
            ;
        }
        value = value * 10 + d;
        i = i + 1;
    }
    assert(s@.subrange(start as int, n as int) =~= digits);
    Some(value)
}

/// The value of a prefix of a string of digits is at most the value of the
/// whole string.
proof fn lemma_digits_value_grows(s: Seq<char>, k: int)
    requires
        0 <= k <= s.len(),
        all_digits(s.subrange(0, k)),
    ensures
        all_digits(s) ==> digits_value(s.subrange(0, k)) <= digits_value(s),
    decreases s.len() - k,
{
    if k < s.len() && all_digits(s) {
        let p = s.subrange(0, k + 1);
        assert(p.drop_last() =~= s.subrange(0, k));
        assert(all_digits(p));
        lemma_digits_value_grows(s, k + 1);
        assert(digits_value(s.subrange(0, k)) <= digits_value(p)) by (nonlinear_arith)
            requires
                digits_value(p) == digits_value(s.subrange(0, k)) * 10 + ((p.last() as nat) - 48) as nat,
        ;
    } else if k == s.len() {
        assert(s.subrange(0, k) =~= s);
    }
}

/// The text of an optional setting, or the default when it is absent.
pub open spec fn setting_text(given: Option<String>, default: &str) -> Seq<char> {
    match given {
        Some(s) => s@,
        None => default@,
    }
}

/// Whether `ServerConfig::new` can read both settings of `params`.
pub open spec fn params_readable(params: Params) -> bool {
    &&& spec_parse_unsigned(setting_text(params.port, DEFAULT_PORT), u16::MAX as nat) is Some
    &&& spec_parse_unsigned(
        setting_text(params.input_buffer_size, DEFAULT_INPUT_BUFFER_SIZE),
        usize::MAX as nat,
    ) is Some
}

/// The server's settings.
#[derive(Debug)]
pub struct ServerConfig {
    pub port: u16,
    pub input_buffer_size: usize,
    pub replication_config: ReplicationConfig,
}

/// The server section of the `INFO` text.
pub open spec fn server_info(port: u16, input_buffer_size: usize) -> Seq<u8> {
    encode_utf8("[Server config info]\r\n"@) + encode_utf8("port: "@) + decimal(port as nat)
        + encode_utf8("\r\n"@) + encode_utf8("input_buffer_size: "@) + decimal(
        input_buffer_size as nat,
    ) + encode_utf8("\r\n"@) + encode_utf8("\r\n"@)
}

impl ServerConfig {
    /// The settings read from `params`, with `DEFAULT_PORT` and
    /// `DEFAULT_INPUT_BUFFER_SIZE` where a setting is absent, and a
    /// replication configuration with no role and no replicas.
    pub fn new(params: &Params) -> (r: Self)
        requires
            params_readable(*params),
        ensures
            Some(r.port as nat) == spec_parse_unsigned(
                setting_text(params.port, DEFAULT_PORT),
                u16::MAX as nat,
            ),
            Some(r.input_buffer_size as nat) == spec_parse_unsigned(
                setting_text(params.input_buffer_size, DEFAULT_INPUT_BUFFER_SIZE),
                usize::MAX as nat,
            ),
            r.replication_config.role() == ReplicationRole::Confused,
            r.replication_config.replicas() == Seq::<(Seq<char>, u16)>::empty(),
    {
        let port_str: &str = match &params.port {
            Some(s) => s.as_str(),
            None => DEFAULT_PORT,
        };
        let port = parse_unsigned(port_str, 65535).unwrap() as u16;
        let input_buffer_size_str: &str = match &params.input_buffer_size {
            Some(s) => s.as_str(),
            None => DEFAULT_INPUT_BUFFER_SIZE,
        };
        let input_buffer_size = parse_unsigned(input_buffer_size_str, usize::MAX as u64).unwrap() as usize;
        let replication_config = ReplicationConfig::new();
        Self { port: port, input_buffer_size: input_buffer_size, replication_config: replication_config }
    }

    /// Appends the server section of the `INFO` text to `info`: the port and
    /// the input buffer size.
    pub fn generate_info(&self, info: Vec<u8>) -> (r: Result<Vec<u8>, KyotoError>)
        ensures
            r matches Ok(out) && out@ == info@ + server_info(self.port, self.input_buffer_size),
    {
        let ghost start = info@;
        let mut info = info;
        push_text(&mut info, "[Server config info]\r\n");
        push_text(&mut info, "port: ");
        push_decimal(&mut info, self.port as u64);
        push_text(&mut info, "\r\n");
        push_text(&mut info, "input_buffer_size: ");
        push_decimal(&mut info, self.input_buffer_size as u64);
        push_text(&mut info, "\r\n");
        push_text(&mut info, "\r\n");
        proof {
            assert(info@ =~= start + server_info(self.port, self.input_buffer_size));
        }
        Ok(info)
    }
}

} // verus!
