//! Startup configuration: the bind address, port and shared credential,
//! with the documented defaults for anything the environment leaves unset.

use vstd::prelude::*;
use vstd::string::StringSliceAdditionalSpecFns;

verus! {

/// The immutable configuration captured once at startup. The credential is
/// never mutated afterwards and is shared read-only by all requests.
#[derive(Clone, Debug)]
pub struct Config {
    pub host: String,
    pub port: u16,
    pub api_key: String,
}

/// The per-request state handed to every handler: just the configured
/// shared credential.
#[derive(Clone, Debug)]
pub struct AppState {
    pub api_key: String,
}

/// Every byte of the sequence is an ASCII decimal digit.
pub open spec fn spec_all_digits(bytes: Seq<u8>) -> bool {
    forall|i: int| 0 <= i < bytes.len() ==> 0x30 <= #[trigger] bytes[i] <= 0x39
}

/// The number the digit bytes spell in decimal.
pub open spec fn spec_digits_value(bytes: Seq<u8>) -> int
    decreases bytes.len(),
{
    if bytes.len() == 0 {
        0
    } else {
        spec_digits_value(bytes.drop_last()) * 10 + (bytes.last() - 0x30)
    }
}

/// How a port setting reads as a number: an optional leading plus sign, then
/// at least one decimal digit, spelling a value that fits a port; anything
/// else does not parse.
pub open spec fn spec_parse_port(bytes: Seq<u8>) -> Option<u16> {
    let digits = if bytes.len() > 0 && bytes[0] == 0x2b {
        bytes.drop_first()
    } else {
        bytes
    };
    if digits.len() > 0 && spec_all_digits(digits) && spec_digits_value(digits) <= 65535 {
        Some(spec_digits_value(digits) as u16)
    } else {
        None
    }
}

proof fn lemma_digits_value_nonneg(bytes: Seq<u8>)
    requires
        spec_all_digits(bytes),
    ensures
        spec_digits_value(bytes) >= 0,
    decreases bytes.len(),
{
    if bytes.len() > 0 {
        assert(spec_all_digits(bytes.drop_last()));
        lemma_digits_value_nonneg(bytes.drop_last());
    }
}

proof fn lemma_digits_value_prefix(bytes: Seq<u8>, i: int)
    requires
        0 <= i <= bytes.len(),
        spec_all_digits(bytes),
    ensures
        spec_digits_value(bytes.subrange(0, i)) <= spec_digits_value(bytes),
    decreases bytes.len() - i,
{
    if i == bytes.len() {
        assert(bytes.subrange(0, i) =~= bytes);
    } else {
        let shorter = bytes.subrange(0, i);
        let longer = bytes.subrange(0, i + 1);
        assert(longer.drop_last() =~= shorter);
        assert(spec_all_digits(shorter));
        lemma_digits_value_nonneg(shorter);
        lemma_digits_value_prefix(bytes, i + 1);
    }
}

/// Parses a port setting exactly as the standard numeric parser reads an
/// unsigned sixteen-bit value: an optional leading plus sign, then at least
/// one decimal digit, within range.
pub fn parse_port(s: &str) -> (r: Option<u16>)
    ensures
        r == spec_parse_port(s.spec_bytes()),
{
    let bytes = s.as_bytes();
    let ghost all = bytes@;
    let start: usize = if bytes.len() > 0 && bytes[0] == 0x2b {
        1
    } else {
        0
    };
    let ghost digits = if all.len() > 0 && all[0] == 0x2b {
        all.drop_first()
    } else {
        all
    };
    proof {
        assert(digits =~= all.subrange(start as int, all.len() as int));
    }
    if start == bytes.len() {
        return None;
    }
    let mut i: usize = start;
    let mut acc: u32 = 0;
    while i < bytes.len()
        invariant
            start <= i <= bytes.len(),
            all == bytes@,
            all == s.spec_bytes(),
            digits == (if all.len() > 0 && all[0] == 0x2b {
                all.drop_first()
            } else {
                all
            }),
            digits =~= all.subrange(start as int, all.len() as int),
            spec_all_digits(all.subrange(start as int, i as int)),
            acc == spec_digits_value(all.subrange(start as int, i as int)),
            acc <= 65535,
        decreases bytes.len() - i,
    {
        let b = bytes[i];
        if b < 0x30 || b > 0x39 {
            proof {
                assert(digits[i - start] == b);
            }
            return None;
        }
        proof {
            assert(all.subrange(start as int, i + 1).drop_last() =~= all.subrange(
                start as int,
                i as int,
            ));
        }
        acc = acc * 10 + (b - 0x30) as u32;
        i = i + 1;
        if acc > 65535 {
            proof {
                let prefix = all.subrange(start as int, i as int);
                if spec_all_digits(digits) {
                    assert(prefix =~= digits.subrange(0, i - start));
                    lemma_digits_value_prefix(digits, i - start);
                }
            }
            return None;
        }
    }
    proof {
        assert(all.subrange(start as int, i as int) =~= digits);
    }
    Some(acc as u16)
}

/// Applies the documented defaults to whatever the environment provided:
/// every interface as the bind address, port 8765, and the stock shared key.
pub fn resolve_config(host: Option<String>, port: Option<u16>, api_key: Option<String>) -> (c: Config)
    ensures
        host matches Some(h) ==> c.host == h,
        host is None ==> c.host@ == "0.0.0.0"@,
        port matches Some(p) ==> c.port == p,
        port is None ==> c.port == 8765,
        api_key matches Some(k) ==> c.api_key == k,
        api_key is None ==> c.api_key@ == "overlay-companion-mcp"@,
{
    let host = match host {
        Some(h) => h,
        None => String::from_str("0.0.0.0"),
    };
    let port = match port {
        Some(p) => p,
        None => 8765,
    };
    let api_key = match api_key {
        Some(k) => k,
        None => String::from_str("overlay-companion-mcp"),
    };
    Config { host, port, api_key }
}

} // verus!
