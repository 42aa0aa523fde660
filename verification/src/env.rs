//! The hook's configuration, as the environment hands it over.

use vstd::prelude::*;

verus! {

/// What is wrong with the configuration.
#[derive(Debug, Clone, Copy, PartialEq, Eq, Structural)]
pub enum ConfigError {
    /// `NOKOZERO_CONNECT` is not set (or not UTF-8).
    ConnectMissing,
    /// `NOKOZERO_HEADLESS` is not set (or not UTF-8).
    HeadlessMissing,
    /// `NOKOZERO_HEADLESS` is not one of `0`, `1`, `false`, `true` (in any case).
    HeadlessInvalid,
}

/// The validated configuration.
pub struct Config {
    /// The driver address (`host:port`) for this instance.
    pub connect_addr: String,
    /// Whether the game should run in headless mode.
    pub headless: bool,
}

/// The ASCII lowercase of a byte.
pub open spec fn lower(b: u8) -> u8 {
    if 0x41 <= b <= 0x5a {
        (b + 0x20) as u8
    } else {
        b
    }
}

/// Whether `s` equals `word` (lowercase ASCII) ignoring ASCII case.
pub open spec fn eq_ignore_case(s: Seq<u8>, word: Seq<u8>) -> bool {
    s.len() == word.len() && forall|i: int| 0 <= i < s.len() ==> lower(#[trigger] s[i]) == word[i]
}

/// The spellings of the headless flag.
pub open spec fn spec_parse_headless(raw: Seq<u8>) -> Option<bool> {
    if eq_ignore_case(raw, seq![0x31u8]) || eq_ignore_case(raw, seq![0x74u8, 0x72u8, 0x75u8, 0x65u8]) {
        Some(true)
    } else if eq_ignore_case(raw, seq![0x30u8]) || eq_ignore_case(
        raw,
        seq![0x66u8, 0x61u8, 0x6cu8, 0x73u8, 0x65u8],
    ) {
        Some(false)
    } else {
        None
    }
}

fn lower_byte(b: u8) -> (r: u8)
    ensures
        r == lower(b),
{
    if 0x41 <= b && b <= 0x5a {
        b + 0x20
    } else {
        b
    }
}

/// Whether `raw` spells `word` ignoring ASCII case.
fn matches_word(raw: &[u8], word: &[u8]) -> (r: bool)
    ensures
        r == eq_ignore_case(raw@, word@),
{
    if raw.len() != word.len() {
        return false;
    }
    let mut i: usize = 0;
    while i < raw.len()
        invariant
            i <= raw@.len(),
            raw@.len() == word@.len(),
            forall|j: int| 0 <= j < i ==> lower(#[trigger] raw@[j]) == word@[j],
        decreases raw@.len() - i,
    {
        if lower_byte(raw[i]) != word[i] {
            return false;
        }
        i += 1;
    }
    true
}

/// Parses `NOKOZERO_HEADLESS`: `1` or `true` turn headless mode on, `0` or `false` off, in any
/// case; anything else is `None`.
pub fn parse_headless(raw: &[u8]) -> (r: Option<bool>)
    ensures
        r == spec_parse_headless(raw@),
{
    let one: [u8; 1] = [0x31];
    let t: [u8; 4] = [0x74, 0x72, 0x75, 0x65];
    let zero: [u8; 1] = [0x30];
    let f: [u8; 5] = [0x66, 0x61, 0x6c, 0x73, 0x65];
    assert(one@ =~= seq![0x31u8]);
    assert(t@ =~= seq![0x74u8, 0x72u8, 0x75u8, 0x65u8]);
    assert(zero@ =~= seq![0x30u8]);
    assert(f@ =~= seq![0x66u8, 0x61u8, 0x6cu8, 0x73u8, 0x65u8]);
    if matches_word(raw, one.as_slice()) || matches_word(raw, t.as_slice()) {
        Some(true)
    } else if matches_word(raw, zero.as_slice()) || matches_word(raw, f.as_slice()) {
        Some(false)
    } else {
        None
    }
}

impl Config {
    /// Validates the two variables (each `None` when unset or not UTF-8). Every problem is
    /// reported, in variable order.
    pub fn from_values(connect: Option<String>, headless: Option<Vec<u8>>) -> (r: Result<
        Config,
        Vec<ConfigError>,
    >)
        ensures
            ({
                let h: Option<Option<bool>> = match headless {
                    Some(raw) => Some(spec_parse_headless(raw@)),
                    None => None,
                };
                let e1: Seq<ConfigError> = if connect is None {
                    seq![ConfigError::ConnectMissing]
                } else {
                    seq![]
                };
                let e2: Seq<ConfigError> = match h {
                    None => seq![ConfigError::HeadlessMissing],
                    Some(None) => seq![ConfigError::HeadlessInvalid],
                    Some(Some(_)) => seq![],
                };
                match r {
                    Ok(c) => connect == Some(c.connect_addr) && h == Some(Some(c.headless)),
                    Err(errors) => errors@ == e1 + e2 && errors@.len() > 0,
                }
            }),
    {
        let mut errors: Vec<ConfigError> = Vec::new();
        if connect.is_none() {
            errors.push(ConfigError::ConnectMissing);
        }
        let parsed = match &headless {
            Some(raw) => {
                let p = parse_headless(raw.as_slice());
                if p.is_none() {
                    errors.push(ConfigError::HeadlessInvalid);
                }
                p
            },
            None => {
                errors.push(ConfigError::HeadlessMissing);
                None
            },
        };
        match (connect, parsed) {
            (Some(connect_addr), Some(headless)) => Ok(Config { connect_addr, headless }),
            _ => Err(errors),
        }
    }
}

} // verus!
