//! Reference data about wormhole types and systems, and the settings of a session.

use vstd::prelude::*;

verus! {

/// What the wormhole-type catalogue records of one type.
pub struct WormholeInfo {
    pub life: String,
    pub from: Vec<String>,
    pub leads_to: String,
    pub mass: u64,
    pub jump: u64,
}

/// Credentials and callback for the game's single sign-on.
pub struct Config {
    pub sso_client_id: String,
    pub sso_client_secret: String,
    pub sso_callback_url: String,
}

/// The security class of a system; wormhole space comes with its class number.
#[derive(Debug, Clone, Copy, PartialEq, Eq)]
pub enum SystemClassification {
    HighSec,
    LowSec,
    NullSec,
    WSpace(u8),
}

pub open spec fn digit_char(d: nat) -> char {
    "0123456789"@[d as int]
}

/// The decimal digits of `n`, without leading zeros.
pub open spec fn decimal(n: nat) -> Seq<char>
    decreases n,
{
    if n < 10 {
        seq![digit_char(n)]
    } else {
        decimal(n / 10).push(digit_char(n % 10))
    }
}

pub open spec fn classification_text(c: SystemClassification) -> Seq<char> {
    match c {
        SystemClassification::HighSec => "High-Sec"@,
        SystemClassification::LowSec => "Low-Sec"@,
        SystemClassification::NullSec => "Null-Sec"@,
        SystemClassification::WSpace(class) => "Class-"@ + decimal(class as nat),
    }
}

fn digit(d: u8) -> (r: &'static str)
    requires
        d < 10,
    ensures
        r@ == seq![digit_char(d as nat)],
{
    proof {
        reveal_strlit("0123456789");
    }
    let r = "0123456789".substring_char(d as usize, d as usize + 1);
    assert(r@ =~= seq![digit_char(d as nat)]);
    r
}

fn decimal_text(n: u8) -> (r: String)
    ensures
        r@ == decimal(n as nat),
{
    let mut r = String::new();
    if n >= 100 {
        r.append(digit(n / 100));
    }
    if n >= 10 {
        r.append(digit((n / 10) % 10));
    }
    r.append(digit(n % 10));
    if n >= 100 {
        assert(decimal((n / 100) as nat) == seq![digit_char((n / 100) as nat)]);
        assert(decimal((n / 10) as nat) =~= decimal((n / 100) as nat).push(
            digit_char(((n / 10) % 10) as nat),
        ));
    } else if n >= 10 {
        assert(decimal((n / 10) as nat) == seq![digit_char((n / 10) as nat)]);
    }
    assert(r@ =~= decimal(n as nat));
    r
}

impl SystemClassification {
    pub fn as_str(&self) -> (r: String)
        ensures
            r@ == classification_text(*self),
    {
        match self {
            SystemClassification::HighSec => "High-Sec".to_owned(),
            SystemClassification::LowSec => "Low-Sec".to_owned(),
            SystemClassification::NullSec => "Null-Sec".to_owned(),
            SystemClassification::WSpace(class) => {
                let mut r = "Class-".to_owned();
                let digits = decimal_text(*class);
                r.append(digits.as_str());
                r
            },
        }
    }
}

} // verus!
