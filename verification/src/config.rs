use vstd::prelude::*;

use crate::text::string_from_chars;

verus! {

/// Where the web driver runs: the driver binary, the host and the port.
#[derive(Debug, Clone)]
pub struct ConfigFile {
    pub geckodriver_path: String,
    pub driver_address: String,
    pub port: u16,
}

/// The character of a decimal digit.
pub open spec fn digit_char(d: nat) -> char {
    if d == 0 {
        '0'
    } else if d == 1 {
        '1'
    } else if d == 2 {
        '2'
    } else if d == 3 {
        '3'
    } else if d == 4 {
        '4'
    } else if d == 5 {
        '5'
    } else if d == 6 {
        '6'
    } else if d == 7 {
        '7'
    } else if d == 8 {
        '8'
    } else {
        '9'
    }
}

/// The value of a decimal digit character.
pub open spec fn digit_value(c: char) -> nat {
    if c == '1' {
        1
    } else if c == '2' {
        2
    } else if c == '3' {
        3
    } else if c == '4' {
        4
    } else if c == '5' {
        5
    } else if c == '6' {
        6
    } else if c == '7' {
        7
    } else if c == '8' {
        8
    } else if c == '9' {
        9
    } else {
        0
    }
}

/// The decimal notation of `n`, without leading zeros (`0` for zero).
pub open spec fn decimal(n: nat) -> Seq<char>
    decreases n,
{
    if n < 10 {
        seq![digit_char(n)]
    } else {
        decimal(n / 10).push(digit_char(n % 10))
    }
}

/// The number that a string of decimal digits denotes.
pub open spec fn decimal_value(s: Seq<char>) -> nat
    decreases s.len(),
{
    if s.len() == 0 {
        0
    } else {
        decimal_value(s.drop_last()) * 10 + digit_value(s.last())
    }
}

/// The address of the web driver: `http://`, the host, `:`, the port.
pub open spec fn full_address(host: Seq<char>, port: u16) -> Seq<char> {
    "http://"@ + host + ":"@ + decimal(port as nat)
}

/// A digit's character reads back as the digit.
proof fn lemma_digit_reads_back(d: nat)
    requires
        d < 10,
    ensures
        digit_value(digit_char(d)) == d,
{
}

/// The port in a driver address reads back as the port: reading the decimal
/// notation of a number gives the number.
pub proof fn law_port_reads_back(n: nat)
    ensures
        decimal_value(decimal(n)) == n,
        decimal(n).len() >= 1,
    decreases n,
{
    if n < 10 {
        let s = decimal(n);
        lemma_digit_reads_back(n);
        assert(s.drop_last() =~= Seq::<char>::empty());
        assert(decimal_value(s.drop_last()) == 0);
        assert(s.last() == digit_char(n));
    } else {
        law_port_reads_back(n / 10);
        let s = decimal(n);
        lemma_digit_reads_back(n % 10);
        assert(s.drop_last() =~= decimal(n / 10));
        assert(s.last() == digit_char(n % 10));
        assert(n == (n / 10) * 10 + n % 10);
        assert(decimal_value(s) == decimal_value(s.drop_last()) * 10 + digit_value(s.last()));
    }
}

/// The character of the digit `d`.
fn digit(d: u16) -> (c: char)
    requires
        d < 10,
    ensures
        c == digit_char(d as nat),
{
    if d == 0 {
        '0'
    } else if d == 1 {
        '1'
    } else if d == 2 {
        '2'
    } else if d == 3 {
        '3'
    } else if d == 4 {
        '4'
    } else if d == 5 {
        '5'
    } else if d == 6 {
        '6'
    } else if d == 7 {
        '7'
    } else if d == 8 {
        '8'
    } else {
        '9'
    }
}

/// The decimal digits of `n`.
fn decimal_digits(n: u16) -> (v: Vec<char>)
    ensures
        v@ == decimal(n as nat),
    decreases n,
{
    if n < 10 {
        let mut v = Vec::new();
        v.push(digit(n));
        assert(v@ =~= seq![digit_char(n as nat)]);
        v
    } else {
        let mut v = decimal_digits(n / 10);
        v.push(digit(n % 10));
        v
    }
}

/// The decimal notation of a port (`u16::to_string`).
pub fn port_to_string(port: u16) -> (s: String)
    ensures
        s@ == decimal(port as nat),
{
    string_from_chars(&decimal_digits(port))
}

impl ConfigFile {
    /// The address at which the web driver is reached.
    pub fn get_full_address(&self) -> (r: String)
        ensures
            r@ == full_address(self.driver_address@, self.port),
    {
        let mut r = "http://".to_owned();
        r.append(self.driver_address.as_str());
        r.append(":");
        let port = port_to_string(self.port);
        r.append(port.as_str());
        r
    }
}

impl Default for ConfigFile {
    /// The configuration used when none is given: the bundled driver on
    /// `http://localhost`, port 4444.
    fn default() -> (c: ConfigFile)
        ensures
            c.geckodriver_path@ == "./src/geckodriver_mac"@,
            c.driver_address@ == "http://localhost"@,
            c.port == 4444,
    {
        ConfigFile {
            geckodriver_path: "./src/geckodriver_mac".to_owned(),
            driver_address: "http://localhost".to_owned(),
            port: 4444,
        }
    }
}

} // verus!
