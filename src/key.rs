//! Correlation keys: the names that link an outbound command to its
//! inbound replies, and the allow-list that recognises them.

use vstd::prelude::*;

verus! {

/// Number of digital I/O pins (`io0` .. `io11`).
pub const IO_PIN_COUNT: u8 = 12;

/// Number of analog input channels (`ad0` .. `ad11`).
pub const AD_CHANNEL_COUNT: u8 = 12;

/// Number of PWM channels (`pwm0` .. `pwm5`).
pub const PWM_CHANNEL_COUNT: u8 = 6;

/// Number of UART channels (`uart0` .. `uart2`).
pub const UART_CHANNEL_COUNT: u8 = 3;

/// The ten decimal digits, in order.
pub open spec fn digit_chars() -> Seq<char> {
    seq!['0', '1', '2', '3', '4', '5', '6', '7', '8', '9']
}

/// The canonical decimal spelling of `n`: no sign, no leading zeros.
pub open spec fn decimal(n: nat) -> Seq<char>
    decreases n,
{
    if n < 10 {
        seq![digit_chars()[n as int]]
    } else {
        decimal(n / 10).push(digit_chars()[(n % 10) as int])
    }
}

/// `s` is `prefix` followed by the decimal spelling of an index below `count`.
pub open spec fn indexed_key(s: Seq<char>, prefix: Seq<char>, count: nat) -> bool {
    exists|n: nat| n < count && s == prefix + decimal(n)
}

/// The allow-list: the literal names of the board-wide modules, or a
/// channel prefix followed by the index of an existing channel.
pub open spec fn is_correlation_key(s: Seq<char>) -> bool {
    ||| s == "display"@
    ||| s == "switch"@
    ||| s == "system"@
    ||| s == "ws"@
    ||| indexed_key(s, "io"@, IO_PIN_COUNT as nat)
    ||| indexed_key(s, "ad"@, AD_CHANNEL_COUNT as nat)
    ||| indexed_key(s, "pwm"@, PWM_CHANNEL_COUNT as nat)
    ||| indexed_key(s, "uart"@, UART_CHANNEL_COUNT as nat)
}

/// The first of `fields[i..]` that is on the allow-list.
pub open spec fn key_from(fields: Seq<Seq<char>>, i: int) -> Option<Seq<char>>
    decreases fields.len() - i,
{
    if i < 0 || i >= fields.len() {
        None
    } else if is_correlation_key(fields[i]) {
        Some(fields[i])
    } else {
        key_from(fields, i + 1)
    }
}

/// The correlation key of an element whose top-level field names are
/// `fields`, in their natural order: the first one on the allow-list.
pub open spec fn key_of(fields: Seq<Seq<char>>) -> Option<Seq<char>> {
    key_from(fields, 0)
}

/// The character views of a sequence of strings.
pub open spec fn names(v: Seq<String>) -> Seq<Seq<char>> {
    v.map_values(|s: String| s@)
}

fn digit_str(d: u8) -> (r: &'static str)
    requires
        d < 10,
    ensures
        r@ == seq![digit_chars()[d as int]],
{
    proof {
        reveal_strlit("0");
        reveal_strlit("1");
        reveal_strlit("2");
        reveal_strlit("3");
        reveal_strlit("4");
        reveal_strlit("5");
        reveal_strlit("6");
        reveal_strlit("7");
        reveal_strlit("8");
        reveal_strlit("9");
    }
    let r = match d {
        0 => "0",
        1 => "1",
        2 => "2",
        3 => "3",
        4 => "4",
        5 => "5",
        6 => "6",
        7 => "7",
        8 => "8",
        _ => "9",
    };
    assert(r@ =~= seq![digit_chars()[d as int]]);
    r
}

/// Appends the decimal spelling of `n` to `s`.
pub fn append_decimal(s: &mut String, n: u8)
    ensures
        final(s)@ == old(s)@ + decimal(n as nat),
{
    let ghost start = s@;
    if n >= 100 {
        s.append(digit_str(n / 100));
        s.append(digit_str((n / 10) % 10));
        s.append(digit_str(n % 10));
        assert(decimal((n / 100) as nat) == seq![digit_chars()[(n / 100) as int]]);
        assert(decimal((n / 10) as nat) == decimal((n / 100) as nat).push(
            digit_chars()[((n / 10) % 10) as int],
        ));
        assert(decimal(n as nat) == decimal((n / 10) as nat).push(digit_chars()[(n % 10) as int]));
    } else if n >= 10 {
        s.append(digit_str(n / 10));
        s.append(digit_str(n % 10));
        assert(decimal((n / 10) as nat) == seq![digit_chars()[(n / 10) as int]]);
        assert(decimal(n as nat) == decimal((n / 10) as nat).push(digit_chars()[(n % 10) as int]));
    } else {
        s.append(digit_str(n));
    }
    assert(s@ =~= start + decimal(n as nat));
}

/// `prefix` followed by the decimal spelling of `index`.
pub fn indexed_name(prefix: &str, index: u8) -> (r: String)
    ensures
        r@ == prefix@ + decimal(index as nat),
{
    let mut r = String::from_str(prefix);
    append_decimal(&mut r, index);
    r
}

/// The key of digital I/O pin `pin` (`io5`).
pub fn io_key(pin: u8) -> (r: String)
    ensures
        r@ == "io"@ + decimal(pin as nat),
{
    indexed_name("io", pin)
}

/// The key of analog input channel `channel` (`ad3`).
pub fn ad_key(channel: u8) -> (r: String)
    ensures
        r@ == "ad"@ + decimal(channel as nat),
{
    indexed_name("ad", channel)
}

/// The key of PWM channel `channel` (`pwm0`).
pub fn pwm_key(channel: u8) -> (r: String)
    ensures
        r@ == "pwm"@ + decimal(channel as nat),
{
    indexed_name("pwm", channel)
}

/// The key of UART channel `channel` (`uart1`).
pub fn uart_key(channel: u8) -> (r: String)
    ensures
        r@ == "uart"@ + decimal(channel as nat),
{
    indexed_name("uart", channel)
}

fn is_indexed(key: &String, prefix: &str, count: u8) -> (r: bool)
    ensures
        r == indexed_key(key@, prefix@, count as nat),
{
    let mut n: u8 = 0;
    while n < count
        invariant
            n <= count,
            forall|m: nat| m < n ==> key@ != prefix@ + decimal(m),
        decreases count - n,
    {
        let candidate = indexed_name(prefix, n);
        if *key == candidate {
            assert(key@ == prefix@ + decimal(n as nat));
            return true;
        }
        n = n + 1;
    }
    false
}

/// Whether `key` is on the allow-list of correlation keys.
pub fn is_key(key: &String) -> (r: bool)
    ensures
        r == is_correlation_key(key@),
{
    let display = String::from_str("display");
    let switch = String::from_str("switch");
    let system = String::from_str("system");
    let ws = String::from_str("ws");
    *key == display || *key == switch || *key == system || *key == ws
        || is_indexed(key, "io", IO_PIN_COUNT) || is_indexed(key, "ad", AD_CHANNEL_COUNT)
        || is_indexed(key, "pwm", PWM_CHANNEL_COUNT) || is_indexed(key, "uart", UART_CHANNEL_COUNT)
}

/// The correlation key of an element whose top-level field names are
/// `fields`: the first name on the allow-list. Names off the list are
/// skipped; `None` when none is on it.
pub fn correlation_key(fields: &Vec<String>) -> (r: Option<String>)
    ensures
        r is None <==> key_of(names(fields@)) is None,
        r matches Some(k) ==> key_of(names(fields@)) == Some(k@),
{
    let ghost all = names(fields@);
    let mut i: usize = 0;
    while i < fields.len()
        invariant
            i <= fields.len(),
            all == names(fields@),
            key_of(all) == key_from(all, i as int),
        decreases fields.len() - i,
    {
        if is_key(&fields[i]) {
            return Some(fields[i].clone());
        }
        i = i + 1;
    }
    None
}

} // verus!
