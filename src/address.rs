//! Server addresses: an IPv4 address and a port, with their text forms.
use vstd::prelude::*;

verus! {

/// The character of a decimal digit `d < 10`.
pub open spec fn digit_char(d: nat) -> char {
    ((d + '0' as nat) as u8) as char
}

/// The decimal text of `n`, without leading zeros.
pub open spec fn decimal(n: nat) -> Seq<char>
    decreases n,
{
    if n < 10 {
        seq![digit_char(n)]
    } else {
        decimal(n / 10).push(digit_char(n % 10))
    }
}

/// The text of one decimal digit.
fn digit_text(d: u64) -> (r: &'static str)
    requires
        d < 10,
    ensures
        r@ == seq![digit_char(d as nat)],
{
    proof {
        reveal_strlit("0");
        reveal_strlit("1");
        reveal_strlit("2");
        reveal_strlit("3");
        reveal_strlit("4");
        reveal_strlit("5");
        reveal_strlit("6");
        reveal_strlit("7");
        reveal_strlit("8");
        reveal_strlit("9");
    }
    let r = match d {
        0 => "0",
        1 => "1",
        2 => "2",
        3 => "3",
        4 => "4",
        5 => "5",
        6 => "6",
        7 => "7",
        8 => "8",
        _ => "9",
    };
    assert(r@ =~= seq![digit_char(d as nat)]);
    r
}

/// Appends the decimal text of `n` to `out`.
pub fn push_decimal(out: &mut String, n: u64)
    ensures
        final(out)@ == old(out)@ + decimal(n as nat),
    decreases n,
{
    if n >= 10 {
        push_decimal(out, n / 10);
        out.append(digit_text(n % 10));
        assert(out@ =~= old(out)@ + decimal(n as nat));
    } else {
        out.append(digit_text(n));
    }
}


/// Whether `c` is an ASCII decimal digit.
pub open spec fn is_digit(c: char) -> bool {
    '0' <= c <= '9'
}

/// The number that a text of decimal digits denotes.
pub open spec fn digits_value(t: Seq<char>) -> nat
    decreases t.len(),
{
    if t.len() == 0 {
        0
    } else {
        digits_value(t.drop_last()) * 10 + (t.last() as nat - '0' as nat) as nat
    }
}

/// The dotted-decimal text of an IPv4 address, as in `127.0.0.1`.
pub open spec fn ipv4_text(ip: [u8; 4]) -> Seq<char> {
    decimal(ip[0] as nat) + seq!['.'] + decimal(ip[1] as nat) + seq!['.'] + decimal(ip[2] as nat)
        + seq!['.'] + decimal(ip[3] as nat)
}

proof fn lemma_decimal_shape(n: nat)
    ensures
        1 <= decimal(n).len(),
        n < 10 ==> decimal(n).len() == 1,
        n < 100 ==> decimal(n).len() <= 2,
        n < 1000 ==> decimal(n).len() <= 3,
        forall|i: int| 0 <= i < decimal(n).len() ==> is_digit(#[trigger] decimal(n)[i]),
        digits_value(decimal(n)) == n,
    decreases n,
{
    let t = decimal(n);
    assert(t.last() as nat - '0' as nat == n % 10);
    if n >= 10 {
        lemma_decimal_shape(n / 10);
        assert(t.drop_last() =~= decimal(n / 10));
        assert((n / 10) * 10 + n % 10 == n);
        assert(digits_value(t) == digits_value(t.drop_last()) * 10 + n % 10);
    } else {
        assert(t.drop_last() =~= Seq::<char>::empty());
        assert(digits_value(t.drop_last()) == 0);
    }
}

/// Appends the dotted-decimal text of `ip` to `out`.
pub fn push_ipv4(out: &mut String, ip: [u8; 4])
    ensures
        final(out)@ == old(out)@ + ipv4_text(ip),
{
    proof {
        reveal_strlit(".");
    }
    push_decimal(out, ip[0] as u64);
    out.append(".");
    push_decimal(out, ip[1] as u64);
    out.append(".");
    push_decimal(out, ip[2] as u64);
    out.append(".");
    push_decimal(out, ip[3] as u64);
    assert(out@ =~= old(out)@ + ipv4_text(ip));
}

/// Reads the decimal digits of one octet of `s`, from `start` on: at most
/// three digits, and the number they denote at most 255.
fn read_octet(s: &str, len: usize, start: usize) -> (r: Option<(u8, usize)>)
    requires
        len == s@.len(),
        start <= len,
    ensures
        r matches Some((_, end)) ==> start < end <= len,
        forall|n: u8|
            #![trigger decimal(n as nat)]
            start + decimal(n as nat).len() <= len
                && s@.subrange(start as int, start + decimal(n as nat).len()) == decimal(n as nat)
                && (start + decimal(n as nat).len() == len
                || s@[start + decimal(n as nat).len()] == '.')
                ==> r == Some((n, (start + decimal(n as nat).len()) as usize)),
{
    let mut i: usize = start;
    let mut v: u64 = 0;
    while i < len && i - start < 3 && is_digit_char(s.get_char(i))
        invariant
            len == s@.len(),
            start <= i <= len,
            i - start <= 3,
            i - start <= 1 ==> v < 10,
            i - start <= 2 ==> v < 100,
            v < 1000,
            i == start ==> v == 0,
            v == digits_value(s@.subrange(start as int, i as int)),
            forall|k: int| start <= k < i ==> is_digit(#[trigger] s@[k]),
        decreases len - i,
    {
        let c = s.get_char(i);
        proof {
            let t = s@.subrange(start as int, i + 1);
            assert(t.drop_last() =~= s@.subrange(start as int, i as int));
        }
        v = v * 10 + (c as u64 - '0' as u64);
        i = i + 1;
    }
    let r = if i == start || v > 255 {
        None
    } else {
        Some((v as u8, i))
    };
    proof {
        assert forall|n: u8|
            #![trigger decimal(n as nat)]
            start + decimal(n as nat).len() <= len
                && s@.subrange(start as int, start + decimal(n as nat).len()) == decimal(n as nat)
                && (start + decimal(n as nat).len() == len
                || s@[start + decimal(n as nat).len()] == '.')
                implies r == Some((n, (start + decimal(n as nat).len()) as usize)) by {
            let t = decimal(n as nat);
            lemma_decimal_shape(n as nat);
            let end = start + t.len();
            if i < end {
                assert(s@[i as int] == t[i - start]);
            } else if i > end {
                assert(is_digit(s@[end]));
            }
            assert(i == end);
            assert(s@.subrange(start as int, i as int) == t);
        }
    }
    r
}

/// Reads a dot at `start`, then the octet that follows it.
fn read_dot_octet(s: &str, len: usize, start: usize) -> (r: Option<(u8, usize)>)
    requires
        len == s@.len(),
        start <= len,
    ensures
        r matches Some((_, end)) ==> start < end <= len,
        forall|n: u8|
            #![trigger decimal(n as nat)]
            start < len && s@[start as int] == '.' && start + 1 + decimal(n as nat).len() <= len
                && s@.subrange(start + 1, start + 1 + decimal(n as nat).len()) == decimal(n as nat)
                && (start + 1 + decimal(n as nat).len() == len
                || s@[start + 1 + decimal(n as nat).len()] == '.')
                ==> r == Some((n, (start + 1 + decimal(n as nat).len()) as usize)),
{
    if start < len && s.get_char(start) == '.' {
        read_octet(s, len, start + 1)
    } else {
        None
    }
}

/// Whether `t` is the dotted-decimal text of some IPv4 address.
pub open spec fn is_ipv4_text(t: Seq<char>) -> bool {
    exists|ip: [u8; 4]| ipv4_text(ip) == t
}

/// Parses the dotted-decimal text of an IPv4 address: four numbers from 0
/// to 255, in decimal without leading zeros, separated by single dots.
pub fn parse_ipv4(s: &str) -> (r: Option<[u8; 4]>)
    ensures
        r matches Some(ip) ==> ipv4_text(ip) == s@,
        r is None <==> !is_ipv4_text(s@),
{
    let len = s.unicode_len();
    let ghost found = is_ipv4_text(s@);
    let ghost ip0: [u8; 4] = if found {
        choose|ip: [u8; 4]| ipv4_text(ip) == s@
    } else {
        [0u8, 0u8, 0u8, 0u8]
    };
    let ghost d0 = decimal(ip0[0] as nat);
    let ghost d1 = decimal(ip0[1] as nat);
    let ghost d2 = decimal(ip0[2] as nat);
    let ghost d3 = decimal(ip0[3] as nat);
    let ghost p1 = d0.len() as int;
    let ghost p2 = p1 + 1 + d1.len();
    let ghost p3 = p2 + 1 + d2.len();
    proof {
        if found {
            let t = s@;
            assert(t == d0 + seq!['.'] + d1 + seq!['.'] + d2 + seq!['.'] + d3);
            assert(t.subrange(0, p1) =~= d0);
            assert(t[p1] == '.');
            assert(t.subrange(p1 + 1, p2) =~= d1);
            assert(t[p2] == '.');
            assert(t.subrange(p2 + 1, p3) =~= d2);
            assert(t[p3] == '.');
            assert(t.subrange(p3 + 1, p3 + 1 + d3.len()) =~= d3);
            assert(p3 + 1 + d3.len() == t.len());
        }
    }
    let (a, i) = match read_octet(s, len, 0) {
        Some(p) => p,
        None => {
            return None;
        },
    };
    let (b, j) = match read_dot_octet(s, len, i) {
        Some(p) => p,
        None => {
            return None;
        },
    };
    let (c, k) = match read_dot_octet(s, len, j) {
        Some(p) => p,
        None => {
            return None;
        },
    };
    let (d, m) = match read_dot_octet(s, len, k) {
        Some(p) => p,
        None => {
            return None;
        },
    };
    if m != len {
        return None;
    }
    let ip = [a, b, c, d];
    let mut text = String::new();
    push_ipv4(&mut text, ip);
    assert(found ==> ipv4_text(ip) == ipv4_text(ip0));
    if text == String::from_str(s) {
        Some(ip)
    } else {
        None
    }
}

fn is_digit_char(c: char) -> (r: bool)
    ensures
        r == is_digit(c),
{
    '0' <= c && c <= '9'
}


/// The address of a Kenku server: an IPv4 address and a TCP port.
#[derive(Clone, Copy, Debug, PartialEq, Eq)]
pub struct ServerAddress {
    pub ip: [u8; 4],
    pub port: u16,
}

impl ServerAddress {
    pub fn new(ip: [u8; 4], port: u16) -> (r: ServerAddress)
        ensures
            r.ip == ip,
            r.port == port,
    {
        ServerAddress { ip, port }
    }

    /// The address whose IP address has the dotted-decimal text `ip`, or
    /// `None` where `ip` is no such text.
    pub fn parse(ip: &str, port: u16) -> (r: Option<ServerAddress>)
        ensures
            r matches Some(a) ==> ipv4_text(a.ip) == ip@ && a.port == port,
            r is None <==> !is_ipv4_text(ip@),
    {
        match parse_ipv4(ip) {
            Some(octets) => Some(ServerAddress { ip: octets, port }),
            None => None,
        }
    }

    pub fn ip(&self) -> (r: [u8; 4])
        ensures
            r == self.ip,
    {
        self.ip
    }

    pub fn port(&self) -> (r: u16)
        ensures
            r == self.port,
    {
        self.port
    }

    /// The dotted-decimal text of the IP address.
    pub fn ip_text(&self) -> (r: String)
        ensures
            r@ == ipv4_text(self.ip),
    {
        let mut out = String::new();
        push_ipv4(&mut out, self.ip);
        out
    }
}

} // verus!
