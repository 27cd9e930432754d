use vstd::prelude::*;

verus! {

/// The decimal character of a digit below ten.
pub open spec fn digit_char(d: nat) -> char {
    if d == 0 {
        '0'
    } else if d == 1 {
        '1'
    } else if d == 2 {
        '2'
    } else if d == 3 {
        '3'
    } else if d == 4 {
        '4'
    } else if d == 5 {
        '5'
    } else if d == 6 {
        '6'
    } else if d == 7 {
        '7'
    } else if d == 8 {
        '8'
    } else {
        '9'
    }
}

/// The decimal writing of `n`, without leading zeros.
pub open spec fn decimal(n: nat) -> Seq<char>
    decreases n,
{
    if n < 10 {
        seq![digit_char(n)]
    } else {
        decimal(n / 10) + seq![digit_char(n % 10)]
    }
}

/// `host:port`.
pub open spec fn host_port(host: Seq<char>, port: u16) -> Seq<char> {
    host + ":"@ + decimal(port as nat)
}

fn digit_str(d: u16) -> (r: &'static str)
    requires
        d < 10,
    ensures
        r@ == seq![digit_char(d as nat)],
{
    proof {
        reveal_strlit("0");
        reveal_strlit("1");
        reveal_strlit("2");
        reveal_strlit("3");
        reveal_strlit("4");
        reveal_strlit("5");
        reveal_strlit("6");
        reveal_strlit("7");
        reveal_strlit("8");
        reveal_strlit("9");
    }
    if d == 0 {
        "0"
    } else if d == 1 {
        "1"
    } else if d == 2 {
        "2"
    } else if d == 3 {
        "3"
    } else if d == 4 {
        "4"
    } else if d == 5 {
        "5"
    } else if d == 6 {
        "6"
    } else if d == 7 {
        "7"
    } else if d == 8 {
        "8"
    } else {
        "9"
    }
}

/// Appends the decimal writing of `n`.
fn append_decimal(s: &mut String, n: u16)
    ensures
        final(s)@ == old(s)@ + decimal(n as nat),
    decreases n,
{
    if n >= 10 {
        append_decimal(s, n / 10);
    }
    s.append(digit_str(n % 10));
}

/// `http://host:port`, the control endpoint of a scheduler.
pub fn scheduler_url(host: &str, port: u16) -> (r: String)
    ensures
        r@ == "http://"@ + host_port(host@, port),
{
    let mut r = String::from_str("http://");
    r.append(host);
    r.append(":");
    append_decimal(&mut r, port);
    r
}

/// `http://host:port/state`, where a scheduler reports its registered executors.
pub fn scheduler_state_url(host: &str, port: u16) -> (r: String)
    ensures
        r@ == "http://"@ + host_port(host@, port) + "/state"@,
{
    let mut r = scheduler_url(host, port);
    r.append("/state");
    r
}

/// `{base}/task`, where a task reads its own metadata.
pub fn task_metadata_url(base: &str) -> (r: String)
    ensures
        r@ == base@ + "/task"@,
{
    let mut r = String::from_str(base);
    r.append("/task");
    r
}

} // verus!
