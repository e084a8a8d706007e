use vstd::prelude::*;

verus! {

/// The service label for a port, as a character sequence: a fixed table of
/// well-known ports, and `"unknown"` for every other port.
pub open spec fn service_name_of(port: u16) -> Seq<char> {
    if port == 21 {
        seq!['f', 't', 'p']
    } else if port == 22 {
        seq!['s', 's', 'h']
    } else if port == 23 {
        seq!['t', 'e', 'l', 'n', 'e', 't']
    } else if port == 25 {
        seq!['s', 'm', 't', 'p']
    } else if port == 53 {
        seq!['d', 'n', 's']
    } else if port == 80 {
        seq!['h', 't', 't', 'p']
    } else if port == 110 {
        seq!['p', 'o', 'p', '3']
    } else if port == 143 {
        seq!['i', 'm', 'a', 'p']
    } else if port == 443 {
        seq!['h', 't', 't', 'p', 's']
    } else if port == 445 {
        seq!['s', 'm', 'b']
    } else if port == 3306 {
        seq!['m', 'y', 's', 'q', 'l']
    } else if port == 3389 {
        seq!['r', 'd', 'p']
    } else if port == 5432 {
        seq!['p', 'o', 's', 't', 'g', 'r', 'e', 's']
    } else if port == 5900 {
        seq!['v', 'n', 'c']
    } else if port == 8080 {
        seq!['h', 't', 't', 'p', '-', 'a', 'l', 't']
    } else if port == 8443 {
        seq!['h', 't', 't', 'p', 's', '-', 'a', 'l', 't']
    } else if port == 9200 {
        seq!['e', 'l', 'a', 's', 't', 'i', 'c', 's', 'e', 'a', 'r', 'c', 'h']
    } else {
        seq!['u', 'n', 'k', 'n', 'o', 'w', 'n']
    }
}

/// Names the service commonly found on `port`, or `"unknown"`.
pub fn identify_service(port: u16) -> (r: String)
    ensures
        r@ == service_name_of(port),
{
    let name: &str = match port {
        21 => "ftp",
        22 => "ssh",
        23 => "telnet",
        25 => "smtp",
        53 => "dns",
        80 => "http",
        110 => "pop3",
        143 => "imap",
        443 => "https",
        445 => "smb",
        3306 => "mysql",
        3389 => "rdp",
        5432 => "postgres",
        5900 => "vnc",
        8080 => "http-alt",
        8443 => "https-alt",
        9200 => "elasticsearch",
        _ => "unknown",
    };
    proof {
        reveal_strlit("ftp");
        reveal_strlit("ssh");
        reveal_strlit("telnet");
        reveal_strlit("smtp");
        reveal_strlit("dns");
        reveal_strlit("http");
        reveal_strlit("pop3");
        reveal_strlit("imap");
        reveal_strlit("https");
        reveal_strlit("smb");
        reveal_strlit("mysql");
        reveal_strlit("rdp");
        reveal_strlit("postgres");
        reveal_strlit("vnc");
        reveal_strlit("http-alt");
        reveal_strlit("https-alt");
        reveal_strlit("elasticsearch");
        reveal_strlit("unknown");
    }
    name.to_string()
}

} // verus!
