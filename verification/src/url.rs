use vstd::prelude::*;
use vstd::string::{StrSliceExecFns, StringExecFns};

use crate::error::UrlError;
use crate::num::digits_of;
use crate::num::u64_to_decimal;

verus! {

/// One component of a listen address, reduced to what URL derivation
/// reads: an IPv4 address, a TCP port, a scheme marker, or anything
/// else.
#[derive(Clone, Copy, PartialEq, Eq, Structural, Debug)]
pub enum AddrPart {
    Ip4(u8, u8, u8, u8),
    Tcp(u16),
    Http,
    Https,
    Other,
}

/// The IPv4 address that wins: the last one in the component list.
pub open spec fn last_ip4(parts: Seq<AddrPart>) -> Option<(u8, u8, u8, u8)>
    decreases parts.len(),
{
    if parts.len() == 0 {
        None
    } else {
        match parts.last() {
            AddrPart::Ip4(a, b, c, d) => Some((a, b, c, d)),
            _ => last_ip4(parts.drop_last()),
        }
    }
}

/// The TCP port that wins: the last one in the component list.
pub open spec fn last_port(parts: Seq<AddrPart>) -> Option<u16>
    decreases parts.len(),
{
    if parts.len() == 0 {
        None
    } else {
        match parts.last() {
            AddrPart::Tcp(p) => Some(p),
            _ => last_port(parts.drop_last()),
        }
    }
}

/// The scheme that wins: the last scheme marker, if any.
pub open spec fn last_scheme(parts: Seq<AddrPart>) -> Option<Seq<char>>
    decreases parts.len(),
{
    if parts.len() == 0 {
        None
    } else {
        match parts.last() {
            AddrPart::Http => Some("http"@),
            AddrPart::Https => Some("https"@),
            _ => last_scheme(parts.drop_last()),
        }
    }
}

/// The scheme used when none is given.
pub open spec fn scheme_or_default(parts: Seq<AddrPart>) -> Seq<char> {
    match last_scheme(parts) {
        Some(s) => s,
        None => "http"@,
    }
}

/// A path as a URL carries it: with exactly one leading slash.
pub open spec fn path_with_slash(path: Seq<char>) -> Seq<char> {
    if path.len() > 0 && path[0] == '/' {
        path
    } else {
        "/"@ + path
    }
}

/// The URL text for a scheme, an IPv4 address, a port and a path.
pub open spec fn url_of(
    scheme: Seq<char>,
    ip: (u8, u8, u8, u8),
    port: u16,
    path: Seq<char>,
) -> Seq<char> {
    scheme + "://"@ + digits_of(ip.0 as int) + "."@ + digits_of(ip.1 as int) + "."@ + digits_of(
        ip.2 as int,
    ) + "."@ + digits_of(ip.3 as int) + ":"@ + digits_of(port as int) + path_with_slash(path)
}

/// Derives the URL for an API path from a listen address: the last IPv4
/// component gives the host, the last TCP component the port, the last
/// scheme marker the scheme (http when none is present). An address
/// without an IPv4 or TCP component yields no URL.
pub fn multiaddr_to_url(parts: &Vec<AddrPart>, api_path: &str) -> (r: Result<String, UrlError>)
    ensures
        last_ip4(parts@) is None ==> (r matches Err(e) && e is NoIp),
        last_ip4(parts@) is Some && last_port(parts@) is None ==> (r matches Err(e) && e is NoPort),
        last_ip4(parts@) is Some && last_port(parts@) is Some ==> (r matches Ok(url) && url@
            == url_of(
            scheme_or_default(parts@),
            last_ip4(parts@)->0,
            last_port(parts@)->0,
            api_path@,
        )),
{
    let mut ip: Option<(u8, u8, u8, u8)> = None;
    let mut port: Option<u16> = None;
    let mut scheme: Option<&'static str> = None;
    let mut i: usize = 0;
    while i < parts.len()
        invariant
            0 <= i <= parts@.len(),
            ip == last_ip4(parts@.subrange(0, i as int)),
            port == last_port(parts@.subrange(0, i as int)),
            match (scheme, last_scheme(parts@.subrange(0, i as int))) {
                (Some(s), Some(t)) => s@ == t,
                (None, None) => true,
                _ => false,
            },
        decreases parts@.len() - i,
    {
        let ghost prefix = parts@.subrange(0, i as int);
        let ghost extended = parts@.subrange(0, i as int + 1);
        proof {
            assert(extended.drop_last() =~= prefix);
            assert(extended.last() == parts@[i as int]);
        }
        match parts[i] {
            AddrPart::Ip4(a, b, c, d) => {
                ip = Some((a, b, c, d));
            },
            AddrPart::Tcp(p) => {
                port = Some(p);
            },
            AddrPart::Http => {
                scheme = Some("http");
            },
            AddrPart::Https => {
                scheme = Some("https");
            },
            AddrPart::Other => {},
        }
        i += 1;
    }
    proof {
        assert(parts@.subrange(0, parts@.len() as int) =~= parts@);
    }
    let (a, b, c, d) = match ip {
        Some(q) => q,
        None => {
            return Err(UrlError::NoIp);
        },
    };
    let p = match port {
        Some(p) => p,
        None => {
            return Err(UrlError::NoPort);
        },
    };
    let scheme_str = match scheme {
        Some(s) => s,
        None => "http",
    };
    let mut url = String::from_str(scheme_str);
    url.append("://");
    let oct0 = u64_to_decimal(a as u64);
    url.append(oct0.as_str());
    url.append(".");
    let oct1 = u64_to_decimal(b as u64);
    url.append(oct1.as_str());
    url.append(".");
    let oct2 = u64_to_decimal(c as u64);
    url.append(oct2.as_str());
    url.append(".");
    let oct3 = u64_to_decimal(d as u64);
    url.append(oct3.as_str());
    url.append(":");
    let port_text = u64_to_decimal(p as u64);
    url.append(port_text.as_str());
    let has_leading_slash = if api_path.unicode_len() > 0 {
        api_path.get_char(0) == '/'
    } else {
        false
    };
    if !has_leading_slash {
        url.append("/");
    }
    url.append(api_path);
    proof {
        assert(url@ =~= url_of(
            scheme_or_default(parts@),
            last_ip4(parts@)->0,
            last_port(parts@)->0,
            api_path@,
        ));
    }
    Ok(url)
}

/// The listen address that requests go to: the first one the
/// configuration lists. An empty list is the no-address error.
pub fn fetch_multiaddr(listen: &Vec<Vec<AddrPart>>) -> (r: Result<&Vec<AddrPart>, UrlError>)
    ensures
        listen@.len() == 0 ==> (r matches Err(e) && e is NoAddress),
        listen@.len() > 0 ==> (r matches Ok(a) && a@ == listen@[0]@),
{
    if listen.len() == 0 {
        Err(UrlError::NoAddress)
    } else {
        Ok(&listen[0])
    }
}

} // verus!
