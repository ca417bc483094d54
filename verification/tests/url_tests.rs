use meroctl::{fetch_multiaddr, multiaddr_to_url, AddrPart, UrlError};

#[test]
fn url_from_ip_and_port_defaults_to_http() {
    let parts = vec![AddrPart::Ip4(127, 0, 0, 1), AddrPart::Tcp(2428)];
    let url = multiaddr_to_url(&parts, "admin-api/dev/peers").unwrap();
    assert_eq!(url, "http://127.0.0.1:2428/admin-api/dev/peers");
}

#[test]
fn url_honours_an_https_marker() {
    let parts = vec![AddrPart::Ip4(10, 0, 0, 2), AddrPart::Tcp(443), AddrPart::Https];
    let url = multiaddr_to_url(&parts, "x").unwrap();
    assert_eq!(url, "https://10.0.0.2:443/x");
}

#[test]
fn url_takes_the_last_of_repeated_components() {
    let parts = vec![
        AddrPart::Ip4(1, 2, 3, 4),
        AddrPart::Tcp(80),
        AddrPart::Http,
        AddrPart::Ip4(5, 6, 7, 8),
        AddrPart::Tcp(81),
        AddrPart::Https,
    ];
    let url = multiaddr_to_url(&parts, "p").unwrap();
    assert_eq!(url, "https://5.6.7.8:81/p");
}

#[test]
fn url_ignores_unrelated_components() {
    let parts = vec![AddrPart::Other, AddrPart::Ip4(127, 0, 0, 1), AddrPart::Other, AddrPart::Tcp(1)];
    let url = multiaddr_to_url(&parts, "").unwrap();
    assert_eq!(url, "http://127.0.0.1:1/");
}

#[test]
fn url_keeps_a_path_that_already_leads_with_a_slash() {
    let parts = vec![AddrPart::Ip4(127, 0, 0, 1), AddrPart::Tcp(80)];
    let url = multiaddr_to_url(&parts, "/already").unwrap();
    assert_eq!(url, "http://127.0.0.1:80/already");
}

#[test]
fn url_without_ip_is_refused() {
    let parts = vec![AddrPart::Tcp(80), AddrPart::Http];
    assert_eq!(multiaddr_to_url(&parts, "p"), Err(UrlError::NoIp));
}

#[test]
fn url_without_port_is_refused() {
    let parts = vec![AddrPart::Ip4(127, 0, 0, 1), AddrPart::Http];
    assert_eq!(multiaddr_to_url(&parts, "p"), Err(UrlError::NoPort));
}

#[test]
fn fetch_multiaddr_takes_the_first_listed_address() {
    let first = vec![AddrPart::Ip4(127, 0, 0, 1), AddrPart::Tcp(1)];
    let second = vec![AddrPart::Ip4(10, 0, 0, 1), AddrPart::Tcp(2)];
    let listen = vec![first.clone(), second];
    assert_eq!(fetch_multiaddr(&listen).unwrap(), &first);
}

#[test]
fn fetch_multiaddr_refuses_an_empty_list() {
    let listen: Vec<Vec<AddrPart>> = Vec::new();
    assert_eq!(fetch_multiaddr(&listen), Err(UrlError::NoAddress));
}
