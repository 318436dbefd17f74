use footager::config::{port_to_string, ConfigFile};
use footager::domain::ChooseDomain;

#[test]
fn domain_cookie_files() {
    assert_eq!(ChooseDomain::Artgrid.get_domain(), "artgrid_cookies.json");
    assert_eq!(ChooseDomain::Artlist.get_domain(), "artlist_cookies.json");
    assert_eq!(ChooseDomain::Envato.get_domain(), "envato_cookies.json");
    assert_eq!(ChooseDomain::BadDomain.get_domain(), "bad");
}

#[test]
fn domain_origins() {
    assert_eq!(ChooseDomain::Artgrid.get_origin_domain(), "https://artgrid.io/");
    assert_eq!(ChooseDomain::Artlist.get_origin_domain(), "https://artlist.io");
    assert_eq!(ChooseDomain::Envato.get_origin_domain(), "https://elements.envato.com");
    assert_eq!(ChooseDomain::BadDomain.get_origin_domain(), "bad");
}

#[test]
fn domain_compare() {
    assert!(ChooseDomain::Artgrid.compare_domain(ChooseDomain::Artgrid));
    assert!(!ChooseDomain::Artgrid.compare_domain(ChooseDomain::Envato));
}

#[test]
fn domain_from_host() {
    assert_eq!(ChooseDomain::from(Some("artgrid.io")), ChooseDomain::Artgrid);
    assert_eq!(ChooseDomain::from(Some("artlist.io")), ChooseDomain::Artlist);
    assert_eq!(ChooseDomain::from(Some("elements.envato.com")), ChooseDomain::Envato);
    assert_eq!(ChooseDomain::from(Some("artgrid.iox")), ChooseDomain::BadDomain);
    assert_eq!(ChooseDomain::from(Some("")), ChooseDomain::BadDomain);
    assert_eq!(ChooseDomain::from(None), ChooseDomain::BadDomain);
}

#[test]
fn domain_display_names() {
    assert_eq!(ChooseDomain::Artgrid.to_string(), "artgrid.io");
    assert_eq!(ChooseDomain::Artlist.to_string(), "artlist.io");
    assert_eq!(ChooseDomain::Envato.to_string(), "elements.envato.com");
    assert_eq!(ChooseDomain::BadDomain.to_string(), "bad domain");
}

#[test]
fn domain_display_reads_back() {
    for d in [
        ChooseDomain::Artgrid,
        ChooseDomain::Artlist,
        ChooseDomain::Envato,
        ChooseDomain::BadDomain,
    ] {
        let shown = d.to_string();
        assert_eq!(ChooseDomain::from(Some(shown.as_str())), d);
    }
}

#[test]
fn config_default_values() {
    let c = ConfigFile::default();
    assert_eq!(c.geckodriver_path, "./src/geckodriver_mac");
    assert_eq!(c.driver_address, "http://localhost");
    assert_eq!(c.port, 4444);
}

#[test]
fn config_full_address() {
    let c = ConfigFile::default();
    assert_eq!(c.get_full_address(), "http://http://localhost:4444");
    let c = ConfigFile {
        geckodriver_path: String::new(),
        driver_address: "127.0.0.1".to_string(),
        port: 0,
    };
    assert_eq!(c.get_full_address(), "http://127.0.0.1:0");
}

#[test]
fn port_digits() {
    assert_eq!(port_to_string(0), "0");
    assert_eq!(port_to_string(9), "9");
    assert_eq!(port_to_string(10), "10");
    assert_eq!(port_to_string(4444), "4444");
    assert_eq!(port_to_string(65535), "65535");
    for p in [1u16, 42, 100, 999, 1000, 30001, 65534] {
        assert_eq!(port_to_string(p), p.to_string());
    }
}
