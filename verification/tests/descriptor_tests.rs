use upnp_cast::descriptor::{
    base_url, describe, host_of_url, parse_device_xml, resolve, resolve_url, starts_with_scheme,
    UNKNOWN_DEVICE,
};
use upnp_cast::device::CastError;

const FULL: &str = "<?xml version=\"1.0\"?>\n<root>\n <device>\n  <friendlyName>Living Room TV</friendlyName>\n  <serviceList>\n   <service>\n    <serviceType>urn:schemas-upnp-org:service:AVTransport:1</serviceType>\n    <serviceId>urn:upnp-org:serviceId:AVTransport</serviceId>\n    <controlURL>/AVTransport/control</controlURL>\n   </service>\n   <service>\n    <serviceType>urn:schemas-upnp-org:service:RenderingControl:1</serviceType>\n    <controlURL>http://10.0.0.5:8080/rc</controlURL>\n   </service>\n  </serviceList>\n </device>\n</root>";

const NO_RC: &str = "<root><device><friendlyName>Beamer</friendlyName><serviceList><service><serviceType>urn:schemas-upnp-org:service:AVTransport:1</serviceType><controlURL>_urn:schemas-upnp-org:service:AVTransport_control</controlURL></service></serviceList></device></root>";

#[test]
fn relative_control_url_is_resolved() {
    assert_eq!(
        resolve_url(&base_url("http://10.0.0.5:80/desc.xml"), "/AVTransport/control"),
        "http://10.0.0.5:80/AVTransport/control"
    );
}

#[test]
fn resolve_url_joins_relative_paths() {
    assert_eq!(resolve_url("http://h:1", "a/b"), "http://h:1/a/b");
    assert_eq!(resolve_url("http://h:1", "///a"), "http://h:1/a");
    assert_eq!(resolve_url("http://h:1", ""), "http://h:1/");
    assert_eq!(resolve_url("http://h:1", "/"), "http://h:1/");
    assert_eq!(resolve_url("http://h:1", "htt"), "http://h:1/htt");
    assert_eq!(resolve_url("http://h:1", "httpx"), "http://h:1/httpx");
    assert_eq!(resolve_url("http://h:1", "httpd/ctl"), "http://h:1/httpd/ctl");
    assert_eq!(resolve_url("http://h:1", "/upnp/control?x=a:b"), "http://h:1/upnp/control?x=a:b");
    assert_eq!(resolve_url("", "x"), "/x");
}

#[test]
fn resolve_url_keeps_urls_with_a_scheme() {
    assert_eq!(resolve_url("http://h:1", "http://other/x"), "http://other/x");
    assert_eq!(resolve_url("http://h:1", "https://10.0.0.9:8443/ctl"), "https://10.0.0.9:8443/ctl");
    assert_eq!(resolve_url("http://h:1", "rtsp://h/ctl"), "rtsp://h/ctl");
    assert_eq!(resolve_url("http://h:1", "HTTP://H/ctl"), "HTTP://H/ctl");
    assert_eq!(resolve_url("http://h:1", "a+b-c.d2://x"), "a+b-c.d2://x");
    assert_eq!(resolve_url("http://h:1", "x://"), "x://");
}

#[test]
fn resolve_url_needs_a_whole_scheme() {
    assert_eq!(resolve_url("http://h", "://x"), "http://h/://x");
    assert_eq!(resolve_url("http://h", "1http://x"), "http://h/1http://x");
    assert_eq!(resolve_url("http://h", "+a://x"), "http://h/+a://x");
    assert_eq!(resolve_url("http://h", "ht tp://x"), "http://h/ht tp://x");
    assert_eq!(resolve_url("http://h", "ht_tp://x"), "http://h/ht_tp://x");
    assert_eq!(resolve_url("http://h", "http:/x"), "http://h/http:/x");
    assert_eq!(resolve_url("http://h", "http:x"), "http://h/http:x");
    assert_eq!(resolve_url("http://h", "mailto:x"), "http://h/mailto:x");
    assert_eq!(resolve_url("http://h", "/a:b://c"), "http://h/a:b://c");
    assert_eq!(resolve_url("http://h", "é://x"), "http://h/é://x");
    assert_eq!(resolve_url("http://h", "a:b://c"), "http://h/a:b://c");
}

#[test]
fn starts_with_scheme_cases() {
    for (text, want) in [
        ("http://x", true),
        ("rtsp://h/ctl", true),
        ("a://", true),
        ("a1+-.://", true),
        ("", false),
        (":", false),
        ("://", false),
        ("a:/", false),
        ("a:", false),
        ("a", false),
        ("9a://x", false),
        ("a b://x", false),
        ("/a://x", false),
    ] {
        let chars: Vec<char> = text.chars().collect();
        assert_eq!(starts_with_scheme(&chars), want, "{:?}", text);
    }
}

#[test]
fn control_urls_of_a_record_are_absolute() {
    let xml = "<serviceType>urn:schemas-upnp-org:service:AVTransport:1</serviceType><controlURL>httpd/ctl</controlURL><serviceType>urn:schemas-upnp-org:service:RenderingControl:1</serviceType><controlURL>rtsp://h/ctl</controlURL>";
    let info = parse_device_xml("http://10.0.0.5:80/desc.xml", xml);
    assert_eq!(info.av_transport_url.as_deref(), Some("http://10.0.0.5:80/httpd/ctl"));
    assert_eq!(info.rendering_control_url.as_deref(), Some("rtsp://h/ctl"));
    let bare = parse_device_xml("http://10.0.0.5", xml);
    assert_eq!(bare.av_transport_url.as_deref(), Some("http://httpd/ctl"));
}

#[test]
fn base_url_cuts_at_last_slash() {
    assert_eq!(base_url("http://10.0.0.5:80/desc.xml"), "http://10.0.0.5:80");
    assert_eq!(base_url("http://h/a/b/c.xml"), "http://h/a/b");
    assert_eq!(base_url("http://h/a/"), "http://h/a");
    assert_eq!(base_url("no-slash"), "no-slash");
    assert_eq!(base_url(""), "");
    assert_eq!(base_url("http://h"), "http:/");
}

#[test]
fn host_of_url_cases() {
    assert_eq!(host_of_url("http://10.0.0.5:80/desc.xml"), "10.0.0.5");
    assert_eq!(host_of_url("http://10.0.0.5/desc.xml"), "10.0.0.5");
    assert_eq!(host_of_url("http://10.0.0.5"), "10.0.0.5");
    assert_eq!(host_of_url("http://"), "");
    assert_eq!(host_of_url("10.0.0.5:80/desc.xml"), "");
    assert_eq!(host_of_url(""), "");
    assert_eq!(host_of_url("a://b://c"), "b");
    assert_eq!(host_of_url("x://:9"), "");
}

#[test]
fn parse_device_xml_full_document() {
    let info = parse_device_xml("http://10.0.0.5:80/desc.xml", FULL);
    assert_eq!(info.friendly_name, "Living Room TV");
    assert_eq!(info.ip, "10.0.0.5");
    assert_eq!(info.location_xml_url, "http://10.0.0.5:80/desc.xml");
    assert_eq!(
        info.av_transport_url.as_deref(),
        Some("http://10.0.0.5:80/AVTransport/control")
    );
    assert_eq!(info.rendering_control_url.as_deref(), Some("http://10.0.0.5:8080/rc"));
}

#[test]
fn parse_device_xml_without_rendering_control() {
    let info = parse_device_xml("http://192.168.1.20:49152/description.xml", NO_RC);
    assert_eq!(info.friendly_name, "Beamer");
    assert_eq!(info.ip, "192.168.1.20");
    assert_eq!(
        info.av_transport_url.as_deref(),
        Some("http://192.168.1.20:49152/_urn:schemas-upnp-org:service:AVTransport_control")
    );
    assert_eq!(info.rendering_control_url, None);
}

#[test]
fn parse_device_xml_empty_document() {
    let info = parse_device_xml("http://192.168.1.20/d.xml", "");
    assert_eq!(info.friendly_name, UNKNOWN_DEVICE);
    assert_eq!(info.friendly_name, "unknown device");
    assert_eq!(info.ip, "192.168.1.20");
    assert_eq!(info.av_transport_url, None);
    assert_eq!(info.rendering_control_url, None);
}

#[test]
fn parse_device_xml_takes_first_name() {
    let xml = "<friendlyName>One</friendlyName><friendlyName>Two</friendlyName>";
    assert_eq!(parse_device_xml("http://h/d", xml).friendly_name, "One");
    let split = "<friendlyName>On\ne</friendlyName><friendlyName>Two</friendlyName>";
    assert_eq!(parse_device_xml("http://h/d", split).friendly_name, "Two");
}

#[test]
fn describe_from_captures() {
    let info = describe(
        "http://10.0.0.5:80/desc.xml",
        None,
        Some("ctl/av".to_string()),
        Some("http://x/rc".to_string()),
    );
    assert_eq!(info.friendly_name, "unknown device");
    assert_eq!(info.ip, "10.0.0.5");
    assert_eq!(info.av_transport_url.as_deref(), Some("http://10.0.0.5:80/ctl/av"));
    assert_eq!(info.rendering_control_url.as_deref(), Some("http://x/rc"));
    let bare = describe("http://10.0.0.5:80/desc.xml", Some("N".to_string()), None, None);
    assert_eq!(bare.friendly_name, "N");
    assert_eq!(bare.av_transport_url, None);
    assert_eq!(bare.rendering_control_url, None);
}

#[test]
fn resolve_fetched_and_failed() {
    let info = resolve("http://192.168.1.20:49152/description.xml", Some(NO_RC.to_string())).unwrap();
    assert_eq!(info.friendly_name, "Beamer");
    assert_eq!(info.rendering_control_url, None);
    let failed = resolve("http://192.168.1.20:49152/description.xml", None);
    assert_eq!(failed.err(), Some(CastError::Descriptor));
}
