use upnp_cast::device::{CastError, ProjectorInfo, Service, AV_SERVICE, RC_SERVICE};

fn device(av: Option<&str>, rc: Option<&str>) -> ProjectorInfo {
    ProjectorInfo {
        friendly_name: "Living room".to_string(),
        ip: "10.0.0.5".to_string(),
        location_xml_url: "http://10.0.0.5:80/desc.xml".to_string(),
        av_transport_url: av.map(|s| s.to_string()),
        rendering_control_url: rc.map(|s| s.to_string()),
    }
}

#[test]
fn service_types() {
    assert_eq!(AV_SERVICE, "urn:schemas-upnp-org:service:AVTransport:1");
    assert_eq!(RC_SERVICE, "urn:schemas-upnp-org:service:RenderingControl:1");
    assert_eq!(Service::AvTransport.service_type(), AV_SERVICE);
    assert_eq!(Service::RenderingControl.service_type(), RC_SERVICE);
}

#[test]
fn get_av_url_present_and_absent() {
    let d = device(Some("http://10.0.0.5:80/av"), None);
    assert_eq!(d.get_av_url(), Ok("http://10.0.0.5:80/av"));
    let d = device(None, Some("http://10.0.0.5:80/rc"));
    assert_eq!(
        d.get_av_url(),
        Err(CastError::ControlUrlUnavailable(Service::AvTransport))
    );
}

#[test]
fn get_rc_url_present_and_absent() {
    let d = device(None, Some("http://10.0.0.5:80/rc"));
    assert_eq!(d.get_rc_url(), Ok("http://10.0.0.5:80/rc"));
    let d = device(Some("http://10.0.0.5:80/av"), None);
    assert_eq!(
        d.get_rc_url(),
        Err(CastError::ControlUrlUnavailable(Service::RenderingControl))
    );
}

#[test]
fn duplicate_keeps_fields() {
    let d = device(Some("http://10.0.0.5:80/av"), None);
    let c = d.duplicate();
    assert_eq!(c.friendly_name, "Living room");
    assert_eq!(c.ip, "10.0.0.5");
    assert_eq!(c.location_xml_url, "http://10.0.0.5:80/desc.xml");
    assert_eq!(c.av_transport_url.as_deref(), Some("http://10.0.0.5:80/av"));
    assert_eq!(c.rendering_control_url, None);
}

#[test]
fn error_messages() {
    assert_eq!(CastError::Discovery.message(), "SSDP search failed");
    assert_eq!(
        CastError::Descriptor.message(),
        "device description could not be fetched"
    );
    assert_eq!(
        CastError::ControlUrlUnavailable(Service::AvTransport).message(),
        "AVTransport URL not available for this device"
    );
    assert_eq!(
        CastError::ControlUrlUnavailable(Service::RenderingControl).message(),
        "RenderingControl URL not available for this device"
    );
    assert_eq!(CastError::ControlTransport.message(), "SOAP Request failed");
    assert_eq!(
        CastError::ControlStatus(500).message(),
        "SOAP Request failed: 500"
    );
    assert_eq!(
        CastError::InvalidMacFormat.message(),
        "Invalid MAC address format"
    );
}
