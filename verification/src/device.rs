//! The device record, the services it may expose, and the error taxonomy.

use crate::decimal::{decimal, decimal_text};
use crate::text::string_of;
use vstd::prelude::*;

verus! {

/// Service type of the playback transport service.
pub const AV_SERVICE: &'static str = "urn:schemas-upnp-org:service:AVTransport:1";

/// Service type of the audio rendering service.
pub const RC_SERVICE: &'static str = "urn:schemas-upnp-org:service:RenderingControl:1";

/// The two services a renderer is driven through.
#[derive(Debug, Clone, Copy, PartialEq, Eq, Structural)]
pub enum Service {
    AvTransport,
    RenderingControl,
}

/// Everything that can go wrong in this library.
#[derive(Debug, Clone, Copy, PartialEq, Eq, Structural)]
pub enum CastError {
    /// Every discovery strategy failed.
    Discovery,
    /// The description document of a device could not be fetched.
    Descriptor,
    /// The device description exposes no control URL for the service.
    ControlUrlUnavailable(Service),
    /// The control request could not be delivered.
    ControlTransport,
    /// The device answered a control request with a status outside 200..=299.
    ControlStatus(u16),
    /// The hardware address is not six bytes of hexadecimal digits.
    InvalidMacFormat,
}

/// A discovered renderer.
#[derive(Debug, Clone)]
pub struct ProjectorInfo {
    pub friendly_name: String,
    pub ip: String,
    pub location_xml_url: String,
    pub av_transport_url: Option<String>,
    pub rendering_control_url: Option<String>,
}

/// Mathematical model of a `ProjectorInfo`.
pub ghost struct DeviceModel {
    pub friendly_name: Seq<char>,
    pub ip: Seq<char>,
    pub location_xml_url: Seq<char>,
    pub av_transport_url: Option<Seq<char>>,
    pub rendering_control_url: Option<Seq<char>>,
}

/// The characters of an optional string.
pub open spec fn opt_view(s: Option<String>) -> Option<Seq<char>> {
    match s {
        Some(t) => Some(t@),
        None => None,
    }
}

impl View for ProjectorInfo {
    type V = DeviceModel;

    open spec fn view(&self) -> DeviceModel {
        DeviceModel {
            friendly_name: self.friendly_name@,
            ip: self.ip@,
            location_xml_url: self.location_xml_url@,
            av_transport_url: opt_view(self.av_transport_url),
            rendering_control_url: opt_view(self.rendering_control_url),
        }
    }
}

impl ProjectorInfo {
    /// The control URL of the playback transport service, or the error
    /// that says the device exposes none.
    pub fn get_av_url(&self) -> (url: Result<&str, CastError>)
        ensures
            match url {
                Ok(u) => self@.av_transport_url == Some(u@),
                Err(e) => self@.av_transport_url is None && e == CastError::ControlUrlUnavailable(
                    Service::AvTransport,
                ),
            },
    {
        match &self.av_transport_url {
            Some(u) => Ok(u.as_str()),
            None => Err(CastError::ControlUrlUnavailable(Service::AvTransport)),
        }
    }

    /// The control URL of the audio rendering service, or the error that
    /// says the device exposes none.
    pub fn get_rc_url(&self) -> (url: Result<&str, CastError>)
        ensures
            match url {
                Ok(u) => self@.rendering_control_url == Some(u@),
                Err(e) => self@.rendering_control_url is None && e
                    == CastError::ControlUrlUnavailable(Service::RenderingControl),
            },
    {
        match &self.rendering_control_url {
            Some(u) => Ok(u.as_str()),
            None => Err(CastError::ControlUrlUnavailable(Service::RenderingControl)),
        }
    }

    /// A copy of this record.
    pub fn duplicate(&self) -> (copy: ProjectorInfo)
        ensures
            copy@ == self@,
    {
        ProjectorInfo {
            friendly_name: self.friendly_name.clone(),
            ip: self.ip.clone(),
            location_xml_url: self.location_xml_url.clone(),
            av_transport_url: match &self.av_transport_url {
                Some(u) => Some(u.clone()),
                None => None,
            },
            rendering_control_url: match &self.rendering_control_url {
                Some(u) => Some(u.clone()),
                None => None,
            },
        }
    }
}

impl Service {
    /// The service type that names this service in control requests.
    pub open spec fn urn(self) -> Seq<char> {
        match self {
            Service::AvTransport => AV_SERVICE@,
            Service::RenderingControl => RC_SERVICE@,
        }
    }

    /// The service type that names this service in control requests.
    pub fn service_type(self) -> (urn: &'static str)
        ensures
            urn@ == self.urn(),
    {
        match self {
            Service::AvTransport => AV_SERVICE,
            Service::RenderingControl => RC_SERVICE,
        }
    }
}

impl CastError {
    /// What the error says, as text.
    pub open spec fn text(self) -> Seq<char> {
        match self {
            CastError::Discovery => "SSDP search failed"@,
            CastError::Descriptor => "device description could not be fetched"@,
            CastError::ControlUrlUnavailable(Service::AvTransport) =>
                "AVTransport URL not available for this device"@,
            CastError::ControlUrlUnavailable(Service::RenderingControl) =>
                "RenderingControl URL not available for this device"@,
            CastError::ControlTransport => "SOAP Request failed"@,
            CastError::ControlStatus(status) => "SOAP Request failed: "@ + decimal_text(
                status as nat,
            ),
            CastError::InvalidMacFormat => "Invalid MAC address format"@,
        }
    }

    /// What the error says, as text.
    pub fn message(&self) -> (text: String)
        ensures
            text@ == self.text(),
    {
        match self {
            CastError::Discovery => "SSDP search failed".to_owned(),
            CastError::Descriptor => "device description could not be fetched".to_owned(),
            CastError::ControlUrlUnavailable(Service::AvTransport) => {
                "AVTransport URL not available for this device".to_owned()
            },
            CastError::ControlUrlUnavailable(Service::RenderingControl) => {
                "RenderingControl URL not available for this device".to_owned()
            },
            CastError::ControlTransport => "SOAP Request failed".to_owned(),
            CastError::ControlStatus(status) => {
                let code: u64 = *status as u64;
                let digits = string_of(&decimal(code));
                let mut text = "SOAP Request failed: ".to_owned();
                text.append(digits.as_str());
                text
            },
            CastError::InvalidMacFormat => "Invalid MAC address format".to_owned(),
        }
    }
}

} // verus!
