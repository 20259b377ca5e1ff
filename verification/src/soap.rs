//! Framing of SOAP control requests and reading of the HTTP outcome.

use crate::device::{CastError, DeviceModel, ProjectorInfo, Service};
use vstd::prelude::*;

verus! {

/// Value of the `Content-Type` header of every control request.
pub const CONTENT_TYPE: &'static str = "text/xml; charset=\"utf-8\"";

/// The envelope up to the name of the action element.
pub const ENVELOPE_HEAD: &'static str =
    "<?xml version=\"1.0\" encoding=\"utf-8\"?>\n        <s:Envelope s:encodingStyle=\"http://schemas.xmlsoap.org/soap/encoding/\" xmlns:s=\"http://schemas.xmlsoap.org/soap/envelope/\">\n            <s:Body>\n                <u:";

/// Between the action's name and the service type.
pub const NAMESPACE_OPEN: &'static str = " xmlns:u=\"";

/// Between the service type and the arguments.
pub const NAMESPACE_CLOSE: &'static str = "\">\n                    ";

/// Between the arguments and the closing action element's name.
pub const ACTION_CLOSE: &'static str = "\n                </u:";

/// The envelope after the closing action element's name.
pub const ENVELOPE_TAIL: &'static str = ">\n            </s:Body>\n        </s:Envelope>";

/// A control request, ready to be posted.
#[derive(Debug)]
pub struct SoapRequest {
    /// Where to post it.
    pub control_url: String,
    /// Value of the `Content-Type` header.
    pub content_type: String,
    /// Value of the `SOAPACTION` header.
    pub soap_action: String,
    /// The envelope.
    pub body: String,
}

/// Mathematical model of a `SoapRequest`.
pub ghost struct RequestModel {
    pub control_url: Seq<char>,
    pub content_type: Seq<char>,
    pub soap_action: Seq<char>,
    pub body: Seq<char>,
}

impl View for SoapRequest {
    type V = RequestModel;

    open spec fn view(&self) -> RequestModel {
        RequestModel {
            control_url: self.control_url@,
            content_type: self.content_type@,
            soap_action: self.soap_action@,
            body: self.body@,
        }
    }
}

/// The SOAP 1.1 envelope of one action: a body element named after the
/// action, in the namespace of the service type, around the arguments as
/// given.
pub open spec fn envelope(service_type: Seq<char>, action: Seq<char>, args: Seq<char>) -> Seq<
    char,
> {
    ENVELOPE_HEAD@ + action + NAMESPACE_OPEN@ + service_type + NAMESPACE_CLOSE@ + args
        + ACTION_CLOSE@ + action + ENVELOPE_TAIL@
}

/// Value of the `SOAPACTION` header: the service type, `#` and the action,
/// in double quotes.
pub open spec fn soap_action_value(service_type: Seq<char>, action: Seq<char>) -> Seq<char> {
    seq!['"'] + service_type + seq!['#'] + action + seq!['"']
}

/// The request that invokes `action` of `service_type` with `args` at
/// `control_url`.
pub open spec fn request_model(
    control_url: Seq<char>,
    service_type: Seq<char>,
    action: Seq<char>,
    args: Seq<char>,
) -> RequestModel {
    RequestModel {
        control_url,
        content_type: CONTENT_TYPE@,
        soap_action: soap_action_value(service_type, action),
        body: envelope(service_type, action, args),
    }
}

/// Frames the request that invokes `action` of `service_type` with the
/// argument XML `args` at `control_url`.
pub fn send_soap_action(control_url: &str, service_type: &str, action: &str, args: &str) -> (req:
    SoapRequest)
    ensures
        req@ == request_model(control_url@, service_type@, action@, args@),
{
    let mut body = String::new();
    body.append(ENVELOPE_HEAD);
    body.append(action);
    body.append(NAMESPACE_OPEN);
    body.append(service_type);
    body.append(NAMESPACE_CLOSE);
    body.append(args);
    body.append(ACTION_CLOSE);
    body.append(action);
    body.append(ENVELOPE_TAIL);
    assert(body@ =~= envelope(service_type@, action@, args@));
    let mut soap_action = String::new();
    let quote = "\"";
    let hash = "#";
    proof {
        reveal_strlit("\"");
        reveal_strlit("#");
    }
    soap_action.append(quote);
    soap_action.append(service_type);
    soap_action.append(hash);
    soap_action.append(action);
    soap_action.append(quote);
    assert(soap_action@ =~= soap_action_value(service_type@, action@));
    SoapRequest {
        control_url: control_url.to_owned(),
        content_type: CONTENT_TYPE.to_owned(),
        soap_action,
        body,
    }
}

/// What came of posting a control request.
#[derive(Debug)]
pub enum HttpReply {
    /// The request could not be delivered.
    Unreachable,
    /// The device answered with `status`; `body` is the answer's text, or
    /// `None` when it could not be read.
    Answered { status: u16, body: Option<String> },
}

/// Whether `status` is one of the HTTP success codes, 200 to 299.
pub open spec fn is_success(status: u16) -> bool {
    200 <= status <= 299
}

/// What an outcome amounts to: the answer's text exactly when the device
/// answered with a success status and the answer could be read; the status
/// in the error when it is no success status.
pub open spec fn reply_outcome(reply: HttpReply) -> Result<String, CastError> {
    match reply {
        HttpReply::Unreachable => Err(CastError::ControlTransport),
        HttpReply::Answered { status, body } => if !is_success(status) {
            Err(CastError::ControlStatus(status))
        } else {
            match body {
                Some(b) => Ok(b),
                None => Err(CastError::ControlTransport),
            }
        },
    }
}

/// The response text of a control request, or the error its outcome
/// amounts to.
pub fn soap_response(reply: HttpReply) -> (text: Result<String, CastError>)
    ensures
        text == reply_outcome(reply),
{
    match reply {
        HttpReply::Unreachable => Err(CastError::ControlTransport),
        HttpReply::Answered { status, body } => {
            if status < 200 || status > 299 {
                Err(CastError::ControlStatus(status))
            } else {
                match body {
                    Some(b) => Ok(b),
                    None => Err(CastError::ControlTransport),
                }
            }
        },
    }
}

/// The control URL that `device` exposes for `service`.
pub open spec fn control_url_of(device: DeviceModel, service: Service) -> Option<Seq<char>> {
    match service {
        Service::AvTransport => device.av_transport_url,
        Service::RenderingControl => device.rendering_control_url,
    }
}

/// The request that invokes `action` of `service` with `args` on `device`,
/// or the error that says the device exposes no control URL for it.
pub open spec fn request_for(
    device: DeviceModel,
    service: Service,
    action: Seq<char>,
    args: Seq<char>,
) -> Result<RequestModel, CastError> {
    match control_url_of(device, service) {
        Some(url) => Ok(request_model(url, service.urn(), action, args)),
        None => Err(CastError::ControlUrlUnavailable(service)),
    }
}

/// The model of a request or the error in its place.
pub open spec fn outcome_view(r: Result<SoapRequest, CastError>) -> Result<
    RequestModel,
    CastError,
> {
    match r {
        Ok(req) => Ok(req@),
        Err(e) => Err(e),
    }
}

impl ProjectorInfo {
    /// Frames `action` of `service` with `args` for this device. Fails,
    /// before anything is framed, when the device exposes no control URL
    /// for the service.
    pub fn action_request(&self, service: Service, action: &str, args: &str) -> (req: Result<
        SoapRequest,
        CastError,
    >)
        ensures
            outcome_view(req) == request_for(self@, service, action@, args@),
    {
        let url = match service {
            Service::AvTransport => self.get_av_url(),
            Service::RenderingControl => self.get_rc_url(),
        };
        match url {
            Ok(u) => Ok(send_soap_action(u, service.service_type(), action, args)),
            Err(e) => Err(e),
        }
    }
}

} // verus!
