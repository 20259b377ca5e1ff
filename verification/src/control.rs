//! The device-facing operations: which request each one sends.
//!
//! Every operation first looks up the control URL of the service it needs
//! and fails with `ControlUrlUnavailable` when the device exposes none; no
//! request exists in that case, so nothing can be sent.

use crate::decimal::{decimal, decimal_text};
use crate::device::{CastError, ProjectorInfo, Service};
use crate::soap::{
    outcome_view, reply_outcome, request_for, soap_response, HttpReply, SoapRequest,
};
use crate::text::string_of;
use vstd::prelude::*;

verus! {

/// Arguments that address the one transport or rendering instance.
pub const INSTANCE_ARGS: &'static str = "<InstanceID>0</InstanceID>";

/// Arguments of `Play`: normal speed.
pub const PLAY_ARGS: &'static str = "<InstanceID>0</InstanceID><Speed>1</Speed>";

/// Arguments of `GetVolume`: the master channel.
pub const CHANNEL_ARGS: &'static str = "<InstanceID>0</InstanceID><Channel>Master</Channel>";

/// Arguments of `SetAVTransportURI` up to the media URL.
pub const URI_OPEN: &'static str = "<InstanceID>0</InstanceID><CurrentURI>";

/// Arguments of `SetAVTransportURI` after the media URL: empty metadata.
pub const URI_CLOSE: &'static str = "</CurrentURI><CurrentURIMetaData></CurrentURIMetaData>";

/// Arguments of `Seek` up to the target time.
pub const SEEK_OPEN: &'static str = "<InstanceID>0</InstanceID><Unit>REL_TIME</Unit><Target>";

/// Arguments of `Seek` after the target time.
pub const SEEK_CLOSE: &'static str = "</Target>";

/// Arguments of `SetVolume` up to the volume.
pub const VOLUME_OPEN: &'static str =
    "<InstanceID>0</InstanceID><Channel>Master</Channel><DesiredVolume>";

/// Arguments of `SetVolume` after the volume.
pub const VOLUME_CLOSE: &'static str = "</DesiredVolume>";

/// Arguments of `SetMute` up to the flag.
pub const MUTE_OPEN: &'static str =
    "<InstanceID>0</InstanceID><Channel>Master</Channel><DesiredMute>";

/// Arguments of `SetMute` after the flag.
pub const MUTE_CLOSE: &'static str = "</DesiredMute>";

/// Arguments of `SetAVTransportURI` for the media at `video_url`.
pub open spec fn uri_args(video_url: Seq<char>) -> Seq<char> {
    URI_OPEN@ + video_url + URI_CLOSE@
}

/// Arguments of `Seek` to `target_time`.
pub open spec fn seek_args(target_time: Seq<char>) -> Seq<char> {
    SEEK_OPEN@ + target_time + SEEK_CLOSE@
}

/// Arguments of `SetVolume` to `volume`, written in decimal.
pub open spec fn volume_args(volume: u8) -> Seq<char> {
    VOLUME_OPEN@ + decimal_text(volume as nat) + VOLUME_CLOSE@
}

/// Arguments of `SetMute`: `1` to mute, `0` to unmute.
pub open spec fn mute_args(mute: bool) -> Seq<char> {
    MUTE_OPEN@ + (if mute {
        seq!['1']
    } else {
        seq!['0']
    }) + MUTE_CLOSE@
}

impl ProjectorInfo {
    /// Casts the media at `video_url`, first step: the request that sets it
    /// as the transport's URI. What comes of sending it goes to
    /// `play_after_cast`.
    pub fn cast_video(&self, video_url: String) -> (req: Result<SoapRequest, CastError>)
        ensures
            outcome_view(req) == request_for(
                self@,
                Service::AvTransport,
                "SetAVTransportURI"@,
                uri_args(video_url@),
            ),
    {
        let mut args = String::new();
        args.append(URI_OPEN);
        args.append(video_url.as_str());
        args.append(URI_CLOSE);
        assert(args@ =~= uri_args(video_url@));
        self.action_request(Service::AvTransport, "SetAVTransportURI", args.as_str())
    }

    /// Casts a media, second step: given what came of setting the
    /// transport's URI, the request that starts playback. When setting the
    /// URI failed, its error is handed on and there is no request to send.
    pub fn play_after_cast(&self, set_uri: HttpReply) -> (req: Result<SoapRequest, CastError>)
        ensures
            match reply_outcome(set_uri) {
                Ok(_) => outcome_view(req) == request_for(
                    self@,
                    Service::AvTransport,
                    "Play"@,
                    PLAY_ARGS@,
                ),
                Err(e) => req == Err::<SoapRequest, CastError>(e),
            },
    {
        match soap_response(set_uri) {
            Ok(_) => self.play(),
            Err(e) => Err(e),
        }
    }

    /// Starts playback at normal speed.
    pub fn play(&self) -> (req: Result<SoapRequest, CastError>)
        ensures
            outcome_view(req) == request_for(self@, Service::AvTransport, "Play"@, PLAY_ARGS@),
    {
        self.action_request(Service::AvTransport, "Play", PLAY_ARGS)
    }

    /// Pauses playback.
    pub fn pause(&self) -> (req: Result<SoapRequest, CastError>)
        ensures
            outcome_view(req) == request_for(
                self@,
                Service::AvTransport,
                "Pause"@,
                INSTANCE_ARGS@,
            ),
    {
        self.action_request(Service::AvTransport, "Pause", INSTANCE_ARGS)
    }

    /// Stops playback.
    pub fn stop(&self) -> (req: Result<SoapRequest, CastError>)
        ensures
            outcome_view(req) == request_for(self@, Service::AvTransport, "Stop"@, INSTANCE_ARGS@),
    {
        self.action_request(Service::AvTransport, "Stop", INSTANCE_ARGS)
    }

    /// Jumps to `target_time`, written `HH:MM:SS`.
    pub fn seek(&self, target_time: String) -> (req: Result<SoapRequest, CastError>)
        ensures
            outcome_view(req) == request_for(
                self@,
                Service::AvTransport,
                "Seek"@,
                seek_args(target_time@),
            ),
    {
        let mut args = String::new();
        args.append(SEEK_OPEN);
        args.append(target_time.as_str());
        args.append(SEEK_CLOSE);
        assert(args@ =~= seek_args(target_time@));
        self.action_request(Service::AvTransport, "Seek", args.as_str())
    }

    /// Sets the volume of the master channel. The value is passed on as
    /// given: nothing here clamps it to the range a device accepts.
    pub fn set_volume(&self, volume: u8) -> (req: Result<SoapRequest, CastError>)
        ensures
            outcome_view(req) == request_for(
                self@,
                Service::RenderingControl,
                "SetVolume"@,
                volume_args(volume),
            ),
            self@.rendering_control_url is None ==> req == Err::<SoapRequest, CastError>(
                CastError::ControlUrlUnavailable(Service::RenderingControl),
            ),
    {
        let level: u64 = volume as u64;
        let digits = string_of(&decimal(level));
        let mut args = String::new();
        args.append(VOLUME_OPEN);
        args.append(digits.as_str());
        args.append(VOLUME_CLOSE);
        assert(args@ =~= volume_args(volume));
        self.action_request(Service::RenderingControl, "SetVolume", args.as_str())
    }

    /// Asks for the volume of the master channel.
    pub fn get_volume(&self) -> (req: Result<SoapRequest, CastError>)
        ensures
            outcome_view(req) == request_for(
                self@,
                Service::RenderingControl,
                "GetVolume"@,
                CHANNEL_ARGS@,
            ),
    {
        self.action_request(Service::RenderingControl, "GetVolume", CHANNEL_ARGS)
    }

    /// Mutes or unmutes the master channel.
    pub fn set_mute(&self, mute: bool) -> (req: Result<SoapRequest, CastError>)
        ensures
            outcome_view(req) == request_for(
                self@,
                Service::RenderingControl,
                "SetMute"@,
                mute_args(mute),
            ),
    {
        let flag = if mute {
            "1"
        } else {
            "0"
        };
        proof {
            reveal_strlit("1");
            reveal_strlit("0");
        }
        let mut args = String::new();
        args.append(MUTE_OPEN);
        args.append(flag);
        args.append(MUTE_CLOSE);
        assert(args@ =~= mute_args(mute));
        self.action_request(Service::RenderingControl, "SetMute", args.as_str())
    }

    /// Asks for the playback position and the track's duration. The same
    /// request serves the reading as text and the reading in seconds.
    pub fn get_position_info(&self) -> (req: Result<SoapRequest, CastError>)
        ensures
            outcome_view(req) == request_for(
                self@,
                Service::AvTransport,
                "GetPositionInfo"@,
                INSTANCE_ARGS@,
            ),
    {
        self.action_request(Service::AvTransport, "GetPositionInfo", INSTANCE_ARGS)
    }

    /// Asks for the playback position and the track's duration, to be read
    /// in seconds.
    pub fn get_position_info_sec(&self) -> (req: Result<SoapRequest, CastError>)
        ensures
            outcome_view(req) == request_for(
                self@,
                Service::AvTransport,
                "GetPositionInfo"@,
                INSTANCE_ARGS@,
            ),
    {
        self.get_position_info()
    }

    /// Asks for the transport state.
    pub fn get_transport_info(&self) -> (req: Result<SoapRequest, CastError>)
        ensures
            outcome_view(req) == request_for(
                self@,
                Service::AvTransport,
                "GetTransportInfo"@,
                INSTANCE_ARGS@,
            ),
    {
        self.action_request(Service::AvTransport, "GetTransportInfo", INSTANCE_ARGS)
    }
}

} // verus!
