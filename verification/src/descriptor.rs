//! From a device's description document to its record.

use crate::device::{opt_view, CastError, DeviceModel, ProjectorInfo};
use crate::pattern::{first_group, regex_first_group};
use crate::text::{
    chars_of, find_char, find_from, find_sub, index_from, last_index_of, lemma_find_from,
    lemma_index_from, lemma_index_from_found, lemma_last_index_of, matches_at, occurs_at,
    rfind_char, slice_of, string_of,
};
use vstd::prelude::*;

verus! {

/// Pattern for the device's display name.
pub const NAME_PATTERN: &'static str = "<friendlyName>(.*?)</friendlyName>";

/// Pattern for the control URL that follows the playback transport
/// service type.
pub const AV_PATTERN: &'static str =
    "<serviceType>urn:schemas-upnp-org:service:AVTransport:1</serviceType>[\\s\\S]*?<controlURL>(.*?)</controlURL>";

/// Pattern for the control URL that follows the audio rendering service
/// type.
pub const RC_PATTERN: &'static str =
    "<serviceType>urn:schemas-upnp-org:service:RenderingControl:1</serviceType>[\\s\\S]*?<controlURL>(.*?)</controlURL>";

/// Display name of a device whose description gives none.
pub const UNKNOWN_DEVICE: &'static str = "unknown device";

/// The directory of `url`: everything before its last `/`, or all of it
/// when it holds none.
pub open spec fn base_of(url: Seq<char>) -> Seq<char> {
    match last_index_of(url, '/') {
        Some(i) => url.take(i),
        None => url,
    }
}

/// `path` without its leading `/` characters.
pub open spec fn strip_slashes(path: Seq<char>) -> Seq<char>
    decreases path.len(),
{
    if path.len() > 0 && path[0] == '/' {
        strip_slashes(path.drop_first())
    } else {
        path
    }
}

/// Whether `c` is an ASCII letter.
pub open spec fn is_ascii_letter(c: char) -> bool {
    ('a' <= c <= 'z') || ('A' <= c <= 'Z')
}

/// Whether `c` may stand in the name of a URL scheme: an ASCII letter or
/// digit, `+`, `-` or `.`.
pub open spec fn is_scheme_char(c: char) -> bool {
    is_ascii_letter(c) || ('0' <= c <= '9') || c == '+' || c == '-' || c == '.'
}

/// Whether the first `n` characters of `path` are the name of a scheme and
/// `://` follows them: the name begins with a letter and goes on with
/// scheme characters.
pub open spec fn scheme_ends_at(path: Seq<char>, n: int) -> bool {
    &&& 1 <= n
    &&& n + 3 <= path.len()
    &&& is_ascii_letter(path[0])
    &&& forall|i: int| 0 <= i < n ==> is_scheme_char(#[trigger] path[i])
    &&& occurs_at(path, "://"@, n)
}

/// Whether `path` has a scheme: it begins with the name of a scheme
/// followed by `://`. The name then ends at the first colon of `path`.
pub open spec fn has_scheme(path: Seq<char>) -> bool {
    scheme_ends_at(path, index_from(path, ':', 0))
}

/// A text has a scheme exactly if some prefix of it is the name of a scheme
/// followed by `://`.
pub proof fn lemma_has_scheme(path: Seq<char>)
    ensures
        has_scheme(path) <==> exists|n: int| scheme_ends_at(path, n),
{
    if exists|n: int| scheme_ends_at(path, n) {
        let n = choose|n: int| scheme_ends_at(path, n);
        reveal_strlit("://");
        assert(path.subrange(n, n + 3)[0] == ':');
        assert forall|j: int| 0 <= j < n implies path[j] != ':' by {
            assert(is_scheme_char(path[j]));
        }
        lemma_index_from_found(path, ':', 0, n);
    }
}

/// The absolute form of a control URL found in a description: itself when
/// it has a scheme, else `base`, a `/`, and the path without leading
/// slashes.
pub open spec fn resolved_url(base: Seq<char>, path: Seq<char>) -> Seq<char> {
    if has_scheme(path) {
        path
    } else {
        base + seq!['/'] + strip_slashes(path)
    }
}

/// A control URL resolved against the directory of a location that has a
/// scheme has a scheme itself.
pub proof fn lemma_resolved_has_scheme(url: Seq<char>, path: Seq<char>)
    requires
        has_scheme(url),
    ensures
        has_scheme(resolved_url(base_of(url), path)),
{
    if !has_scheme(path) {
        reveal_strlit("://");
        let n = index_from(url, ':', 0);
        let sep = url.subrange(n, n + 3);
        assert(sep[0] == ':' && sep[1] == '/' && sep[2] == '/');
        assert(url[n] == ':' && url[n + 1] == '/' && url[n + 2] == '/');
        lemma_last_index_of(url, '/');
        let cut = last_index_of(url, '/')->0;
        assert(cut >= n + 2);
        let out = resolved_url(base_of(url), path);
        assert(out.len() >= cut + 1);
        assert forall|j: int| 0 <= j < cut implies out[j] == url[j] by {}
        assert(out[cut] == '/');
        assert forall|j: int| 0 <= j < n implies out[j] != ':' by {
            assert(is_scheme_char(url[j]));
        }
        lemma_index_from_found(out, ':', 0, n);
        assert forall|i: int| 0 <= i < n implies is_scheme_char(#[trigger] out[i]) by {
            assert(is_scheme_char(url[i]));
        }
        assert(out.subrange(n, n + 3) =~= "://"@);
    }
}

/// Length of the host at the start of `rest`: up to the first `:` or `/`.
pub open spec fn host_len(rest: Seq<char>) -> int {
    let colon = index_from(rest, ':', 0);
    let slash = index_from(rest, '/', 0);
    if colon <= slash {
        colon
    } else {
        slash
    }
}

/// The host of `url`: what stands between the first `://` and the next `:`
/// or `/`; empty when `url` holds no `://`.
pub open spec fn host_of(url: Seq<char>) -> Seq<char> {
    match find_from(url, "://"@, 0) {
        Some(i) => url.subrange(i + 3, i + 3 + host_len(url.skip(i + 3))),
        None => Seq::empty(),
    }
}

/// A host holds neither `:` nor `/`.
pub proof fn lemma_host_of_plain(url: Seq<char>)
    ensures
        forall|i: int|
            0 <= i < host_of(url).len() ==> host_of(url)[i] != ':' && host_of(url)[i] != '/',
{
    match find_from(url, "://"@, 0) {
        Some(at) => {
            lemma_find_from(url, "://"@, 0);
            reveal_strlit("://");
            let rest = url.skip(at + 3);
            lemma_index_from(rest, ':', 0);
            lemma_index_from(rest, '/', 0);
            let host = host_of(url);
            assert forall|i: int| 0 <= i < host.len() implies host[i] != ':' && host[i]
                != '/' by {
                assert(host[i] == rest[i]);
            }
        },
        None => {},
    }
}

/// Whether a control URL, if there is one, has a scheme.
pub open spec fn absolute_or_none(url: Option<Seq<char>>) -> bool {
    match url {
        Some(u) => has_scheme(u),
        None => true,
    }
}

/// The record of the device at `url`, given what was found in its
/// description: the display name and the two control URLs as written there.
pub open spec fn described(
    url: Seq<char>,
    name: Option<Seq<char>>,
    av: Option<Seq<char>>,
    rc: Option<Seq<char>>,
) -> DeviceModel {
    DeviceModel {
        friendly_name: match name {
            Some(n) => n,
            None => UNKNOWN_DEVICE@,
        },
        ip: host_of(url),
        location_xml_url: url,
        av_transport_url: match av {
            Some(p) => Some(resolved_url(base_of(url), p)),
            None => None,
        },
        rendering_control_url: match rc {
            Some(p) => Some(resolved_url(base_of(url), p)),
            None => None,
        },
    }
}

/// The record of the device at `url` whose description document is `xml`.
pub open spec fn device_from(url: Seq<char>, xml: Seq<char>) -> DeviceModel {
    described(
        url,
        regex_first_group(NAME_PATTERN@, xml),
        regex_first_group(AV_PATTERN@, xml),
        regex_first_group(RC_PATTERN@, xml),
    )
}

/// The directory of `url`.
pub fn base_url(url: &str) -> (base: String)
    ensures
        base@ == base_of(url@),
{
    let v = chars_of(url);
    match rfind_char(&v, '/') {
        Some(i) => {
            let head = slice_of(&v, 0, i);
            assert(v@.subrange(0, i as int) =~= v@.take(i as int));
            string_of(&head)
        },
        None => string_of(&v),
    }
}

/// Whether `c` may stand in the name of a URL scheme.
fn scheme_char(c: char) -> (b: bool)
    ensures
        b == is_scheme_char(c),
{
    ('a' <= c && c <= 'z') || ('A' <= c && c <= 'Z') || ('0' <= c && c <= '9') || c == '+' || c
        == '-' || c == '.'
}

/// Whether `path` has a scheme.
pub fn starts_with_scheme(path: &Vec<char>) -> (b: bool)
    ensures
        b == has_scheme(path@),
{
    let n = find_char(path, ':', 0);
    if n < 1 || n >= path.len() {
        proof {
            reveal_strlit("://");
        }
        return false;
    }
    let first: char = path[0];
    if !(('a' <= first && first <= 'z') || ('A' <= first && first <= 'Z')) {
        return false;
    }
    let mut i: usize = 0;
    while i < n
        invariant
            i <= n < path.len(),
            n == index_from(path@, ':', 0),
            forall|j: int| 0 <= j < i ==> is_scheme_char(#[trigger] path@[j]),
        decreases n - i,
    {
        if !scheme_char(path[i]) {
            assert(!is_scheme_char(path@[i as int]));
            return false;
        }
        i += 1;
    }
    let sep = chars_of("://");
    proof {
        reveal_strlit("://");
    }
    matches_at(path, &sep, n)
}

/// The absolute form of the control URL `path` of a description that lies
/// in the directory `base`.
pub fn resolve_url(base: &str, path: &str) -> (url: String)
    ensures
        url@ == resolved_url(base@, path@),
{
    let p = chars_of(path);
    if starts_with_scheme(&p) {
        return string_of(&p);
    }
    let mut k: usize = 0;
    assert(p@.subrange(0, p.len() as int) =~= p@);
    while k < p.len() && p[k] == '/'
        invariant
            k <= p.len(),
            strip_slashes(p@) == strip_slashes(p@.subrange(k as int, p.len() as int)),
        decreases p.len() - k,
    {
        assert(p@.subrange(k as int, p.len() as int).drop_first() =~= p@.subrange(
            k + 1,
            p.len() as int,
        ));
        k += 1;
    }
    let mut out = chars_of(base);
    out.push('/');
    let mut i: usize = k;
    while i < p.len()
        invariant
            k <= i <= p.len(),
            out@ == base@ + seq!['/'] + p@.subrange(k as int, i as int),
        decreases p.len() - i,
    {
        out.push(p[i]);
        assert(p@.subrange(k as int, i + 1) =~= p@.subrange(k as int, i as int).push(p@[i as int]));
        i += 1;
    }
    string_of(&out)
}

/// The host of `url`.
pub fn host_of_url(url: &str) -> (host: String)
    ensures
        host@ == host_of(url@),
{
    let v = chars_of(url);
    let sep = chars_of("://");
    proof {
        reveal_strlit("://");
    }
    match find_sub(&v, &sep, 0) {
        Some(i) => {
            let start: usize = i + 3;
            let rest = slice_of(&v, start, v.len());
            assert(rest@ =~= v@.skip(start as int));
            let colon = find_char(&rest, ':', 0);
            let slash = find_char(&rest, '/', 0);
            let len: usize = if colon <= slash {
                colon
            } else {
                slash
            };
            let host = slice_of(&v, start, start + len);
            string_of(&host)
        },
        None => String::new(),
    }
}

/// The record of the device at `url`, given what was found in its
/// description.
pub fn describe(
    url: &str,
    name: Option<String>,
    av: Option<String>,
    rc: Option<String>,
) -> (info: ProjectorInfo)
    ensures
        info@ == described(url@, opt_view(name), opt_view(av), opt_view(rc)),
        has_scheme(url@) ==> absolute_or_none(info@.av_transport_url) && absolute_or_none(
            info@.rendering_control_url,
        ),
{
    proof {
        if has_scheme(url@) {
            if av is Some {
                lemma_resolved_has_scheme(url@, av->0@);
            }
            if rc is Some {
                lemma_resolved_has_scheme(url@, rc->0@);
            }
        }
    }
    let base = base_url(url);
    let friendly_name = match name {
        Some(n) => n,
        None => UNKNOWN_DEVICE.to_owned(),
    };
    let av_transport_url = match av {
        Some(p) => Some(resolve_url(base.as_str(), p.as_str())),
        None => None,
    };
    let rendering_control_url = match rc {
        Some(p) => Some(resolve_url(base.as_str(), p.as_str())),
        None => None,
    };
    ProjectorInfo {
        friendly_name,
        ip: host_of_url(url),
        location_xml_url: url.to_owned(),
        av_transport_url,
        rendering_control_url,
    }
}

/// Reads the description document `xml_content` of the device at `url`.
///
/// A document without a display name gives the placeholder name; a document
/// without a service block gives no control URL for that service.
pub fn parse_device_xml(url: &str, xml_content: &str) -> (info: ProjectorInfo)
    ensures
        info@ == device_from(url@, xml_content@),
        regex_first_group(RC_PATTERN@, xml_content@) is None ==> info@.rendering_control_url
            is None,
        regex_first_group(AV_PATTERN@, xml_content@) is None ==> info@.av_transport_url is None,
        has_scheme(url@) ==> absolute_or_none(info@.av_transport_url) && absolute_or_none(
            info@.rendering_control_url,
        ),
{
    let name = first_group(NAME_PATTERN, xml_content);
    let av = first_group(AV_PATTERN, xml_content);
    let rc = first_group(RC_PATTERN, xml_content);
    describe(url, name, av, rc)
}

/// The record of the device advertised at `location_url`, from the outcome
/// of fetching its description: the document's text, or `None` when the
/// fetch failed or timed out.
pub fn resolve(location_url: &str, fetched: Option<String>) -> (found: Result<
    ProjectorInfo,
    CastError,
>)
    ensures
        match found {
            Ok(info) => fetched is Some && info@ == device_from(location_url@, fetched->0@) && (
            has_scheme(location_url@) ==> absolute_or_none(info@.av_transport_url)
                && absolute_or_none(info@.rendering_control_url)),
            Err(e) => fetched is None && e == CastError::Descriptor,
        },
{
    match fetched {
        Some(xml) => Ok(parse_device_xml(location_url, xml.as_str())),
        None => Err(CastError::Descriptor),
    }
}

} // verus!
