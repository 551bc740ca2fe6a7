//! QR-code pairing: the URL a phone scans, depending on the connection mode,
//! and the PNG data URL of its QR code.
//!
//! LAN:   aura://pair?mode=lan&ip=192.168.1.5&port=8765&session=xxx
//! Relay: aura://pair?mode=relay&url=wss%3A%2F%2Fserver.com%2Frelay&room=xxx&key=yyy
use base64::Engine;
use vstd::prelude::*;
use vstd::utf8::encode_utf8;
use crate::config::{AppConfig, AppConfigView, ConnectionMode, dec_digits, u16_to_decimal};
use crate::text::{concat, owned};

verus! {

broadcast use vstd::string::group_string_axioms;

/// The QR code of a pairing URL and the URL itself.
#[derive(Debug)]
pub struct PairingInfo {
    /// `data:image/png;base64,...`
    pub qr_data_url: String,
    /// `aura://pair?...`
    pub raw_url: String,
}

// ---------------------------------------------------------------------------
// Session ids
// ---------------------------------------------------------------------------

/// `c` is a lower-case hexadecimal digit.
pub open spec fn is_lower_hex(c: char) -> bool {
    ('0' <= c <= '9') || ('a' <= c <= 'f')
}

/// `s` is the hyphenated lower-case text of a version-4 UUID.
pub open spec fn is_uuid_v4_text(s: Seq<char>) -> bool {
    &&& s.len() == 36
    &&& forall|i: int|
        0 <= i < 36 ==> if i == 8 || i == 13 || i == 18 || i == 23 {
            s[i] == '-'
        } else {
            is_lower_hex(#[trigger] s[i])
        }
    &&& s[14] == '4'
    &&& (s[19] == '8' || s[19] == '9' || s[19] == 'a' || s[19] == 'b')
}

/// A fresh random session id.
/// Trusted: `uuid::Uuid::new_v4().to_string()`. The value is random; what
/// is stated is the text form that uuid's `Display` gives a version-4 UUID
/// (hyphenated, lower case, version digit 4, RFC 4122 variant).
#[verifier::external_body]
fn new_session_id() -> (s: String)
    ensures
        is_uuid_v4_text(s@),
{
    uuid::Uuid::new_v4().to_string()
}

// ---------------------------------------------------------------------------
// Percent encoding
// ---------------------------------------------------------------------------

/// Bytes that percent encoding leaves as they are.
pub open spec fn is_unreserved(b: u8) -> bool {
    ||| 48 <= b <= 57
    ||| 65 <= b <= 90
    ||| 97 <= b <= 122
    ||| b == 45
    ||| b == 46
    ||| b == 95
    ||| b == 126
}

/// Upper-case hexadecimal digit of `n < 16`.
pub open spec fn hex_upper(n: u8) -> char {
    if n < 10 {
        (n + 48) as char
    } else {
        (n + 55) as char
    }
}

/// The encoding of one byte.
pub open spec fn percent_byte(b: u8) -> Seq<char> {
    if is_unreserved(b) {
        seq![b as char]
    } else {
        seq!['%', hex_upper(b / 16), hex_upper(b % 16)]
    }
}

/// Percent encoding of bytes: every byte except ASCII letters, digits and
/// `-._~` becomes `%XX`.
pub open spec fn percent_encode(bytes: Seq<u8>) -> Seq<char>
    decreases bytes.len(),
{
    if bytes.len() == 0 {
        Seq::empty()
    } else {
        percent_encode(bytes.drop_last()) + percent_byte(bytes.last())
    }
}

/// Percent-encodes the UTF-8 bytes of `s`.
/// Trusted: `urlencoding::encode`, whose source encodes each byte of the
/// UTF-8 form except `0-9 A-Z a-z - . _ ~` as `%` and two upper-case hex
/// digits.
#[verifier::external_body]
fn url_encode(s: &str) -> (r: String)
    ensures
        r@ == percent_encode(encode_utf8(s@)),
{
    urlencoding::encode(s).into_owned()
}

// ---------------------------------------------------------------------------
// Pairing URL
// ---------------------------------------------------------------------------

/// Error when the LAN address of the desktop is unknown.
pub open spec fn no_local_ip_text() -> Seq<char> {
    "无法获取本机 IP"@
}

/// Error when relay mode has no relay server.
pub open spec fn no_relay_server_text() -> Seq<char> {
    "未配置中继服务器地址"@
}

/// The pairing URL for configuration `c`, local address `ip` and session
/// id `session`.
pub open spec fn pairing_url_of(c: AppConfigView, ip: Option<Seq<char>>, session: Seq<char>) -> Result<
    Seq<char>,
    Seq<char>,
> {
    match c.connection_mode {
        ConnectionMode::Lan => match ip {
            None => Err(no_local_ip_text()),
            Some(ip) => Ok("aura://pair?mode=lan&ip="@ + ip + "&port="@ + dec_digits(
                c.server_port as nat,
            ) + "&session="@ + session),
        },
        ConnectionMode::Relay => if c.relay_server_url.len() == 0 {
            Err(no_relay_server_text())
        } else {
            Ok("aura://pair?mode=relay&url="@ + percent_encode(encode_utf8(c.relay_server_url))
                + "&room="@ + session + "&key="@ + c.relay_secret_key)
        },
    }
}

/// The view of an optional string slice.
pub open spec fn opt_str_view(o: Option<&str>) -> Option<Seq<char>> {
    match o {
        Some(s) => Some(s@),
        None => None,
    }
}

/// The URL a phone scans to pair, for the desktop's LAN address `local_ip`
/// (when it is known) and the session id `session_id`.
pub fn pairing_url(config: &AppConfig, local_ip: Option<&str>, session_id: &str) -> (r: Result<String, String>)
    ensures
        match r {
            Ok(u) => pairing_url_of(config@, opt_str_view(local_ip), session_id@) == Ok::<
                Seq<char>,
                Seq<char>,
            >(u@),
            Err(e) => pairing_url_of(config@, opt_str_view(local_ip), session_id@) == Err::<
                Seq<char>,
                Seq<char>,
            >(e@),
        },
{
    match config.connection_mode {
        ConnectionMode::Lan => match local_ip {
            None => Err(owned("无法获取本机 IP")),
            Some(ip) => {
                let mut u = concat("aura://pair?mode=lan&ip=", ip);
                u.append("&port=");
                let port = u16_to_decimal(config.server_port);
                u.append(port.as_str());
                u.append("&session=");
                u.append(session_id);
                Ok(u)
            },
        },
        ConnectionMode::Relay => {
            if config.relay_server_url.as_str().is_empty() {
                return Err(owned("未配置中继服务器地址"));
            }
            let enc = url_encode(config.relay_server_url.as_str());
            let mut u = concat("aura://pair?mode=relay&url=", enc.as_str());
            u.append("&room=");
            u.append(session_id);
            u.append("&key=");
            u.append(config.relay_secret_key.as_str());
            Ok(u)
        },
    }
}

// ---------------------------------------------------------------------------
// QR code image
// ---------------------------------------------------------------------------

/// Smallest width and height of a pairing QR code, in pixels.
pub const QR_MIN_SIZE: u32 = 256;

/// The QR code of `text` (error correction level M, at least
/// `min_width` x `min_height` pixels) as width, height and one gray byte
/// per pixel, or the encoder's error text.
pub uninterp spec fn qr_gray_image(text: Seq<char>, min_width: u32, min_height: u32) -> Result<
    (u32, u32, Seq<u8>),
    Seq<char>,
>;

/// The PNG file of a gray image converted to RGB, or the encoder's error
/// text.
pub uninterp spec fn png_of_gray(width: u32, height: u32, pixels: Seq<u8>) -> Result<Seq<u8>, Seq<char>>;

/// Renders the QR code of `text`.
/// Trusted: `qrcode::QrCode::new`, then `render::<image::Luma<u8>>()`
/// `.min_dimensions(min_width, min_height).build()`. Claimed: the result is
/// a function of the arguments, and the pixel buffer has one byte per pixel (qrcode builds it
/// with `ImageBuffer::from_pixel`).
#[verifier::external_body]
fn render_qr(text: &str, min_width: u32, min_height: u32) -> (r: Result<(u32, u32, Vec<u8>), String>)
    ensures
        match r {
            Ok((w, h, px)) => qr_gray_image(text@, min_width, min_height) == Ok::<(u32, u32, Seq<u8>), Seq<char>>(
                (w, h, px@),
            ) && px@.len() == w * h,
            Err(e) => qr_gray_image(text@, min_width, min_height) == Err::<(u32, u32, Seq<u8>), Seq<char>>(e@),
        },
{
    match qrcode::QrCode::new(text) {
        Ok(code) => {
            let img = code.render::<image::Luma<u8>>().min_dimensions(min_width, min_height).build();
            Ok((img.width(), img.height(), img.into_raw()))
        },
        Err(e) => Err(e.to_string()),
    }
}

/// Encodes a gray image as an RGB PNG file.
/// Trusted: `image::GrayImage::from_raw` (which succeeds for a buffer of
/// exactly one byte per pixel), `DynamicImage::ImageLuma8(..).to_rgb8()` and
/// `write_to(.., ImageFormat::Png)` into memory. Claimed: the result is a
/// function of the image.
#[verifier::external_body]
fn encode_png(width: u32, height: u32, pixels: Vec<u8>) -> (r: Result<Vec<u8>, String>)
    requires
        pixels@.len() == width * height,
    ensures
        match r {
            Ok(b) => png_of_gray(width, height, pixels@) == Ok::<Seq<u8>, Seq<char>>(b@),
            Err(e) => png_of_gray(width, height, pixels@) == Err::<Seq<u8>, Seq<char>>(e@),
        },
{
    let img = image::GrayImage::from_raw(width, height, pixels).unwrap();
    let mut out = std::io::Cursor::new(Vec::new());
    match image::DynamicImage::ImageLuma8(img).to_rgb8().write_to(&mut out, image::ImageFormat::Png) {
        Ok(()) => Ok(out.into_inner()),
        Err(e) => Err(e.to_string()),
    }
}

// ---------------------------------------------------------------------------
// Base64
// ---------------------------------------------------------------------------

/// The base64 alphabet (standard, `+` and `/`).
pub open spec fn b64_digit(n: u8) -> char {
    if n < 26 {
        (n + 65) as char
    } else if n < 52 {
        (n + 71) as char
    } else if n < 62 {
        (n - 4) as char
    } else if n == 62 {
        '+'
    } else {
        '/'
    }
}

/// Standard base64 with `=` padding.
pub open spec fn base64_std(b: Seq<u8>) -> Seq<char>
    decreases b.len(),
{
    if b.len() == 0 {
        Seq::empty()
    } else if b.len() == 1 {
        seq![b64_digit(b[0] / 4), b64_digit(((b[0] % 4) * 16) as u8), '=', '=']
    } else if b.len() == 2 {
        seq![
            b64_digit(b[0] / 4),
            b64_digit(((b[0] % 4) * 16 + b[1] / 16) as u8),
            b64_digit(((b[1] % 16) * 4) as u8),
            '=',
        ]
    } else {
        seq![
            b64_digit(b[0] / 4),
            b64_digit(((b[0] % 4) * 16 + b[1] / 16) as u8),
            b64_digit(((b[1] % 16) * 4 + b[2] / 64) as u8),
            b64_digit(b[2] % 64),
        ] + base64_std(b.skip(3))
    }
}

/// Base64 text of `bytes`.
/// Trusted: `base64::engine::general_purpose::STANDARD.encode`, the
/// standard alphabet with padding.
#[verifier::external_body]
fn base64_encode(bytes: &[u8]) -> (s: String)
    ensures
        s@ == base64_std(bytes@),
{
    base64::engine::general_purpose::STANDARD.encode(bytes)
}

/// The data URL of the QR code of `text`, or the error of the QR or PNG
/// encoder.
pub open spec fn qr_data_url_of(text: Seq<char>) -> Result<Seq<char>, Seq<char>> {
    match qr_gray_image(text, QR_MIN_SIZE, QR_MIN_SIZE) {
        Err(e) => Err(e),
        Ok((w, h, px)) => match png_of_gray(w, h, px) {
            Err(e) => Err(e),
            Ok(png) => Ok("data:image/png;base64,"@ + base64_std(png)),
        },
    }
}

/// `data:image/png;base64,...` of the QR code of `text`.
pub fn qr_data_url(text: &str) -> (r: Result<String, String>)
    ensures
        match r {
            Ok(u) => qr_data_url_of(text@) == Ok::<Seq<char>, Seq<char>>(u@),
            Err(e) => qr_data_url_of(text@) == Err::<Seq<char>, Seq<char>>(e@),
        },
{
    let (w, h, px) = match render_qr(text, QR_MIN_SIZE, QR_MIN_SIZE) {
        Ok(img) => img,
        Err(e) => {
            return Err(e);
        },
    };
    let png = match encode_png(w, h, px) {
        Ok(b) => b,
        Err(e) => {
            return Err(e);
        },
    };
    let b64 = base64_encode(png.as_slice());
    Ok(concat("data:image/png;base64,", b64.as_str()))
}

/// What generating a pairing QR code gives for session id `session`.
pub open spec fn pairing_outcome(c: AppConfigView, ip: Option<Seq<char>>, session: Seq<char>) -> Result<
    (Seq<char>, Seq<char>),
    Seq<char>,
> {
    match pairing_url_of(c, ip, session) {
        Err(e) => Err(e),
        Ok(u) => match qr_data_url_of(u) {
            Err(e) => Err(e),
            Ok(d) => Ok((d, u)),
        },
    }
}

/// A new pairing: a fresh random session id, the pairing URL for the
/// configuration and the desktop's LAN address, and its QR code.
pub fn generate_pairing_qr(config: &AppConfig, local_ip: Option<String>) -> (r: Result<PairingInfo, String>)
    ensures
        exists|session: Seq<char>|
            #![trigger pairing_outcome(config@, opt_string_view(local_ip), session)]
            is_uuid_v4_text(session) && match r {
                Ok(info) => pairing_outcome(config@, opt_string_view(local_ip), session) == Ok::<
                    (Seq<char>, Seq<char>),
                    Seq<char>,
                >((info.qr_data_url@, info.raw_url@)),
                Err(e) => pairing_outcome(config@, opt_string_view(local_ip), session) == Err::<
                    (Seq<char>, Seq<char>),
                    Seq<char>,
                >(e@),
            },
{
    let session_id = new_session_id();
    let ip: Option<&str> = match &local_ip {
        Some(s) => Some(s.as_str()),
        None => None,
    };
    assert(opt_str_view(ip) == opt_string_view(local_ip));
    let raw_url = match pairing_url(config, ip, session_id.as_str()) {
        Ok(u) => u,
        Err(e) => {
            assert(pairing_outcome(config@, opt_string_view(local_ip), session_id@) is Err);
            return Err(e);
        },
    };
    let qr = match qr_data_url(raw_url.as_str()) {
        Ok(d) => d,
        Err(e) => {
            assert(pairing_outcome(config@, opt_string_view(local_ip), session_id@) is Err);
            return Err(e);
        },
    };
    assert(pairing_outcome(config@, opt_string_view(local_ip), session_id@) is Ok);
    Ok(PairingInfo { qr_data_url: qr, raw_url })
}

/// The view of an optional string.
pub open spec fn opt_string_view(o: Option<String>) -> Option<Seq<char>> {
    match o {
        Some(s) => Some(s@),
        None => None,
    }
}

/// The two ways pairing fails before any random value matters: LAN mode
/// without a known address, and relay mode without a relay server.
pub proof fn law_pairing_requirements(c: AppConfigView, ip: Option<Seq<char>>, session: Seq<char>)
    ensures
        c.connection_mode == ConnectionMode::Lan && ip is None ==> pairing_outcome(c, ip, session)
            == Err::<(Seq<char>, Seq<char>), Seq<char>>(no_local_ip_text()),
        c.connection_mode == ConnectionMode::Relay && c.relay_server_url.len() == 0
            ==> pairing_outcome(c, ip, session) == Err::<(Seq<char>, Seq<char>), Seq<char>>(
            no_relay_server_text(),
        ),
{
}

} // verus!
