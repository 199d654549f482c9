//! The configuration of a transfer session: the address it binds, the URL it announces and the
//! QR code that carries that URL.
use crate::address::{
    check_explicit_address, host_interfaces, ip_text_of, is_first_candidate, is_first_of_family,
    is_ip_literal, is_loopback, of_family, select_address, AddressError, IpAddress,
};
use crate::error::QrSyncError;
use crate::qr::{framed, is_qr_side, matrix_pixels, qr_matrix, qr_symbol_of, surround};
use crate::reference::{decodes_to, encodable_len, encode_reference, reference_of, ReferenceError};
use qr2term::matrix::Matrix;
use qr2term::render::Color;
use std::path::PathBuf;
use vstd::prelude::*;
use vstd::string::StringSliceAdditionalSpecFns;
use vstd::utf8::encode_utf8;

verus! {

#[verifier::external_type_specification]
#[verifier::external_body]
pub struct ExPathBuf(std::path::PathBuf);

/// How a session is set up: the address override, the port, the file to send (none to
/// receive), the directory that receives, the terminal's background and the address family.
#[derive(Debug)]
pub struct QrSyncHttp {
    ip_address: Option<String>,
    port: u16,
    filename: Option<String>,
    root_dir: PathBuf,
    light_term: bool,
    ipv6: bool,
}

/// The decimal digit `d`.
pub open spec fn digit_char(d: nat) -> char {
    "0123456789"@[d as int]
}

/// The decimal text of `n`, without leading zeros.
pub open spec fn decimal(n: nat) -> Seq<char>
    decreases n,
{
    if n < 10 {
        seq![digit_char(n)]
    } else {
        decimal(n / 10).push(digit_char(n % 10))
    }
}

/// The URL a session announces: the download of the selected file, or the upload form.
pub open spec fn transfer_url(ip: Seq<char>, port: u16, filename: Option<Seq<char>>) -> Seq<char> {
    "http://"@ + ip + ":"@ + decimal(port as nat) + "/"@ + match filename {
        Some(name) => reference_of(name),
        None => "receive"@,
    }
}

/// The URL of a send-mode session ends with the reference of the selected file, and decoding
/// that reference gives back the file's exact name.
pub proof fn lemma_url_carries_file_name(
    ip: Seq<char>,
    port: u16,
    name: Seq<char>,
    outcome: Result<Seq<char>, ReferenceError>,
)
    requires
        decodes_to(reference_of(name), outcome),
    ensures
        ({
            let url = transfer_url(ip, port, Some(name));
            url.subrange(url.len() - reference_of(name).len(), url.len() as int) == reference_of(name)
        }),
        outcome == Ok::<Seq<char>, ReferenceError>(name),
{
    let url = transfer_url(ip, port, Some(name));
    let head = "http://"@ + ip + ":"@ + decimal(port as nat) + "/"@;
    assert(url =~= head + reference_of(name));
    assert(url.subrange(url.len() - reference_of(name).len(), url.len() as int) =~= reference_of(name));
}

/// The border around the QR code: light on a dark terminal, dark on a light one, so that the
/// code stands out from the background.
pub open spec fn border_color(light_term: bool) -> Color {
    if light_term {
        Color::Dark
    } else {
        Color::Light
    }
}

/// The width of the border, in modules.
pub const QR_BORDER: usize = 2;

/// The decimal text of `n`.
fn decimal_text(n: u16) -> (r: String)
    ensures
        r@ == decimal(n as nat),
    decreases n,
{
    let digits = "0123456789";
    proof {
        reveal_strlit("0123456789");
    }
    let last = digits.substring_char((n % 10) as usize, (n % 10) as usize + 1);
    if n < 10 {
        last.to_owned()
    } else {
        let mut text = decimal_text(n / 10);
        text.append(last);
        text
    }
}

impl QrSyncHttp {
    /// A session set up from the command line.
    pub fn new(
        ip_address: Option<String>,
        port: u16,
        filename: Option<String>,
        root_dir: PathBuf,
        light_term: bool,
        ipv6: bool,
    ) -> (r: Self)
        ensures
            r.spec_ip_address() == ip_address,
            r.spec_port() == port,
            r.spec_filename() == filename,
            r.spec_root_dir() == root_dir,
            r.spec_light_term() == light_term,
            r.spec_ipv6() == ipv6,
    {
        QrSyncHttp { ip_address, port, filename, root_dir, light_term, ipv6 }
    }

    /// The address given explicitly, if any.
    pub closed spec fn spec_ip_address(&self) -> Option<String> {
        self.ip_address
    }

    /// The port the server listens on.
    pub closed spec fn spec_port(&self) -> u16 {
        self.port
    }

    /// The file sent in send mode; none in receive mode.
    pub closed spec fn spec_filename(&self) -> Option<String> {
        self.filename
    }

    /// The directory that receives uploads.
    pub closed spec fn spec_root_dir(&self) -> PathBuf {
        self.root_dir
    }

    /// Whether the terminal has a light background.
    pub closed spec fn spec_light_term(&self) -> bool {
        self.light_term
    }

    /// Whether an IPv6 address is preferred to an IPv4 one.
    pub closed spec fn spec_ipv6(&self) -> bool {
        self.ipv6
    }

    /// The address to bind. An address given explicitly is taken as it was written when it is
    /// an IP literal, and the interfaces are not looked at; otherwise the host's interfaces are
    /// listed and one of their addresses is chosen, of the preferred family and never a loopback
    /// one.
    pub fn find_public_ip(&self) -> (r: Result<String, QrSyncError>)
        ensures
            match self.spec_ip_address() {
                Some(explicit) => {
                    &&& r is Ok <==> is_ip_literal(explicit@)
                    &&& r matches Ok(s) ==> s@ == explicit@
                    &&& r matches Err(e) ==> e == QrSyncError::Address(AddressError::Invalid)
                },
                None => {
                    &&& r matches Ok(s) ==> exists|a: IpAddress|
                        !is_loopback(a) && of_family(a, self.spec_ipv6()) && s@ == #[trigger] ip_text_of(a)
                    &&& r matches Err(e) ==> e == QrSyncError::Address(AddressError::NoInterface)
                        || e == QrSyncError::Address(AddressError::Unroutable)
                },
            },
    {
        match &self.ip_address {
            Some(explicit) => match check_explicit_address(explicit.as_str()) {
                Ok(address) => Ok(address),
                Err(e) => Err(QrSyncError::Address(e)),
            },
            None => {
                let interfaces = host_interfaces();
                match select_address(&interfaces, self.ipv6) {
                    Ok(chosen) => {
                        proof {
                            let (i, j) = choose|i: int, j: int|
                                is_first_candidate(interfaces@, i) && is_first_of_family(
                                    interfaces@[i].addresses@,
                                    self.ipv6,
                                    j,
                                ) && interfaces@[i].addresses@[j].ip == chosen.ip
                                    && interfaces@[i].addresses@[j].text@ == chosen.text@
                                    && !is_loopback(chosen.ip);
                            assert(interfaces@[i].addresses@[j].text@ == ip_text_of(
                                interfaces@[i].addresses@[j].ip,
                            ));
                        }
                        Ok(chosen.text)
                    },
                    Err(e) => Err(QrSyncError::Address(e)),
                }
            },
        }
    }

    /// The URL the QR code carries: `http://<address>:<port>/` followed by the reference of the
    /// selected file in send mode, by `receive` in receive mode.
    pub fn generate_qr_code_url(&self, ip_address: &str) -> (r: String)
        requires
            self.spec_filename() matches Some(name) ==> encodable_len(encode_utf8(name@).len()),
        ensures
            r@ == transfer_url(
                ip_address@,
                self.spec_port(),
                match self.spec_filename() {
                    Some(name) => Some(name@),
                    None => None,
                },
            ),
    {
        let mut url = "http://".to_owned();
        url.append(ip_address);
        url.append(":");
        let port = decimal_text(self.port);
        url.append(port.as_str());
        url.append("/");
        match &self.filename {
            Some(name) => {
                let reference = encode_reference(name.as_str());
                url.append(reference.as_str());
            },
            None => url.append("receive"),
        }
        url
    }

    /// The QR code of `data`, inside a border of light modules on a dark terminal and of dark
    /// modules on a light one.
    pub fn generate_qr_code_matrix(&self, data: &str) -> (r: Result<Matrix<Color>, QrSyncError>)
        ensures
            r is Ok <==> qr_symbol_of(data.spec_bytes()) is Some,
            r matches Err(e) ==> e == QrSyncError::QrCode,
            r matches Ok(m) ==> forall|side: nat|
                is_qr_side(qr_symbol_of(data.spec_bytes())->0.len(), side) ==> matrix_pixels(m)
                    == framed(
                    qr_symbol_of(data.spec_bytes())->0,
                    side,
                    QR_BORDER as nat,
                    border_color(self.spec_light_term()),
                ),
    {
        match qr_matrix(data) {
            Ok(mut matrix) => {
                let quiet = if self.light_term {
                    Color::Dark
                } else {
                    Color::Light
                };
                surround(&mut matrix, QR_BORDER, quiet);
                Ok(matrix)
            },
            Err(_) => Err(QrSyncError::QrCode),
        }
    }

    /// The port the server listens on.
    pub fn port(&self) -> (r: u16)
        ensures
            r == self.spec_port(),
    {
        self.port
    }

    /// The file sent in send mode; none in receive mode.
    pub fn filename(&self) -> (r: &Option<String>)
        ensures
            *r == self.spec_filename(),
    {
        &self.filename
    }

    /// The directory that receives uploads.
    pub fn root_dir(&self) -> (r: &PathBuf)
        ensures
            *r == self.spec_root_dir(),
    {
        &self.root_dir
    }
}

} // verus!
