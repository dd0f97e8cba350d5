//! The pairing payload a client scans to find this service: the service's
//! public key and relay list, rendered as JSON and as a QR image in SVG.

use vstd::prelude::*;

use crate::json::{append_dec, append_quoted, append_string_array, dec_of, quoted, string_array};
use crate::order::views_of;

verus! {

/// Version number of the pairing payload shape.
pub const PAIRING_VERSION: u32 = 1;

/// What a pairing QR code carries.
#[derive(Debug)]
pub struct PairingPayload {
    pub version: u32,
    pub app: String,
    pub node_pubkey: String,
    pub relays: Vec<String>,
}

/// The pairing payload as JSON, with the `nodePubkey` wire spelling.
pub open spec fn spec_render_pairing(
    version: u32,
    app: Seq<char>,
    node_pubkey: Seq<char>,
    relays: Seq<Seq<char>>,
) -> Seq<char> {
    "{\"version\":"@ + dec_of(version as int) + ",\"app\":"@ + quoted(app) + ",\"nodePubkey\":"@
        + quoted(node_pubkey) + ",\"relays\":"@ + string_array(relays) + "}"@
}

/// The SVG image encoding given data as a QR code, or `None` where the data
/// does not fit a QR code. The rendering is a function of the data alone.
pub uninterp spec fn qr_svg_of(data: Seq<char>) -> Option<Seq<char>>;

/// Relies on qrcode::QrCode::new and its SVG renderer: the image for given
/// data (512-pixel minimum, black on white) is a function of the data alone,
/// and fails only when the data exceeds QR capacity.
#[verifier::external_body]
fn qr_svg(data: &str) -> (r: Option<String>)
    ensures
        match r {
            Some(s) => qr_svg_of(data@) == Some(s@),
            None => qr_svg_of(data@) is None,
        },
{
    let code = match qrcode::QrCode::new(data.as_bytes()) {
        Ok(c) => c,
        Err(_) => return None,
    };
    let svg = code
        .render::<qrcode::render::svg::Color>()
        .min_dimensions(512, 512)
        .dark_color(qrcode::render::svg::Color("#000000"))
        .light_color(qrcode::render::svg::Color("#ffffff"))
        .build();
    Some(svg)
}

impl PairingPayload {
    /// A pairing payload for this service's key and relays, at the current
    /// version and app identifier.
    pub fn new(node_pubkey: String, relays: Vec<String>) -> (r: PairingPayload)
        ensures
            r.version == PAIRING_VERSION,
            r.app@ == "umbrel-balancebridge"@,
            r.node_pubkey@ == node_pubkey@,
            r.relays@ == relays@,
    {
        PairingPayload {
            version: PAIRING_VERSION,
            app: String::from_str("umbrel-balancebridge"),
            node_pubkey,
            relays,
        }
    }

    /// Render the payload as its JSON wire form.
    pub fn to_json(&self) -> (r: String)
        ensures
            r@ == spec_render_pairing(
                self.version,
                self.app@,
                self.node_pubkey@,
                views_of(self.relays@),
            ),
    {
        let mut out = String::new();
        out.append("{\"version\":");
        append_dec(&mut out, self.version as u64);
        out.append(",\"app\":");
        append_quoted(&mut out, self.app.as_str());
        out.append(",\"nodePubkey\":");
        append_quoted(&mut out, self.node_pubkey.as_str());
        out.append(",\"relays\":");
        append_string_array(&mut out, &self.relays);
        out.append("}");
        proof {
            assert(out@ =~= spec_render_pairing(
                self.version,
                self.app@,
                self.node_pubkey@,
                views_of(self.relays@),
            ));
        }
        out
    }

    /// Render the payload's JSON as a QR code in SVG; `None` when the
    /// payload exceeds QR capacity.
    pub fn generate_qr_svg(&self) -> (r: Option<String>)
        ensures
            ({
                let data = spec_render_pairing(
                    self.version,
                    self.app@,
                    self.node_pubkey@,
                    views_of(self.relays@),
                );
                match r {
                    Some(svg) => qr_svg_of(data) == Some(svg@),
                    None => qr_svg_of(data) is None,
                }
            }),
    {
        let json = self.to_json();
        qr_svg(json.as_str())
    }
}

} // verus!
